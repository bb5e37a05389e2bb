use wasm_gol::Universe;
use wasm_gol::UniversePattern;

/// Reads one cell out of the packed word view: bit `i` of the grid sits
/// at bit `i % 32` of word `i / 32`, least significant bit first.
fn cell_at(u: &Universe, row: u32, col: u32) -> bool {
    let idx = (row * u.width() + col) as usize;
    (u.cells()[idx / 32] >> (idx % 32)) & 1 == 1
}

fn set_alive(u: &mut Universe, row: u32, col: u32) {
    if !cell_at(u, row, col) {
        u.toggle_cell(row, col);
    }
}

fn snapshot(u: &Universe) -> Vec<bool> {
    let mut bits = Vec::new();
    for row in 0..u.height() {
        for col in 0..u.width() {
            bits.push(cell_at(u, row, col));
        }
    }
    bits
}

#[test]
fn create_universe() {
    let mut universe = Universe::new();
    universe.fill(UniversePattern::Empty, 10, 10);

    assert_eq!(universe.height(), 10);
    assert_eq!(universe.width(), 10);
}

#[test]
fn toggle_cell() {
    let mut universe = Universe::new();
    universe.fill(UniversePattern::Random, 10, 10);

    universe.toggle_cell(5, 8);
}

#[test]
fn dimension_round_trip() {
    let mut universe = Universe::new();
    for (w, h) in [(0, 0), (1, 5), (7, 3), (10, 10), (64, 1)] {
        universe.fill(UniversePattern::Empty, w, h);
        assert_eq!(universe.width(), w);
        assert_eq!(universe.height(), h);
    }
}

#[test]
fn empty_fill_all_dead() {
    let mut universe = Universe::new();
    universe.fill(UniversePattern::Empty, 6, 7);
    for row in 0..7 {
        for col in 0..6 {
            assert!(!cell_at(&universe, row, col));
        }
    }
}

#[test]
fn pattern_fill_exact_bits() {
    let mut universe = Universe::new();
    universe.fill(UniversePattern::Pattern, 6, 5);
    for row in 0..5u32 {
        for col in 0..6u32 {
            let i = row * 6 + col;
            assert_eq!(cell_at(&universe, row, col), i % 2 == 0 || i % 7 == 0);
        }
    }
    // The same 30 cells, checked bit-for-bit as one packed word.
    assert_eq!(universe.cells()[0], 360011221);
}

#[test]
fn corner_wraparound() {
    let mut universe = Universe::new();
    universe.fill(UniversePattern::Empty, 3, 3);
    universe.toggle_cell(0, 0);
    universe.toggle_cell(0, 2);
    universe.toggle_cell(2, 0);
    universe.toggle_cell(2, 2);

    // The three other corners are neighbors of (0, 0) only by wraparound.
    assert_eq!(universe.live_neighbor_count(0, 0), 3);
    // The center sees all four corners directly.
    assert_eq!(universe.live_neighbor_count(1, 1), 4);
}

#[test]
fn single_cell_torus() {
    let mut universe = Universe::new();
    universe.fill(UniversePattern::Empty, 1, 1);
    universe.toggle_cell(0, 0);

    // On a 1x1 torus all 8 neighbor offsets lead back to the cell itself.
    assert_eq!(universe.live_neighbor_count(0, 0), 8);

    // 8 neighbors is overpopulation, so the cell dies.
    universe.tick();
    assert!(!cell_at(&universe, 0, 0));
}

#[test]
fn block_still_life() {
    let mut universe = Universe::new();
    universe.fill(UniversePattern::Empty, 5, 5);
    for (row, col) in [(1, 1), (1, 2), (2, 1), (2, 2)] {
        set_alive(&mut universe, row, col);
    }
    let before = snapshot(&universe);

    universe.tick();

    assert_eq!(snapshot(&universe), before);
}

#[test]
fn blinker_oscillates() {
    let mut universe = Universe::new();
    universe.fill(UniversePattern::Empty, 5, 5);
    for (row, col) in [(2, 1), (2, 2), (2, 3)] {
        set_alive(&mut universe, row, col);
    }
    let horizontal = snapshot(&universe);

    universe.tick();
    for row in 0..5 {
        for col in 0..5 {
            let expected = col == 2 && (row == 1 || row == 2 || row == 3);
            assert_eq!(cell_at(&universe, row, col), expected);
        }
    }

    universe.tick();
    assert_eq!(snapshot(&universe), horizontal);
}

#[test]
fn toggle_isolation_on_random_grid() {
    let mut universe = Universe::new();
    universe.fill(UniversePattern::Random, 10, 10);
    let before = snapshot(&universe);

    universe.toggle_cell(5, 8);

    for row in 0..10u32 {
        for col in 0..10u32 {
            let old = before[(row * 10 + col) as usize];
            if row == 5 && col == 8 {
                assert_eq!(cell_at(&universe, row, col), !old);
            } else {
                assert_eq!(cell_at(&universe, row, col), old);
            }
        }
    }
}

#[test]
fn resize_matches_cell_count() {
    let mut universe = Universe::new();
    assert_eq!(universe.cells().len(), 0);

    universe.fill(UniversePattern::Empty, 10, 10);
    assert_eq!(universe.cells().len(), 4);

    // Same product: the buffer keeps its length.
    universe.fill(UniversePattern::Empty, 20, 5);
    assert_eq!(universe.cells().len(), 4);

    universe.fill(UniversePattern::Pattern, 3, 3);
    assert_eq!(universe.cells().len(), 1);

    universe.fill(UniversePattern::Empty, 0, 0);
    assert_eq!(universe.cells().len(), 0);
}

#[test]
fn tick_on_zero_sized_grid() {
    let mut universe = Universe::new();
    universe.tick();
    assert_eq!(universe.width(), 0);
    assert_eq!(universe.height(), 0);
}
