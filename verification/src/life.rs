//! The mathematics of the simulation: row-major indexing, toroidal
//! neighborhoods, the B3/S23 transition rule, and the seeding patterns.

use vstd::prelude::*;

use crate::universe::UniversePattern;

verus! {

/// What a live/dead flag contributes to a neighbor count.
pub open spec fn b2n(b: bool) -> nat {
    if b {
        1nat
    } else {
        0nat
    }
}

/// Row-major index of `(row, col)` on a grid `w` cells wide.
pub open spec fn rm_index(w: int, row: int, col: int) -> int {
    row * w + col
}

/// Row-major index of the cell reached from `(row, col)` by the offsets
/// `(dr, dc)` on the torus of `h` rows and `w` columns.
pub open spec fn torus_index(w: int, h: int, row: int, col: int, dr: int, dc: int) -> int {
    rm_index(w, (row + dr) % h, (col + dc) % w)
}

/// Number of live cells among the 8 toroidal neighbors of `(row, col)`:
/// every combination of a row offset in `{h-1, 0, 1}` and a column offset
/// in `{w-1, 0, 1}`, the cell itself excluded. An offset of `h-1` or `w-1`
/// is a step of `-1` modulo the grid size, so the neighborhood wraps.
pub open spec fn neighbor_count(g: Seq<bool>, w: int, h: int, row: int, col: int) -> nat {
    b2n(g[torus_index(w, h, row, col, h - 1, w - 1)]) + b2n(
        g[torus_index(w, h, row, col, h - 1, 0)],
    ) + b2n(g[torus_index(w, h, row, col, h - 1, 1)]) + b2n(
        g[torus_index(w, h, row, col, 0, w - 1)],
    ) + b2n(g[torus_index(w, h, row, col, 0, 1)]) + b2n(
        g[torus_index(w, h, row, col, 1, w - 1)],
    ) + b2n(g[torus_index(w, h, row, col, 1, 0)]) + b2n(g[torus_index(w, h, row, col, 1, 1)])
}

/// The B3/S23 rule for one cell: a live cell survives with 2 or 3 live
/// neighbors, a dead cell is born with exactly 3, every other cell is dead
/// in the next generation.
pub open spec fn next_state(alive: bool, n: nat) -> bool {
    if alive {
        n == 2 || n == 3
    } else {
        n == 3
    }
}

/// What a seeding pattern demands of cell `i`: `Empty` leaves every cell
/// dead, `Pattern` fixes each cell exactly (alive iff `i` is a multiple of
/// 2 or of 7), and `Random` allows either state.
pub open spec fn seeded(p: UniversePattern, i: int, alive: bool) -> bool {
    match p {
        UniversePattern::Empty => !alive,
        UniversePattern::Pattern => alive <==> (i % 2 == 0 || i % 7 == 0),
        UniversePattern::Random => true,
    }
}

/// A row-major index built from an in-range row and column lies below the
/// cell count of the grid.
pub proof fn lemma_rm_index_bound(w: int, h: int, row: int, col: int)
    requires
        0 <= row < h,
        0 <= col < w,
    ensures
        0 <= rm_index(w, row, col) < w * h,
{
    assert(0 <= row * w + col < w * h) by (nonlinear_arith)
        requires
            0 <= row < h,
            0 <= col < w,
    ;
}

/// Distinct in-range cells have distinct row-major indices.
pub proof fn lemma_rm_index_injective(w: int, r1: int, c1: int, r2: int, c2: int)
    requires
        0 <= r1,
        0 <= r2,
        0 <= c1 < w,
        0 <= c2 < w,
        r1 != r2 || c1 != c2,
    ensures
        rm_index(w, r1, c1) != rm_index(w, r2, c2),
{
    assert(r1 * w + c1 != r2 * w + c2) by (nonlinear_arith)
        requires
            0 <= r1,
            0 <= r2,
            0 <= c1 < w,
            0 <= c2 < w,
            r1 != r2 || c1 != c2,
    ;
}

} // verus!
