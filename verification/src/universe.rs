//! The simulation state object: a fixed-size toroidal grid of cells with
//! seeding, generation advance, point mutation, and a packed read view.

use vstd::prelude::*;

use fixedbitset::FixedBitSet;

use crate::bitset::{bits_blocks, bits_clone, bits_get, bits_new, bits_of, bits_set};
use crate::entropy::random_bool;
use crate::life::{
    lemma_rm_index_bound, lemma_rm_index_injective, neighbor_count, next_state, rm_index, seeded,
    torus_index,
};

verus! {

/// Which seed `fill` writes into the grid.
pub enum UniversePattern {
    /// Every cell dead.
    Empty,
    /// Each cell drawn independently from a nondeterministic source.
    Random,
    /// The fixed synthetic seed: cell `i` alive iff `i % 2 == 0 || i % 7 == 0`.
    Pattern,
}

/// A toroidal Game of Life grid: `width * height` cells in a dense bit
/// set, row-major, cell `(row, col)` at bit `row * width + col`.
pub struct Universe {
    width: u32,
    height: u32,
    cells: FixedBitSet,
}

impl Universe {
    /// The grid contents, one flag per cell, row-major, `true` for alive.
    pub closed spec fn grid(self) -> Seq<bool> {
        bits_of(self.cells)
    }

    /// The grid width in cells.
    pub closed spec fn spec_width(&self) -> u32 {
        self.width
    }

    /// The grid height in cells.
    pub closed spec fn spec_height(&self) -> u32 {
        self.height
    }

    /// The size bookkeeping every operation maintains: one bit per cell,
    /// and a cell count that fits the `u32` index arithmetic.
    pub closed spec fn wf(self) -> bool {
        &&& self.grid().len() == self.spec_width() * self.spec_height()
        &&& self.spec_width() * self.spec_height() <= u32::MAX
    }

    /// A universe with zero width, zero height, and an empty cell buffer.
    pub fn new() -> (r: Universe)
        ensures
            r.wf(),
            r.spec_width() == 0,
            r.spec_height() == 0,
            r.grid().len() == 0,
    {
        Universe { width: 0, height: 0, cells: bits_new(0) }
    }

    /// The grid width in cells.
    #[verifier::when_used_as_spec(spec_width)]
    pub fn width(&self) -> (r: u32)
        ensures
            r == self.spec_width(),
    {
        self.width
    }

    /// The grid height in cells.
    #[verifier::when_used_as_spec(spec_height)]
    pub fn height(&self) -> (r: u32)
        ensures
            r == self.spec_height(),
    {
        self.height
    }

    /// The bit position of cell `(row, column)` in the packed buffer.
    fn get_index(&self, row: u32, column: u32) -> (r: usize)
        requires
            self.wf(),
            row < self.spec_height(),
            column < self.spec_width(),
        ensures
            r == rm_index(self.spec_width() as int, row as int, column as int),
            r < self.grid().len(),
    {
        proof {
            lemma_rm_index_bound(
                self.spec_width() as int,
                self.spec_height() as int,
                row as int,
                column as int,
            );
        }
        (row * self.width + column) as usize
    }

    /// Whether the cell reached from `(row, column)` by the toroidal
    /// offsets `(delta_row, delta_col)` is alive.
    fn neighbor_alive(&self, row: u32, column: u32, delta_row: u32, delta_col: u32) -> (r: bool)
        requires
            self.wf(),
            0 < self.spec_width(),
            0 < self.spec_height(),
            row < self.spec_height(),
            column < self.spec_width(),
        ensures
            r == self.grid()[torus_index(
                self.spec_width() as int,
                self.spec_height() as int,
                row as int,
                column as int,
                delta_row as int,
                delta_col as int,
            )],
    {
        let neighbor_row = ((row as u64 + delta_row as u64) % (self.height as u64)) as u32;
        let neighbor_col = ((column as u64 + delta_col as u64) % (self.width as u64)) as u32;
        let idx = self.get_index(neighbor_row, neighbor_col);
        bits_get(&self.cells, idx)
    }

    /// The number of live cells among the 8 toroidal neighbors of
    /// `(row, column)`, between 0 and 8. The grid must not be empty in
    /// either dimension, since the wraparound is a remainder by the size.
    pub fn live_neighbor_count(&self, row: u32, column: u32) -> (r: u8)
        requires
            self.wf(),
            0 < self.spec_width(),
            0 < self.spec_height(),
            row < self.spec_height(),
            column < self.spec_width(),
        ensures
            r as nat == neighbor_count(
                self.grid(),
                self.spec_width() as int,
                self.spec_height() as int,
                row as int,
                column as int,
            ),
            r <= 8,
    {
        let up = self.height - 1;
        let left = self.width - 1;
        let mut count: u8 = 0;
        count += self.neighbor_alive(row, column, up, left) as u8;
        count += self.neighbor_alive(row, column, up, 0) as u8;
        count += self.neighbor_alive(row, column, up, 1) as u8;
        count += self.neighbor_alive(row, column, 0, left) as u8;
        count += self.neighbor_alive(row, column, 0, 1) as u8;
        count += self.neighbor_alive(row, column, 1, left) as u8;
        count += self.neighbor_alive(row, column, 1, 0) as u8;
        count += self.neighbor_alive(row, column, 1, 1) as u8;
        count
    }

    /// The packed cell buffer for rendering: bit `i` of the grid sits at
    /// bit `i % 32` of word `i / 32`, least significant bit first. The
    /// borrow is transient: it is invalidated by the next mutating call.
    pub fn cells(&self) -> (r: &[u32])
        ensures
            r@.len() == (self.grid().len() + 31) / 32,
            forall|i: int|
                0 <= i < self.grid().len() ==> (#[trigger] self.grid()[i] <==> (r@[i / 32] >> ((i
                    % 32) as u32)) & 1u32 == 1u32),
    {
        bits_blocks(&self.cells)
    }

    /// Advances the grid one generation under the B3/S23 rule. Every next
    /// state is computed from a stable snapshot of the current generation
    /// into a separate buffer, which then replaces the grid, so updates
    /// within one tick never influence each other. A grid with a zero
    /// dimension is left unchanged.
    pub fn tick(&mut self)
        requires
            old(self).wf(),
        ensures
            final(self).wf(),
            final(self).spec_width() == old(self).spec_width(),
            final(self).spec_height() == old(self).spec_height(),
            final(self).grid().len() == old(self).grid().len(),
            forall|r: int, c: int|
                0 <= r < old(self).spec_height() && 0 <= c < old(self).spec_width()
                    ==> #[trigger] final(self).grid()[rm_index(
                    old(self).spec_width() as int,
                    r,
                    c,
                )] == next_state(
                    old(self).grid()[rm_index(old(self).spec_width() as int, r, c)],
                    neighbor_count(
                        old(self).grid(),
                        old(self).spec_width() as int,
                        old(self).spec_height() as int,
                        r,
                        c,
                    ),
                ),
    {
        let ghost g0 = self.grid();
        let ghost w = self.spec_width() as int;
        let ghost h = self.spec_height() as int;
        let mut next = bits_clone(&self.cells);
        let width = self.width;
        let height = self.height;
        for row in 0..height
            invariant
                *self == *old(self),
                self.wf(),
                g0 == self.grid(),
                w == self.spec_width() as int,
                h == self.spec_height() as int,
                width == self.spec_width(),
                height == self.spec_height(),
                bits_of(next).len() == g0.len(),
                forall|r: int, c: int|
                    0 <= r < row && 0 <= c < w ==> #[trigger] bits_of(next)[rm_index(w, r, c)]
                        == next_state(
                        g0[rm_index(w, r, c)],
                        neighbor_count(g0, w, h, r, c),
                    ),
        {
            for col in 0..width
                invariant
                    *self == *old(self),
                    self.wf(),
                    g0 == self.grid(),
                    w == self.spec_width() as int,
                    h == self.spec_height() as int,
                    width == self.spec_width(),
                    height == self.spec_height(),
                    row < height,
                    bits_of(next).len() == g0.len(),
                    forall|r: int, c: int|
                        (0 <= r < row && 0 <= c < w) || (r == row && 0 <= c < col)
                            ==> #[trigger] bits_of(next)[rm_index(w, r, c)] == next_state(
                            g0[rm_index(w, r, c)],
                            neighbor_count(g0, w, h, r, c),
                        ),
            {
                let idx = self.get_index(row, col);
                let n = self.live_neighbor_count(row, col);
                let cur = bits_get(&self.cells, idx);
                let alive_next = if cur {
                    n == 2 || n == 3
                } else {
                    n == 3
                };
                bits_set(&mut next, idx, alive_next);
                proof {
                    assert forall|r: int, c: int|
                        (0 <= r < row && 0 <= c < w) || (r == row && 0 <= c <= col)
                            implies #[trigger] bits_of(next)[rm_index(w, r, c)] == next_state(
                        g0[rm_index(w, r, c)],
                        neighbor_count(g0, w, h, r, c),
                    ) by {
                        lemma_rm_index_bound(w, h, r, c);
                        if r != row || c != col {
                            lemma_rm_index_injective(w, r, c, row as int, col as int);
                        }
                    }
                }
            }
        }
        self.cells = next;
    }

    /// Seeds the whole grid: resizes the buffer when the requested cell
    /// count differs from the current one (old contents discarded), then
    /// writes every cell according to `pattern` and records the new
    /// dimensions. Every size is accepted, including zero.
    pub fn fill(&mut self, pattern: UniversePattern, width: u32, height: u32)
        requires
            old(self).wf(),
            width * height <= u32::MAX,
        ensures
            final(self).wf(),
            final(self).spec_width() == width,
            final(self).spec_height() == height,
            final(self).grid().len() == width * height,
            forall|i: int|
                0 <= i < width * height ==> seeded(pattern, i, #[trigger] final(self).grid()[i]),
    {
        let size = (width * height) as usize;
        if size != (self.width * self.height) as usize {
            self.cells = bits_new(size);
        }
        for i in 0..size
            invariant
                bits_of(self.cells).len() == size,
                forall|j: int| 0 <= j < i ==> seeded(pattern, j, #[trigger] bits_of(self.cells)[j]),
        {
            let alive = match pattern {
                UniversePattern::Empty => false,
                UniversePattern::Random => random_bool(),
                UniversePattern::Pattern => i % 2 == 0 || i % 7 == 0,
            };
            bits_set(&mut self.cells, i, alive);
        }
        self.width = width;
        self.height = height;
    }

    /// Flips the single cell `(row, column)`: alive becomes dead and dead
    /// becomes alive. No other cell and neither dimension changes.
    pub fn toggle_cell(&mut self, row: u32, column: u32)
        requires
            old(self).wf(),
            row < old(self).spec_height(),
            column < old(self).spec_width(),
        ensures
            final(self).wf(),
            final(self).spec_width() == old(self).spec_width(),
            final(self).spec_height() == old(self).spec_height(),
            final(self).grid() == old(self).grid().update(
                rm_index(old(self).spec_width() as int, row as int, column as int),
                !old(self).grid()[rm_index(
                    old(self).spec_width() as int,
                    row as int,
                    column as int,
                )],
            ),
    {
        let index = self.get_index(row, column);
        let current = bits_blocks(&self.cells);
        let shift = (index - (index / 32) * 32) as u32;
        let live = (current[index / 32] >> shift) & 1 == 1;
        bits_set(&mut self.cells, index, !live);
    }
}

} // verus!
