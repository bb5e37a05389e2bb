//! A toroidal Game of Life engine over a bit-packed grid.
//!
//! The [`universe::Universe`] owns the grid dimensions and a dense bit set
//! with one bit per cell, row-major. It can be seeded from a small set of
//! named patterns, advanced one generation at a time under the standard
//! B3/S23 rule with wraparound neighbor counting, and mutated one cell at
//! a time. The packed word buffer is exposed read-only for rendering.

pub mod life;
pub mod universe;

mod bitset;
mod entropy;

pub use universe::Universe;
pub use universe::UniversePattern;
