//! A terminal snake game: a fixed 30 x 30 grid, a player-steered snake that
//! grows by eating timed consumable apples, and a frame differ that reports
//! only the cells that changed between two rendered frames.
//!
//! The top row of the grid is reserved for the score bar; the playing field
//! is every column and the rows below the first.

use vstd::prelude::*;

pub mod apple;
pub mod frame;
pub mod menu;
pub mod render;
pub mod snake;
pub mod text;
pub mod timer;
pub mod topbar;

verus! {

/// Height of the grid in cells (number of rows).
pub const NUM_ROWS: usize = 30;

/// Width of the grid in cells (number of columns).
pub const NUM_COLS: usize = 30;

/// A cell coordinate on the grid: `x` counts columns from the left,
/// `y` counts rows from the top.
#[derive(Clone, Copy, PartialEq, Eq, Structural, Debug)]
pub struct Point {
    pub x: usize,
    pub y: usize,
}

/// The playable cells of the grid: every column, and every row below the
/// top row, which is reserved for the score bar.
pub open spec fn in_field(p: Point) -> bool {
    p.x < NUM_COLS && 1 <= p.y < NUM_ROWS
}

impl Point {
    /// Packs a coordinate pair into a `Point`.
    pub fn new(x: usize, y: usize) -> (p: Point)
        ensures
            p.x == x,
            p.y == y,
    {
        Point { x, y }
    }
}

} // verus!
