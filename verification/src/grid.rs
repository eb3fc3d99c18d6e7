//! The playing field: integer cell coordinates on a fixed 35 x 20 grid,
//! bounds checking, and the pixel geometry of a cell.

use vstd::prelude::*;

verus! {

/// Largest legal x coordinate of a grid cell.
pub const GRID_MAX_X: i32 = 34;

/// Largest legal y coordinate of a grid cell.
pub const GRID_MAX_Y: i32 = 19;

/// Side length of one grid cell in pixels.
pub const CELL_SIZE: i32 = 20;

/// A grid cell, addressed by its column `x` and row `y`.
#[derive(Clone, Copy, PartialEq, Eq, Structural, Debug)]
pub struct Position {
    pub x: i32,
    pub y: i32,
}

/// A position lies on the grid when both coordinates are within
/// `[0, GRID_MAX_X] x [0, GRID_MAX_Y]`.
pub open spec fn in_bounds(p: Position) -> bool {
    0 <= p.x <= GRID_MAX_X && 0 <= p.y <= GRID_MAX_Y
}

impl Position {
    /// Whether this position lies on the grid.
    pub fn is_in_bounds(&self) -> (r: bool)
        ensures
            r == in_bounds(*self),
    {
        0 <= self.x && self.x <= GRID_MAX_X && 0 <= self.y && self.y <= GRID_MAX_Y
    }

    /// The pixel coordinates of this cell's top-left corner, for a renderer
    /// that draws each cell as a `CELL_SIZE`-sided square.
    pub fn pixel_origin(&self) -> (r: (i32, i32))
        requires
            in_bounds(*self),
        ensures
            r.0 == self.x * CELL_SIZE,
            r.1 == self.y * CELL_SIZE,
    {
        (self.x * CELL_SIZE, self.y * CELL_SIZE)
    }
}

} // verus!
