use vstd::prelude::*;

pub mod direction;
pub mod grid_cell;
pub mod snake;
pub mod world;

verus! {

/// Number of cells along the horizontal axis of the grid.
pub const GRID_WIDTH: i32 = 30;

/// Number of cells along the vertical axis of the grid.
pub const GRID_HEIGHT: i32 = 20;

} // verus!
