//! Configuration that is fixed for the lifetime of a game.

use vstd::prelude::*;

verus! {

/// Side of one grid cell, in world units; also the distance of one step.
pub const CELL_SIZE: i64 = 20;

/// Width of the arena, in cells.
pub const BOX_WIDTH: u32 = 30;

/// Height of the arena, in cells.
pub const BOX_HEIGHT: u32 = 20;

/// Thickness of the arena's border, in world units.
pub const BORDER_WIDTH: i64 = 10;

/// Fixed steps per second.
pub const GAME_SPEED: u32 = 10;

} // verus!
