//! Positions on the grid.

use crate::config::CELL_SIZE;
use vstd::prelude::*;

verus! {

/// A point of the plane, in world units.
#[derive(Clone, Copy, Debug, PartialEq, Eq, Structural)]
pub struct Position {
    pub x: i64,
    pub y: i64,
}

impl Position {
    /// Both coordinates are whole multiples of the cell size.
    pub open spec fn on_grid(self) -> bool {
        self.x as int % CELL_SIZE as int == 0 && self.y as int % CELL_SIZE as int == 0
    }

    /// The origin, where a snake starts.
    pub fn origin() -> (position: Position)
        ensures
            position == (Position { x: 0, y: 0 }),
            position.on_grid(),
    {
        Position { x: 0, y: 0 }
    }

    /// Whether both coordinates are whole multiples of the cell size.
    pub fn is_on_grid(&self) -> (aligned: bool)
        ensures
            aligned == self.on_grid(),
    {
        self.x % CELL_SIZE == 0 && self.y % CELL_SIZE == 0
    }
}

} // verus!
