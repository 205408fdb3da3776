//! The snake: where its head is and which way it is heading.

use crate::config::CELL_SIZE;
use crate::direction::Direction;
use crate::position::Position;
use vstd::prelude::*;

verus! {

/// A message that asks every snake to head in `direction`.
#[derive(Clone, Copy, Debug, PartialEq, Eq, Structural)]
pub struct SnakeDirectionChanged {
    /// The new direction
    pub direction: Direction,
}

/// The heading of a snake.
#[derive(Clone, Copy, Debug, PartialEq, Eq, Structural)]
pub struct SnakeDirection(pub Direction);

/// A snake's head.
#[derive(Clone, Copy, Debug, PartialEq, Eq, Structural)]
pub struct Snake {
    pub position: Position,
    pub direction: SnakeDirection,
}

/// A snake as contracts see it: unbounded coordinates and a heading.
pub struct SnakeState {
    pub x: int,
    pub y: int,
    pub heading: Direction,
}

impl SnakeState {
    /// A new snake: at the origin, heading left.
    pub open spec fn start() -> SnakeState {
        SnakeState { x: 0, y: 0, heading: Direction::Left }
    }

    /// Both coordinates are whole multiples of the cell size.
    pub open spec fn on_grid(self) -> bool {
        self.x % CELL_SIZE as int == 0 && self.y % CELL_SIZE as int == 0
    }

    /// Both coordinates fit the machine integers that hold a position.
    pub open spec fn representable(self) -> bool {
        i64::MIN <= self.x <= i64::MAX && i64::MIN <= self.y <= i64::MAX
    }

    /// The snake with its heading replaced.
    pub open spec fn heading_to(self, direction: Direction) -> SnakeState {
        SnakeState { heading: direction, ..self }
    }

    /// The snake after it has read `messages` in order: the last one, if there
    /// is any, sets the heading.
    pub open spec fn after_messages(self, messages: Seq<SnakeDirectionChanged>) -> SnakeState {
        if messages.len() == 0 {
            self
        } else {
            self.heading_to(messages.last().direction)
        }
    }

    /// The snake `steps` cells further along its heading.
    pub open spec fn moved_by(self, steps: nat) -> SnakeState {
        SnakeState {
            x: self.x + steps * CELL_SIZE * self.heading.dx(),
            y: self.y + steps * CELL_SIZE * self.heading.dy(),
            heading: self.heading,
        }
    }

    /// The snake one cell further along its heading.
    pub open spec fn moved(self) -> SnakeState {
        self.moved_by(1)
    }

    /// Exactly one coordinate differs from that of `before`, and it differs by
    /// the cell size.
    pub open spec fn exactly_one_cell_from(self, before: SnakeState) -> bool {
        ||| {
            &&& self.y == before.y
            &&& (self.x == before.x + CELL_SIZE || self.x == before.x - CELL_SIZE)
        }
        ||| {
            &&& self.x == before.x
            &&& (self.y == before.y + CELL_SIZE || self.y == before.y - CELL_SIZE)
        }
    }
}

impl View for Snake {
    type V = SnakeState;

    open spec fn view(&self) -> SnakeState {
        SnakeState { x: self.position.x as int, y: self.position.y as int, heading: self.direction.0 }
    }
}

impl Snake {
    /// A new snake: at the origin, heading left.
    pub fn new() -> (snake: Snake)
        ensures
            snake@ == SnakeState::start(),
            snake@.on_grid(),
    {
        Snake { position: Position::origin(), direction: SnakeDirection(Direction::Left) }
    }

    /// Whether one more step keeps the position within the machine's integers.
    pub fn can_move(&self) -> (fits: bool)
        ensures
            fits == self@.moved().representable(),
    {
        match self.direction.0 {
            Direction::Up => self.position.y <= i64::MAX - CELL_SIZE,
            Direction::Down => self.position.y >= i64::MIN + CELL_SIZE,
            Direction::Left => self.position.x >= i64::MIN + CELL_SIZE,
            Direction::Right => self.position.x <= i64::MAX - CELL_SIZE,
        }
    }

    /// Whether `steps` more steps keep the position within the machine's
    /// integers.
    pub fn can_move_by(&self, steps: u32) -> (fits: bool)
        ensures
            fits == self@.moved_by(steps as nat).representable(),
    {
        let distance: i64 = steps as i64 * CELL_SIZE;
        assert(distance == steps as nat * CELL_SIZE);
        assert(steps as nat * CELL_SIZE * 1 == distance && steps as nat * CELL_SIZE * 0 == 0
            && steps as nat * CELL_SIZE * -1 == -distance) by (nonlinear_arith)
            requires
                distance == steps as nat * CELL_SIZE,
        ;
        match self.direction.0 {
            Direction::Up => self.position.y <= i64::MAX - distance,
            Direction::Down => self.position.y >= i64::MIN + distance,
            Direction::Left => self.position.x >= i64::MIN + distance,
            Direction::Right => self.position.x <= i64::MAX - distance,
        }
    }

    /// Moves the head by one cell along its heading. One coordinate changes,
    /// by the cell size; the other and the heading stay.
    pub fn step(&mut self)
        requires
            old(self)@.moved().representable(),
        ensures
            final(self)@ == old(self)@.moved(),
            old(self)@.on_grid() ==> final(self)@.on_grid(),
            final(self)@.exactly_one_cell_from(old(self)@),
    {
        match self.direction.0 {
            Direction::Up => self.position.y += CELL_SIZE,
            Direction::Down => self.position.y -= CELL_SIZE,
            Direction::Left => self.position.x -= CELL_SIZE,
            Direction::Right => self.position.x += CELL_SIZE,
        }
    }
}

} // verus!
