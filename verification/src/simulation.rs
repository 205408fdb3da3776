//! A whole game: its snakes and the queue of direction messages, with the
//! order in which a pass reads the keys, turns the snakes and moves them.

use crate::config::CELL_SIZE;
use crate::input::{
    emitted,
    intent_of,
    just_pressed_arrows,
    listen_for_direction_input,
    ArrowKey,
};
use crate::laws::lemma_moved_by_next;
use crate::snake::{Snake, SnakeDirection, SnakeDirectionChanged, SnakeState};
use crate::systems::{
    all_after_messages,
    all_can_move_by,
    all_moved_by,
    all_on_grid,
    process_snake_movement,
    spawn_snake,
    states,
    update_snake_direction,
};
use bevy::input::keyboard::KeyCode;
use bevy::input::ButtonInput;
use vstd::prelude::*;

verus! {

/// The snakes of a game and the messages that no snake has read yet, oldest
/// first.
pub struct Simulation {
    pub snakes: Vec<Snake>,
    pub snake_direction_events: Vec<SnakeDirectionChanged>,
}

/// A game as contracts see it.
pub struct SimulationState {
    pub snakes: Seq<SnakeState>,
    pub pending: Seq<SnakeDirectionChanged>,
}

impl SimulationState {
    /// A game at its start: one new snake and no message.
    pub open spec fn start() -> SimulationState {
        SimulationState { snakes: seq![SnakeState::start()], pending: Seq::empty() }
    }

    /// The game after a frame in which exactly `keys` were pressed: the
    /// frame's message, if it has one, joins the queue.
    pub open spec fn polled(self, keys: Set<ArrowKey>) -> SimulationState {
        SimulationState { pending: self.pending + emitted(intent_of(keys)), ..self }
    }

    /// The game after every snake has read the pending messages.
    pub open spec fn drained(self) -> SimulationState {
        SimulationState {
            snakes: all_after_messages(self.snakes, self.pending),
            pending: Seq::empty(),
        }
    }

    /// The game after every snake has moved by `steps` cells.
    pub open spec fn stepped(self, steps: nat) -> SimulationState {
        SimulationState { snakes: all_moved_by(self.snakes, steps), ..self }
    }

    /// Every snake is on the grid.
    pub open spec fn on_grid(self) -> bool {
        all_on_grid(self.snakes)
    }
}

impl View for Simulation {
    type V = SimulationState;

    open spec fn view(&self) -> SimulationState {
        SimulationState { snakes: states(self.snakes@), pending: self.snake_direction_events@ }
    }
}

impl Simulation {
    /// A game at its start: one snake at the origin that heads left, and no
    /// message.
    pub fn new() -> (simulation: Simulation)
        ensures
            simulation@ == SimulationState::start(),
            simulation@.on_grid(),
    {
        let mut snakes: Vec<Snake> = Vec::new();
        spawn_snake(&mut snakes);
        let simulation = Simulation { snakes, snake_direction_events: Vec::new() };
        assert(simulation@.snakes =~= seq![SnakeState::start()]);
        assert(simulation@.pending =~= Seq::empty());
        simulation
    }

    /// One frame of input: the message for the arrow keys pressed in this
    /// frame joins the queue. No snake changes.
    pub fn poll_input(&mut self, keyboard_input: &ButtonInput<KeyCode>)
        ensures
            final(self)@ == old(self)@.polled(just_pressed_arrows(*keyboard_input)),
            final(self).snakes == old(self).snakes,
            old(self)@.on_grid() ==> final(self)@.on_grid(),
    {
        listen_for_direction_input(keyboard_input, &mut self.snake_direction_events);
    }

    /// Every snake reads the pending messages; the queue is left empty.
    pub fn drain_signals(&mut self)
        ensures
            final(self)@ == old(self)@.drained(),
            old(self)@.pending.len() == 0 ==> final(self).snakes@ == old(self).snakes@,
            old(self)@.on_grid() ==> final(self)@.on_grid(),
    {
        update_snake_direction(&mut self.snake_direction_events, &mut self.snakes);
    }

    /// Every snake moves by one cell; the queue is left as it is.
    pub fn step_movement(&mut self)
        requires
            all_can_move_by(old(self)@.snakes, 1),
        ensures
            final(self)@ == old(self)@.stepped(1),
            old(self)@.on_grid() ==> final(self)@.on_grid(),
    {
        process_snake_movement(&mut self.snakes);
    }

    /// Whether every snake, once it has read the pending messages, can go
    /// `steps` cells within the machine's integers.
    pub fn can_advance(&self, steps: u32) -> (fits: bool)
        ensures
            fits == all_can_move_by(self@.drained().snakes, steps as nat),
    {
        let n = self.snake_direction_events.len();
        let mut i: usize = 0;
        while i < self.snakes.len()
            invariant
                i <= self.snakes.len(),
                n == self.snake_direction_events.len(),
                forall|k: int|
                    0 <= k < i ==> (#[trigger] self@.drained().snakes[k]).moved_by(
                        steps as nat,
                    ).representable(),
            decreases self.snakes.len() - i,
        {
            let mut snake = self.snakes[i];
            if n > 0 {
                snake.direction = SnakeDirection(self.snake_direction_events[n - 1].direction);
            }
            assert(snake@ == self@.drained().snakes[i as int]);
            if !snake.can_move_by(steps) {
                return false;
            }
            i += 1;
        }
        true
    }

    /// One fixed pass: every snake first reads the pending messages, then
    /// moves `steps` times by one cell, one step after the other.
    pub fn fixed_update(&mut self, steps: u32)
        requires
            all_can_move_by(old(self)@.drained().snakes, steps as nat),
        ensures
            final(self)@ == old(self)@.drained().stepped(steps as nat),
            old(self)@.on_grid() ==> final(self)@.on_grid(),
    {
        self.drain_signals();
        let ghost drained = self@;
        let mut done: u32 = 0;
        assert(self@.snakes =~= all_moved_by(drained.snakes, 0)) by {
            assert forall|i: int| 0 <= i < drained.snakes.len() implies drained.snakes[i].moved_by(
                0,
            ) == drained.snakes[i] by {
                lemma_moved_by_next(drained.snakes[i], 0);
            }
        }
        while done < steps
            invariant
                done <= steps,
                drained == old(self)@.drained(),
                all_can_move_by(drained.snakes, steps as nat),
                self@ == drained.stepped(done as nat),
                old(self)@.on_grid() ==> self@.on_grid(),
            decreases steps - done,
        {
            assert(all_can_move_by(self@.snakes, 1)) by {
                assert forall|i: int| 0 <= i < self@.snakes.len() implies (#[trigger] self@.snakes[i])
                    .moved_by(1).representable() by {
                    let snake = drained.snakes[i];
                    assert(self.snakes@[i]@ == snake.moved_by(done as nat));
                    lemma_moved_by_next(snake, done as nat);
                    lemma_moved_by_rest(snake, done as nat, steps as nat);
                }
            }
            self.step_movement();
            done += 1;
            assert(self@.snakes =~= all_moved_by(drained.snakes, done as nat)) by {
                assert forall|i: int| 0 <= i < drained.snakes.len() implies self@.snakes[i]
                    == drained.snakes[i].moved_by(done as nat) by {
                    lemma_moved_by_next(drained.snakes[i], (done - 1) as nat);
                }
            }
        }
    }
}

/// A snake that has gone `done` of `steps` cells, and can go them all, can go
/// one more.
proof fn lemma_moved_by_rest(snake: SnakeState, done: nat, steps: nat)
    requires
        done < steps,
        snake.moved_by(done).representable(),
        snake.moved_by(steps).representable(),
    ensures
        snake.moved_by(done + 1).representable(),
{
    let c = CELL_SIZE as int;
    let dx = snake.heading.dx();
    let dy = snake.heading.dy();
    assert(dx >= 0 ==> done * c * dx <= (done + 1) * c * dx <= steps * c * dx) by (nonlinear_arith)
        requires
            done < steps,
            c == 20,
    ;
    assert(dx <= 0 ==> done * c * dx >= (done + 1) * c * dx >= steps * c * dx) by (nonlinear_arith)
        requires
            done < steps,
            c == 20,
    ;
    assert(dy >= 0 ==> done * c * dy <= (done + 1) * c * dy <= steps * c * dy) by (nonlinear_arith)
        requires
            done < steps,
            c == 20,
    ;
    assert(dy <= 0 ==> done * c * dy >= (done + 1) * c * dy >= steps * c * dy) by (nonlinear_arith)
        requires
            done < steps,
            c == 20,
    ;
}

} // verus!
