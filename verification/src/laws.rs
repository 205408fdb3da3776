//! What holds of the game whatever is played.

use crate::config::CELL_SIZE;
use crate::direction::Direction;
use crate::input::{chosen_key, emitted, intent, intent_of, ArrowKey};
use crate::snake::{SnakeDirectionChanged, SnakeState};
use vstd::prelude::*;

verus! {

/// One thing that happens to a snake: it reads the pending messages, or it
/// moves by one cell.
pub enum Event {
    Messages(Seq<SnakeDirectionChanged>),
    Step,
}

impl SnakeState {
    /// The snake after one event.
    pub open spec fn after_event(self, event: Event) -> SnakeState {
        match event {
            Event::Messages(messages) => self.after_messages(messages),
            Event::Step => self.moved(),
        }
    }

    /// The snake after the events of `trace`, in order.
    pub open spec fn after_trace(self, trace: Seq<Event>) -> SnakeState
        decreases trace.len(),
    {
        if trace.len() == 0 {
            self
        } else {
            self.after_trace(trace.drop_last()).after_event(trace.last())
        }
    }
}

/// A step keeps a snake on the grid.
pub proof fn lemma_step_stays_on_grid(snake: SnakeState)
    requires
        snake.on_grid(),
    ensures
        snake.moved().on_grid(),
{
    let d = CELL_SIZE as int;
    assert((snake.x + d) % d == 0 && (snake.x - d) % d == 0 && (snake.y + d) % d == 0 && (snake.y
        - d) % d == 0) by {
        vstd::arithmetic::div_mod::lemma_mod_add_multiples_vanish(snake.x, d);
        vstd::arithmetic::div_mod::lemma_mod_sub_multiples_vanish(snake.x, d);
        vstd::arithmetic::div_mod::lemma_mod_add_multiples_vanish(snake.y, d);
        vstd::arithmetic::div_mod::lemma_mod_sub_multiples_vanish(snake.y, d);
    }
}

/// A snake that starts on the grid is on the grid after every sequence of
/// events, and so at every point in between.
pub proof fn lemma_grid_alignment(snake: SnakeState, trace: Seq<Event>)
    requires
        snake.on_grid(),
    ensures
        snake.after_trace(trace).on_grid(),
    decreases trace.len(),
{
    if trace.len() > 0 {
        lemma_grid_alignment(snake, trace.drop_last());
        lemma_step_stays_on_grid(snake.after_trace(trace.drop_last()));
    }
}

/// A new snake is on the grid, and stays there.
pub proof fn lemma_new_snake_stays_on_grid(trace: Seq<Event>)
    ensures
        SnakeState::start().on_grid(),
        SnakeState::start().after_trace(trace).on_grid(),
{
    lemma_grid_alignment(SnakeState::start(), trace);
}

/// One step changes exactly one coordinate, by the cell size up or down, and
/// leaves the heading alone.
pub proof fn lemma_single_axis_per_step(snake: SnakeState)
    ensures
        snake.moved().exactly_one_cell_from(snake),
        (snake.moved().x != snake.x) != (snake.moved().y != snake.y),
        snake.moved().heading == snake.heading,
{
}

/// Which coordinate a step changes: up adds the cell size to y, down takes
/// it from y, left takes it from x, right adds it to x.
pub proof fn lemma_step_by_heading(snake: SnakeState)
    ensures
        snake.heading == Direction::Up ==> snake.moved() == (SnakeState {
            y: snake.y + CELL_SIZE,
            ..snake
        }),
        snake.heading == Direction::Down ==> snake.moved() == (SnakeState {
            y: snake.y - CELL_SIZE,
            ..snake
        }),
        snake.heading == Direction::Left ==> snake.moved() == (SnakeState {
            x: snake.x - CELL_SIZE,
            ..snake
        }),
        snake.heading == Direction::Right ==> snake.moved() == (SnakeState {
            x: snake.x + CELL_SIZE,
            ..snake
        }),
{
}

/// Moving by `steps + 1` cells is moving by `steps` cells and then one step.
pub proof fn lemma_moved_by_next(snake: SnakeState, steps: nat)
    ensures
        snake.moved_by(steps + 1) == snake.moved_by(steps).moved(),
        snake.moved_by(0) == snake,
{
    let c = CELL_SIZE as int;
    let dx = snake.heading.dx();
    let dy = snake.heading.dy();
    assert((steps + 1) * c * dx == steps * c * dx + 1 * c * dx) by (nonlinear_arith);
    assert((steps + 1) * c * dy == steps * c * dy + 1 * c * dy) by (nonlinear_arith);
    assert(0 * c * dx == 0 && 0 * c * dy == 0) by (nonlinear_arith);
}

/// A snake that heads right from the origin and reads no message is, after
/// `steps` steps, `steps` cells to the right of the origin.
pub proof fn lemma_continuous_motion(steps: nat)
    ensures
        (SnakeState { x: 0, y: 0, heading: Direction::Right }).moved_by(steps) == (SnakeState {
            x: steps * CELL_SIZE,
            y: 0,
            heading: Direction::Right,
        }),
{
    let c = CELL_SIZE as int;
    assert(steps * c * 1 == steps * c) by (nonlinear_arith);
    assert(steps * c * 0 == 0) by (nonlinear_arith);
}

/// After a snake has read one message or more, it heads where the last one
/// says, whatever its heading was, and it has not moved.
pub proof fn lemma_last_message_wins(snake: SnakeState, messages: Seq<SnakeDirectionChanged>)
    requires
        messages.len() > 0,
    ensures
        snake.after_messages(messages).heading == messages.last().direction,
        snake.after_messages(messages).x == snake.x,
        snake.after_messages(messages).y == snake.y,
{
}

/// Reading the messages one by one, oldest first, ends where the last one
/// says: a further message overrides all that came before it.
pub proof fn lemma_messages_one_by_one(
    snake: SnakeState,
    messages: Seq<SnakeDirectionChanged>,
    next: SnakeDirectionChanged,
)
    ensures
        snake.after_messages(messages.push(next)) == snake.after_messages(messages).heading_to(
            next.direction,
        ),
{
}

/// Without a message a snake keeps its heading and its place.
pub proof fn lemma_no_message_no_change(snake: SnakeState)
    ensures
        snake.after_messages(Seq::empty()) == snake,
{
}

/// When the up key was pressed, the frame's message says up, whichever other
/// arrow keys were pressed with it; down wins over left and right, and left
/// over right.
pub proof fn lemma_input_priority(up: bool, down: bool, left: bool, right: bool)
    ensures
        up ==> intent(up, down, left, right) == Some(
            SnakeDirectionChanged { direction: Direction::Up },
        ),
        !up && down ==> intent(up, down, left, right) == Some(
            SnakeDirectionChanged { direction: Direction::Down },
        ),
        !up && !down && left ==> intent(up, down, left, right) == Some(
            SnakeDirectionChanged { direction: Direction::Left },
        ),
        !up && !down && !left && right ==> intent(up, down, left, right) == Some(
            SnakeDirectionChanged { direction: Direction::Right },
        ),
        !up && !down && !left && !right ==> intent(up, down, left, right).is_none(),
{
}

/// A frame sends at most one message, and only for an arrow key that was
/// pressed in it: the message names that key's direction. It sends none only
/// when no arrow key was pressed.
pub proof fn lemma_at_most_one_message(keys: Set<ArrowKey>)
    ensures
        emitted(intent_of(keys)).len() <= 1,
        emitted(intent_of(keys)).len() == 0 <==> forall|key: ArrowKey| !keys.contains(key),
        forall|message: SnakeDirectionChanged|
            emitted(intent_of(keys)).contains(message) ==> exists|key: ArrowKey|
                keys.contains(key) && #[trigger] key.direction() == message.direction,
{
    let chosen = chosen_key(
        keys.contains(ArrowKey::Up),
        keys.contains(ArrowKey::Down),
        keys.contains(ArrowKey::Left),
        keys.contains(ArrowKey::Right),
    );
    assert forall|message: SnakeDirectionChanged|
        emitted(intent_of(keys)).contains(message) implies exists|key: ArrowKey|
        keys.contains(key) && #[trigger] key.direction() == message.direction by {
        let key = chosen.unwrap();
        assert(emitted(intent_of(keys))[0] == message);
        assert(keys.contains(key) && key.direction() == message.direction);
    }
    if emitted(intent_of(keys)).len() == 0 {
        assert forall|key: ArrowKey| !keys.contains(key) by {
            match key {
                ArrowKey::Up => {},
                ArrowKey::Down => {},
                ArrowKey::Left => {},
                ArrowKey::Right => {},
            }
        }
    }
}

} // verus!
