//! The steps of the game, each over all snakes: spawning, turning to the
//! latest message, and moving by one cell.

use crate::snake::{Snake, SnakeDirection, SnakeDirectionChanged, SnakeState};
use vstd::prelude::*;

verus! {

/// The states of `snakes`, in order.
pub open spec fn states(snakes: Seq<Snake>) -> Seq<SnakeState> {
    Seq::new(snakes.len(), |i: int| snakes[i]@)
}

/// Every snake, after it has read `messages` in order.
pub open spec fn all_after_messages(
    snakes: Seq<SnakeState>,
    messages: Seq<SnakeDirectionChanged>,
) -> Seq<SnakeState> {
    Seq::new(snakes.len(), |i: int| snakes[i].after_messages(messages))
}

/// Every snake, `steps` cells further along its heading.
pub open spec fn all_moved_by(snakes: Seq<SnakeState>, steps: nat) -> Seq<SnakeState> {
    Seq::new(snakes.len(), |i: int| snakes[i].moved_by(steps))
}

/// Every snake is on the grid.
pub open spec fn all_on_grid(snakes: Seq<SnakeState>) -> bool {
    forall|i: int| 0 <= i < snakes.len() ==> (#[trigger] snakes[i]).on_grid()
}

/// Every snake can go `steps` cells further within the machine's integers.
pub open spec fn all_can_move_by(snakes: Seq<SnakeState>, steps: nat) -> bool {
    forall|i: int| 0 <= i < snakes.len() ==> (#[trigger] snakes[i]).moved_by(steps).representable()
}

/// Adds a new snake: at the origin, heading left.
pub fn spawn_snake(snakes: &mut Vec<Snake>)
    ensures
        states(final(snakes)@) == states(old(snakes)@).push(SnakeState::start()),
{
    snakes.push(Snake::new());
    assert(states(snakes@) =~= states(old(snakes)@).push(SnakeState::start()));
}

/// Reads every pending message, oldest first, and sets the heading of every
/// snake to each in turn, so that the last message decides. The queue is left
/// empty; without a message no snake changes.
pub fn update_snake_direction(
    snake_direction_events: &mut Vec<SnakeDirectionChanged>,
    snake_query: &mut Vec<Snake>,
)
    ensures
        final(snake_direction_events)@ == Seq::<SnakeDirectionChanged>::empty(),
        states(final(snake_query)@) == all_after_messages(
            states(old(snake_query)@),
            old(snake_direction_events)@,
        ),
        old(snake_direction_events)@.len() == 0 ==> final(snake_query)@ == old(snake_query)@,
        all_on_grid(states(old(snake_query)@)) ==> all_on_grid(states(final(snake_query)@)),
{
    let ghost before = snake_query@;
    let mut m: usize = 0;
    while m < snake_direction_events.len()
        invariant
            m <= snake_direction_events.len(),
            snake_direction_events@ == old(snake_direction_events)@,
            snake_query@.len() == before.len(),
            m == 0 ==> snake_query@ == before,
            forall|i: int|
                0 <= i < before.len() ==> (#[trigger] snake_query@[i])@ == before[i]@.after_messages(
                    snake_direction_events@.take(m as int),
                ),
        decreases snake_direction_events.len() - m,
    {
        let msg = snake_direction_events[m];
        let mut s: usize = 0;
        while s < snake_query.len()
            invariant
                m < snake_direction_events.len(),
                msg == snake_direction_events@[m as int],
                s <= snake_query.len(),
                snake_query@.len() == before.len(),
                forall|i: int|
                    0 <= i < s ==> (#[trigger] snake_query@[i])@ == before[i]@.heading_to(
                        msg.direction,
                    ),
                forall|i: int|
                    s <= i < before.len() ==> (#[trigger] snake_query@[i])@
                        == before[i]@.after_messages(snake_direction_events@.take(m as int)),
            decreases snake_query.len() - s,
        {
            let mut snake = snake_query[s];
            snake.direction = SnakeDirection(msg.direction);
            snake_query.set(s, snake);
            s += 1;
        }
        m += 1;
        assert(snake_direction_events@.take(m as int).last() == msg);
    }
    assert(snake_direction_events@.take(m as int) =~= snake_direction_events@);
    snake_direction_events.clear();
    assert(states(snake_query@) =~= all_after_messages(
        states(before),
        old(snake_direction_events)@,
    ));
}

/// Moves every snake by one cell along its heading.
pub fn process_snake_movement(snake_query: &mut Vec<Snake>)
    requires
        all_can_move_by(states(old(snake_query)@), 1),
    ensures
        states(final(snake_query)@) == all_moved_by(states(old(snake_query)@), 1),
        all_on_grid(states(old(snake_query)@)) ==> all_on_grid(states(final(snake_query)@)),
{
    let ghost before = snake_query@;
    let mut s: usize = 0;
    while s < snake_query.len()
        invariant
            s <= snake_query.len(),
            snake_query@.len() == before.len(),
            forall|i: int| 0 <= i < s ==> (#[trigger] snake_query@[i])@ == before[i]@.moved(),
            forall|i: int| s <= i < before.len() ==> #[trigger] snake_query@[i] == before[i],
            all_can_move_by(states(before), 1),
            forall|i: int|
                0 <= i < s ==> (before[i]@.on_grid() ==> (#[trigger] snake_query@[i])@.on_grid()),
        decreases snake_query.len() - s,
    {
        let mut snake = snake_query[s];
        assert(states(before)[s as int].moved_by(1).representable());
        snake.step();
        snake_query.set(s, snake);
        s += 1;
    }
    assert(states(snake_query@) =~= all_moved_by(states(before), 1));
    assert(all_on_grid(states(before)) ==> all_on_grid(states(snake_query@))) by {
        if all_on_grid(states(before)) {
            assert forall|i: int| 0 <= i < snake_query@.len() implies (#[trigger] states(
                snake_query@,
            )[i]).on_grid() by {
                assert(states(before)[i].on_grid());
                assert(snake_query@[i]@.on_grid());
            }
        }
    }
}

} // verus!
