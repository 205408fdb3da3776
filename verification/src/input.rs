//! Reading the arrow keys: at most one direction message per frame.

use crate::direction::Direction;
use crate::snake::SnakeDirectionChanged;
use bevy::input::keyboard::KeyCode;
use bevy::input::ButtonInput;
use std::hash::Hash;
use vstd::prelude::*;

verus! {

/// bevy's `ButtonInput`: which buttons are held, and which were pressed or
/// released during the current frame. Nothing inside it is visible here.
#[verifier::external_type_specification]
#[verifier::external_body]
#[verifier::reject_recursive_types(T)]
pub struct ExButtonInput<T: Clone + Eq + Hash + Send + Sync + 'static>(ButtonInput<T>);

/// bevy's `KeyCode`: the code of a key of the keyboard. Nothing inside it is
/// visible here.
#[verifier::external_type_specification]
#[verifier::external_body]
pub struct ExKeyCode(KeyCode);

/// The keys that steer the snake.
#[derive(Clone, Copy, Debug, PartialEq, Eq, Structural)]
pub enum ArrowKey {
    Up,
    Down,
    Left,
    Right,
}

impl ArrowKey {
    /// The direction that the key asks for.
    pub open spec fn direction(self) -> Direction {
        match self {
            ArrowKey::Up => Direction::Up,
            ArrowKey::Down => Direction::Down,
            ArrowKey::Left => Direction::Left,
            ArrowKey::Right => Direction::Right,
        }
    }
}

/// The arrow keys that `keyboard_input` holds as pressed during the current
/// frame.
pub uninterp spec fn just_pressed_arrows(keyboard_input: ButtonInput<KeyCode>) -> Set<ArrowKey>;

/// `ButtonInput::just_pressed` on the key code of an arrow key: whether that
/// key is among the just-pressed keys of `keyboard_input`. Nothing is proved
/// of it; the key codes are `ArrowUp`, `ArrowDown`, `ArrowLeft`, `ArrowRight`.
#[verifier::external_body]
fn arrow_just_pressed(keyboard_input: &ButtonInput<KeyCode>, key: ArrowKey) -> (pressed: bool)
    ensures
        pressed == just_pressed_arrows(*keyboard_input).contains(key),
{
    keyboard_input.just_pressed(
        match key {
            ArrowKey::Up => KeyCode::ArrowUp,
            ArrowKey::Down => KeyCode::ArrowDown,
            ArrowKey::Left => KeyCode::ArrowLeft,
            ArrowKey::Right => KeyCode::ArrowRight,
        },
    )
}

/// The key that is answered when the keys marked `true` were pressed in one
/// frame: the first pressed one in the order up, down, left, right.
pub open spec fn chosen_key(up: bool, down: bool, left: bool, right: bool) -> Option<ArrowKey> {
    if up {
        Some(ArrowKey::Up)
    } else if down {
        Some(ArrowKey::Down)
    } else if left {
        Some(ArrowKey::Left)
    } else if right {
        Some(ArrowKey::Right)
    } else {
        None
    }
}

/// The message of a frame in which the keys marked `true` were pressed.
pub open spec fn intent(up: bool, down: bool, left: bool, right: bool) -> Option<
    SnakeDirectionChanged,
> {
    match chosen_key(up, down, left, right) {
        Some(key) => Some(SnakeDirectionChanged { direction: key.direction() }),
        None => None,
    }
}

/// The message of a frame in which exactly `keys` were pressed.
pub open spec fn intent_of(keys: Set<ArrowKey>) -> Option<SnakeDirectionChanged> {
    intent(
        keys.contains(ArrowKey::Up),
        keys.contains(ArrowKey::Down),
        keys.contains(ArrowKey::Left),
        keys.contains(ArrowKey::Right),
    )
}

/// What a frame appends to the queue of messages: its message, or nothing.
pub open spec fn emitted(message: Option<SnakeDirectionChanged>) -> Seq<SnakeDirectionChanged> {
    match message {
        Some(m) => seq![m],
        None => Seq::empty(),
    }
}

/// Decides the message of one frame from which arrow keys were pressed in it.
/// Up wins over down, down over left, left over right; without a pressed key
/// there is no message.
pub fn direction_intent(up: bool, down: bool, left: bool, right: bool) -> (message: Option<
    SnakeDirectionChanged,
>)
    ensures
        message == intent(up, down, left, right),
{
    if up {
        Some(SnakeDirectionChanged { direction: Direction::Up })
    } else if down {
        Some(SnakeDirectionChanged { direction: Direction::Down })
    } else if left {
        Some(SnakeDirectionChanged { direction: Direction::Left })
    } else if right {
        Some(SnakeDirectionChanged { direction: Direction::Right })
    } else {
        None
    }
}

/// Sends a message to change the snake's direction based on the arrow keys
/// pressed in this frame: the message is appended to `snake_direction_events`,
/// and nothing is appended when no arrow key was pressed.
pub fn listen_for_direction_input(
    keyboard_input: &ButtonInput<KeyCode>,
    snake_direction_events: &mut Vec<SnakeDirectionChanged>,
)
    ensures
        final(snake_direction_events)@ == old(snake_direction_events)@ + emitted(
            intent_of(just_pressed_arrows(*keyboard_input)),
        ),
{
    let up = arrow_just_pressed(keyboard_input, ArrowKey::Up);
    let down = arrow_just_pressed(keyboard_input, ArrowKey::Down);
    let left = arrow_just_pressed(keyboard_input, ArrowKey::Left);
    let right = arrow_just_pressed(keyboard_input, ArrowKey::Right);
    match direction_intent(up, down, left, right) {
        Some(message) => {
            snake_direction_events.push(message);
        },
        None => {
            assert(snake_direction_events@ =~= old(snake_direction_events)@ + Seq::empty());
        },
    }
}

} // verus!
