//! The keyboard as the game reads it: which steering keys are held, and the
//! heading they ask for.

use vstd::prelude::*;
use bevy::input::keyboard::KeyCode;
use bevy::input::ButtonInput;
use crate::direction::Direction;

verus! {

/// `bevy::input::ButtonInput`, the engine's record of which buttons are
/// held. Nothing inside it is visible here; it is read through `any_pressed`.
#[verifier::external_type_specification]
#[verifier::external_body]
#[verifier::reject_recursive_types(T)]
pub struct ExButtonInput<T: Copy + Eq + core::hash::Hash + Send + Sync + 'static>(ButtonInput<T>);

/// `bevy::input::keyboard::KeyCode`, the engine's key identifiers. Nothing
/// inside one is visible here.
#[verifier::external_type_specification]
#[verifier::external_body]
pub struct ExKeyCode(KeyCode);

/// The eight keys that steer the snake.
#[derive(Clone, Copy, Debug, PartialEq, Eq, Structural)]
pub enum SteeringKey {
    KeyD,
    ArrowRight,
    KeyA,
    ArrowLeft,
    KeyW,
    ArrowUp,
    KeyS,
    ArrowDown,
}

/// The steering keys that a keyboard state holds as pressed. It stands for
/// what the engine's record contains and is known only through `any_pressed`.
pub uninterp spec fn held_keys(keyboard_input: &ButtonInput<KeyCode>) -> Set<SteeringKey>;

/// Calls `ButtonInput::any_pressed` with the key codes of the same names as
/// `first` and `second`.
///
/// Not proved: that the answer tells whether `held_keys` has one of the two.
/// The method asks, for each key code given, whether the record's set of
/// pressed keys contains it, and answers whether any does. It changes
/// nothing and cannot fail, so the same record always gives the same answer.
#[verifier::external_body]
fn any_pressed(keyboard_input: &ButtonInput<KeyCode>, first: SteeringKey, second: SteeringKey) -> (held:
    bool)
    ensures
        held == (held_keys(keyboard_input).contains(first) || held_keys(keyboard_input).contains(
            second,
        )),
{
    keyboard_input.any_pressed([first, second].map(|key| match key {
        SteeringKey::KeyD => KeyCode::KeyD,
        SteeringKey::ArrowRight => KeyCode::ArrowRight,
        SteeringKey::KeyA => KeyCode::KeyA,
        SteeringKey::ArrowLeft => KeyCode::ArrowLeft,
        SteeringKey::KeyW => KeyCode::KeyW,
        SteeringKey::ArrowUp => KeyCode::ArrowUp,
        SteeringKey::KeyS => KeyCode::KeyS,
        SteeringKey::ArrowDown => KeyCode::ArrowDown,
    }))
}

/// The heading that a set of held steering keys asks for: right for D or the
/// right arrow, else left for A or the left arrow, else up for W or the up
/// arrow, else down for S or the down arrow, else none.
pub open spec fn spec_requested_direction(held: Set<SteeringKey>) -> Option<Direction> {
    Direction::spec_from_keys(
        held.contains(SteeringKey::KeyD) || held.contains(SteeringKey::ArrowRight),
        held.contains(SteeringKey::KeyA) || held.contains(SteeringKey::ArrowLeft),
        held.contains(SteeringKey::KeyW) || held.contains(SteeringKey::ArrowUp),
        held.contains(SteeringKey::KeyS) || held.contains(SteeringKey::ArrowDown),
    )
}

/// Reads the heading the player asks for from the keyboard state.
pub fn requested_direction(keyboard_input: &ButtonInput<KeyCode>) -> (requested: Option<Direction>)
    ensures
        requested == spec_requested_direction(held_keys(keyboard_input)),
{
    let right = any_pressed(keyboard_input, SteeringKey::KeyD, SteeringKey::ArrowRight);
    let left = any_pressed(keyboard_input, SteeringKey::KeyA, SteeringKey::ArrowLeft);
    let up = any_pressed(keyboard_input, SteeringKey::KeyW, SteeringKey::ArrowUp);
    let down = any_pressed(keyboard_input, SteeringKey::KeyS, SteeringKey::ArrowDown);
    Direction::from_keys(right, left, up, down)
}

} // verus!
