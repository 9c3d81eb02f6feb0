//! The keyboard, read off the input that the engine collects each frame.

use bevy::input::keyboard::{KeyCode, NativeKeyCode};
use bevy::input::ButtonInput;
use std::hash::Hash;
use vstd::prelude::*;

verus! {

/// `bevy::input::ButtonInput`: the buttons of a device that are down, went
/// down or came up. Nothing inside it is visible here.
#[verifier::external_type_specification]
#[verifier::external_body]
#[verifier::reject_recursive_types(T)]
pub struct ExButtonInput<T: Copy + Eq + Hash + Send + Sync + 'static>(ButtonInput<T>);

/// `bevy::input::keyboard::KeyCode`: the keys of a keyboard by their place
/// on it, as the engine lists them.
#[verifier::external_type_specification]
pub struct ExKeyCode(KeyCode);

/// `bevy::input::keyboard::NativeKeyCode`: what `KeyCode` holds of a key that
/// the engine does not know.
#[verifier::external_type_specification]
pub struct ExNativeKeyCode(NativeKeyCode);

/// The keys that are down, as `ButtonInput::pressed` tells.
pub uninterp spec fn spec_pressed(keys: ButtonInput<KeyCode>) -> Set<KeyCode>;

/// The keys that went down in this frame, as `ButtonInput::just_pressed`
/// tells.
pub uninterp spec fn spec_just_pressed(keys: ButtonInput<KeyCode>) -> Set<KeyCode>;

/// The keys that came up in this frame, as `ButtonInput::just_released`
/// tells.
pub uninterp spec fn spec_just_released(keys: ButtonInput<KeyCode>) -> Set<KeyCode>;

/// Calls `ButtonInput::pressed`. The answer is taken for what
/// [`spec_pressed`] holds: it depends on the input and the key alone.
#[verifier::external_body]
fn pressed(keys: &ButtonInput<KeyCode>, key: KeyCode) -> (out: bool)
    ensures
        out == spec_pressed(*keys).contains(key),
{
    keys.pressed(key)
}

/// Calls `ButtonInput::just_pressed`. The answer is taken for what
/// [`spec_just_pressed`] holds: it depends on the input and the key alone.
#[verifier::external_body]
fn just_pressed(keys: &ButtonInput<KeyCode>, key: KeyCode) -> (out: bool)
    ensures
        out == spec_just_pressed(*keys).contains(key),
{
    keys.just_pressed(key)
}

/// Calls `ButtonInput::just_released`. The answer is taken for what
/// [`spec_just_released`] holds: it depends on the input and the key alone.
#[verifier::external_body]
fn just_released(keys: &ButtonInput<KeyCode>, key: KeyCode) -> (out: bool)
    ensures
        out == spec_just_released(*keys).contains(key),
{
    keys.just_released(key)
}

/// One key of the keyboard during one frame.
#[derive(Clone, Copy, Debug, PartialEq, Eq, Structural)]
pub struct KeyState {
    /// The key is down.
    pub pressed: bool,
    /// The key went down in this frame.
    pub just_pressed: bool,
    /// The key came up in this frame.
    pub just_released: bool,
}

pub open spec fn spec_key_state(keys: ButtonInput<KeyCode>, key: KeyCode) -> KeyState {
    KeyState {
        pressed: spec_pressed(keys).contains(key),
        just_pressed: spec_just_pressed(keys).contains(key),
        just_released: spec_just_released(keys).contains(key),
    }
}

/// Asks the engine's input about one key.
pub fn key_state(keys: &ButtonInput<KeyCode>, key: KeyCode) -> (out: KeyState)
    ensures
        out == spec_key_state(*keys, key),
{
    KeyState {
        pressed: pressed(keys, key),
        just_pressed: just_pressed(keys, key),
        just_released: just_released(keys, key),
    }
}

/// The keys the game listens to.
#[derive(Clone, Copy, Debug, PartialEq, Eq, Structural)]
pub struct Keyboard {
    pub key_a: KeyState,
    pub key_d: KeyState,
    pub key_s: KeyState,
    pub key_j: KeyState,
    pub key_r: KeyState,
    pub space: KeyState,
    pub shift_left: KeyState,
    pub arrow_left: KeyState,
    pub arrow_right: KeyState,
    pub arrow_down: KeyState,
}

pub open spec fn spec_keyboard(keys: ButtonInput<KeyCode>) -> Keyboard {
    Keyboard {
        key_a: spec_key_state(keys, KeyCode::KeyA),
        key_d: spec_key_state(keys, KeyCode::KeyD),
        key_s: spec_key_state(keys, KeyCode::KeyS),
        key_j: spec_key_state(keys, KeyCode::KeyJ),
        key_r: spec_key_state(keys, KeyCode::KeyR),
        space: spec_key_state(keys, KeyCode::Space),
        shift_left: spec_key_state(keys, KeyCode::ShiftLeft),
        arrow_left: spec_key_state(keys, KeyCode::ArrowLeft),
        arrow_right: spec_key_state(keys, KeyCode::ArrowRight),
        arrow_down: spec_key_state(keys, KeyCode::ArrowDown),
    }
}

/// Asks the engine's input about every key the game listens to.
pub fn keyboard(keys: &ButtonInput<KeyCode>) -> (out: Keyboard)
    ensures
        out == spec_keyboard(*keys),
{
    Keyboard {
        key_a: key_state(keys, KeyCode::KeyA),
        key_d: key_state(keys, KeyCode::KeyD),
        key_s: key_state(keys, KeyCode::KeyS),
        key_j: key_state(keys, KeyCode::KeyJ),
        key_r: key_state(keys, KeyCode::KeyR),
        space: key_state(keys, KeyCode::Space),
        shift_left: key_state(keys, KeyCode::ShiftLeft),
        arrow_left: key_state(keys, KeyCode::ArrowLeft),
        arrow_right: key_state(keys, KeyCode::ArrowRight),
        arrow_down: key_state(keys, KeyCode::ArrowDown),
    }
}

} // verus!
