//! Reading the engine's keyboard resource.
//!
//! The engine keeps three hash sets of key codes. This module names their
//! contents, as far as the game's own keys go, and copies them into a
//! [`KeyState`]. Each [`Key`] stands for the key code of the same name: `W`
//! for `KeyW`, `Space` for `Space`, `ShiftLeft` for `ShiftLeft`, and so on.

use crate::keys::{Key, KeyState, Keys, KEY_COUNT};
use bevy::input::keyboard::KeyCode;
use bevy::input::ButtonInput;
use std::hash::Hash;
use vstd::prelude::*;

verus! {

/// The engine's `ButtonInput`: which buttons are pressed, and which were
/// pressed or released since the last frame. Nothing of its inside is seen
/// here.
#[verifier::external_type_specification]
#[verifier::external_body]
#[verifier::reject_recursive_types(T)]
pub struct ExButtonInput<T: Copy + Eq + Hash + Send + Sync + 'static>(ButtonInput<T>);

/// The engine's `KeyCode`: the code of a key on the keyboard. Nothing of
/// its inside is seen here.
#[verifier::external_type_specification]
#[verifier::external_body]
pub struct ExKeyCode(KeyCode);

/// The game's keys whose codes are in the set of pressed codes of `input`.
pub uninterp spec fn pressed_keys(input: ButtonInput<KeyCode>) -> Set<Key>;

/// The game's keys whose codes are in the set of just pressed codes of
/// `input`.
pub uninterp spec fn just_pressed_keys(input: ButtonInput<KeyCode>) -> Set<Key>;

/// The game's keys whose codes are in the set of just released codes of
/// `input`.
pub uninterp spec fn just_released_keys(input: ButtonInput<KeyCode>) -> Set<Key>;

/// What `input` says about the game's keys.
pub open spec fn keys_of(input: ButtonInput<KeyCode>) -> Keys {
    Keys {
        pressed: pressed_keys(input),
        just_pressed: just_pressed_keys(input),
        just_released: just_released_keys(input),
    }
}

/// Asks `ButtonInput::pressed` about the code of `key`. The engine looks the
/// code up in its set of pressed codes and changes nothing; the contract
/// says that the answer is membership of `key` in `pressed_keys`.
#[verifier::external_body]
fn key_pressed(input: &ButtonInput<KeyCode>, key: Key) -> (down: bool)
    ensures
        down == pressed_keys(*input).contains(key),
{
    input.pressed(match key {
        Key::W => KeyCode::KeyW, Key::A => KeyCode::KeyA, Key::S => KeyCode::KeyS,
        Key::D => KeyCode::KeyD, Key::Q => KeyCode::KeyQ, Key::E => KeyCode::KeyE,
        Key::Space => KeyCode::Space, Key::ShiftLeft => KeyCode::ShiftLeft,
        Key::ControlLeft => KeyCode::ControlLeft, Key::SuperLeft => KeyCode::SuperLeft,
        Key::Tab => KeyCode::Tab, Key::V => KeyCode::KeyV, Key::B => KeyCode::KeyB,
        Key::K => KeyCode::KeyK, Key::L => KeyCode::KeyL, Key::C => KeyCode::KeyC,
        Key::R => KeyCode::KeyR,
    })
}

/// Asks `ButtonInput::just_pressed` about the code of `key`. The engine
/// looks the code up in its set of just pressed codes and changes nothing;
/// the contract says that the answer is membership of `key` in
/// `just_pressed_keys`.
#[verifier::external_body]
fn key_just_pressed(input: &ButtonInput<KeyCode>, key: Key) -> (down: bool)
    ensures
        down == just_pressed_keys(*input).contains(key),
{
    input.just_pressed(match key {
        Key::W => KeyCode::KeyW, Key::A => KeyCode::KeyA, Key::S => KeyCode::KeyS,
        Key::D => KeyCode::KeyD, Key::Q => KeyCode::KeyQ, Key::E => KeyCode::KeyE,
        Key::Space => KeyCode::Space, Key::ShiftLeft => KeyCode::ShiftLeft,
        Key::ControlLeft => KeyCode::ControlLeft, Key::SuperLeft => KeyCode::SuperLeft,
        Key::Tab => KeyCode::Tab, Key::V => KeyCode::KeyV, Key::B => KeyCode::KeyB,
        Key::K => KeyCode::KeyK, Key::L => KeyCode::KeyL, Key::C => KeyCode::KeyC,
        Key::R => KeyCode::KeyR,
    })
}

/// Asks `ButtonInput::just_released` about the code of `key`. The engine
/// looks the code up in its set of just released codes and changes nothing;
/// the contract says that the answer is membership of `key` in
/// `just_released_keys`.
#[verifier::external_body]
fn key_just_released(input: &ButtonInput<KeyCode>, key: Key) -> (up: bool)
    ensures
        up == just_released_keys(*input).contains(key),
{
    input.just_released(match key {
        Key::W => KeyCode::KeyW, Key::A => KeyCode::KeyA, Key::S => KeyCode::KeyS,
        Key::D => KeyCode::KeyD, Key::Q => KeyCode::KeyQ, Key::E => KeyCode::KeyE,
        Key::Space => KeyCode::Space, Key::ShiftLeft => KeyCode::ShiftLeft,
        Key::ControlLeft => KeyCode::ControlLeft, Key::SuperLeft => KeyCode::SuperLeft,
        Key::Tab => KeyCode::Tab, Key::V => KeyCode::KeyV, Key::B => KeyCode::KeyB,
        Key::K => KeyCode::KeyK, Key::L => KeyCode::KeyL, Key::C => KeyCode::KeyC,
        Key::R => KeyCode::KeyR,
    })
}

/// Copies what `input` says about the game's keys into a plain snapshot.
pub fn read_keys(input: &ButtonInput<KeyCode>) -> (state: KeyState)
    ensures
        state@ == keys_of(*input),
{
    let mut state = KeyState::new();
    let mut i: usize = 0;
    while i < KEY_COUNT
        invariant
            i <= KEY_COUNT,
            forall|key: Key|
                key.ordinal() < i ==> (state@.pressed.contains(key) == pressed_keys(
                    *input,
                ).contains(key)),
            forall|key: Key|
                key.ordinal() < i ==> (state@.just_pressed.contains(key) == just_pressed_keys(
                    *input,
                ).contains(key)),
            forall|key: Key|
                key.ordinal() < i ==> (state@.just_released.contains(key) == just_released_keys(
                    *input,
                ).contains(key)),
        decreases KEY_COUNT - i,
    {
        let key = Key::from_index(i).unwrap();
        proof {
            Key::lemma_at_ordinal(i as nat);
        }
        state.pressed.set(key, key_pressed(input, key));
        state.just_pressed.set(key, key_just_pressed(input, key));
        state.just_released.set(key, key_just_released(input, key));
        i += 1;
    }
    assert(state@.pressed =~= pressed_keys(*input));
    assert(state@.just_pressed =~= just_pressed_keys(*input));
    assert(state@.just_released =~= just_released_keys(*input));
    state
}

} // verus!
