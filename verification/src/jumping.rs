//! The first steps: a camera that circles the scene and a protagonist that
//! jumps.

use crate::action::{Action, LEAP_IMPULSE};
use crate::input::{keys_of, read_keys};
use crate::keys::{Key, KeyState, Keys};
use bevy::input::keyboard::KeyCode;
use bevy::input::ButtonInput;
use vstd::prelude::*;

verus! {

/// Radians per second about the vertical axis at which Q sends the camera
/// round the scene.
pub const ORBIT_RATE: i32 = 1;

/// Radians per second about the vertical axis at which E sends the camera
/// round the scene, the other way.
pub const COUNTER_ORBIT_RATE: i32 = -1;

/// The rate at which the camera circles the scene: `COUNTER_ORBIT_RATE`
/// while E is held, `ORBIT_RATE` while only Q is held, and no circling at
/// all while neither is.
pub open spec fn orbit(keys: Keys) -> Option<i32> {
    if keys.pressed.contains(Key::E) {
        Some(COUNTER_ORBIT_RATE)
    } else if keys.pressed.contains(Key::Q) {
        Some(ORBIT_RATE)
    } else {
        None
    }
}

/// The leap that space sets off when it goes down.
pub open spec fn leap(keys: Keys) -> Option<Action> {
    if keys.just_pressed.contains(Key::Space) {
        Some(Action::Impulse { up: LEAP_IMPULSE })
    } else {
        None
    }
}

/// The rate at which the camera circles in this frame, given a snapshot of
/// the keyboard.
pub fn camera_orbit(keys: &KeyState) -> (rate: Option<i32>)
    ensures
        rate == orbit(keys@),
{
    if keys.pressed(Key::Q) || keys.pressed(Key::E) {
        if keys.pressed(Key::E) {
            Some(COUNTER_ORBIT_RATE)
        } else {
            Some(ORBIT_RATE)
        }
    } else {
        None
    }
}

/// The rate at which the camera circles in this frame.
pub fn rotate_camera(input: &ButtonInput<KeyCode>) -> (rate: Option<i32>)
    ensures
        rate == orbit(keys_of(*input)),
{
    let keys = read_keys(input);
    camera_orbit(&keys)
}

/// The leap of this frame, if any, given a snapshot of the keyboard.
pub fn jump(keys: &KeyState) -> (push: Option<Action>)
    ensures
        push == leap(keys@),
{
    if keys.just_pressed(Key::Space) {
        Some(Action::Impulse { up: LEAP_IMPULSE })
    } else {
        None
    }
}

/// The leap of this frame, if any.
pub fn protagonist_jump(input: &ButtonInput<KeyCode>) -> (push: Option<Action>)
    ensures
        push == leap(keys_of(*input)),
{
    let keys = read_keys(input);
    jump(&keys)
}

} // verus!
