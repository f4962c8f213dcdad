use bevy::input::keyboard::KeyCode;
use bevy::input::ButtonInput;
use bevy_stealth::action::Action;
use bevy_stealth::jumping::{
    camera_orbit, jump, protagonist_jump, rotate_camera, COUNTER_ORBIT_RATE, ORBIT_RATE,
};
use bevy_stealth::keys::{Key, KeyState};

#[test]
fn orbit_rates_are_one_radian_per_second() {
    assert_eq!(ORBIT_RATE, 1);
    assert_eq!(COUNTER_ORBIT_RATE, -1);
}

#[test]
fn camera_rests_without_q_or_e() {
    assert_eq!(camera_orbit(&KeyState::new()), None);
    let mut keys = KeyState::new();
    keys.just_pressed.insert(Key::Q);
    keys.just_released.insert(Key::E);
    keys.pressed.insert(Key::W);
    assert_eq!(camera_orbit(&keys), None);
}

#[test]
fn q_circles_one_way_and_e_the_other() {
    let mut keys = KeyState::new();
    keys.pressed.insert(Key::Q);
    assert_eq!(camera_orbit(&keys), Some(1));
    let mut keys = KeyState::new();
    keys.pressed.insert(Key::E);
    assert_eq!(camera_orbit(&keys), Some(-1));
}

#[test]
fn e_wins_over_q() {
    let mut keys = KeyState::new();
    keys.pressed.insert(Key::Q);
    keys.pressed.insert(Key::E);
    assert_eq!(camera_orbit(&keys), Some(-1));
}

#[test]
fn rotate_camera_reads_the_engine_keyboard() {
    let mut input = ButtonInput::<KeyCode>::default();
    assert_eq!(rotate_camera(&input), None);
    input.press(KeyCode::KeyQ);
    assert_eq!(rotate_camera(&input), Some(1));
    input.clear();
    assert_eq!(rotate_camera(&input), Some(1));
    input.press(KeyCode::KeyE);
    assert_eq!(rotate_camera(&input), Some(-1));
    input.release(KeyCode::KeyQ);
    input.release(KeyCode::KeyE);
    assert_eq!(rotate_camera(&input), None);
}

#[test]
fn space_going_down_leaps() {
    let mut keys = KeyState::new();
    keys.just_pressed.insert(Key::Space);
    assert_eq!(jump(&keys), Some(Action::Impulse { up: 5 }));
}

#[test]
fn space_held_or_let_go_does_not_leap() {
    assert_eq!(jump(&KeyState::new()), None);
    let mut keys = KeyState::new();
    keys.pressed.insert(Key::Space);
    keys.just_released.insert(Key::Space);
    assert_eq!(jump(&keys), None);
}

#[test]
fn protagonist_jump_reads_the_engine_keyboard() {
    let mut input = ButtonInput::<KeyCode>::default();
    assert_eq!(protagonist_jump(&input), None);
    input.press(KeyCode::Space);
    assert_eq!(protagonist_jump(&input), Some(Action::Impulse { up: 5 }));
    input.clear();
    assert_eq!(protagonist_jump(&input), None);
    input.release(KeyCode::Space);
    assert_eq!(protagonist_jump(&input), None);
}
