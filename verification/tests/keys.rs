use bevy::input::keyboard::KeyCode;
use bevy::input::ButtonInput;
use bevy_stealth::input::read_keys;
use bevy_stealth::keys::{Key, KeySet, KeyState, KEY_COUNT};

const ALL: [Key; 17] = [
    Key::W,
    Key::A,
    Key::S,
    Key::D,
    Key::Q,
    Key::E,
    Key::Space,
    Key::ShiftLeft,
    Key::ControlLeft,
    Key::SuperLeft,
    Key::Tab,
    Key::V,
    Key::B,
    Key::K,
    Key::L,
    Key::C,
    Key::R,
];

const CODES: [KeyCode; 17] = [
    KeyCode::KeyW,
    KeyCode::KeyA,
    KeyCode::KeyS,
    KeyCode::KeyD,
    KeyCode::KeyQ,
    KeyCode::KeyE,
    KeyCode::Space,
    KeyCode::ShiftLeft,
    KeyCode::ControlLeft,
    KeyCode::SuperLeft,
    KeyCode::Tab,
    KeyCode::KeyV,
    KeyCode::KeyB,
    KeyCode::KeyK,
    KeyCode::KeyL,
    KeyCode::KeyC,
    KeyCode::KeyR,
];

#[test]
fn key_count_matches_the_keys() {
    assert_eq!(KEY_COUNT, 17);
    assert_eq!(ALL.len(), KEY_COUNT);
}

#[test]
fn index_follows_declaration_order() {
    for (at, key) in ALL.iter().enumerate() {
        assert_eq!(key.index(), at);
    }
}

#[test]
fn from_index_inverts_index() {
    for key in ALL {
        assert_eq!(Key::from_index(key.index()), Some(key));
    }
}

#[test]
fn from_index_past_the_end_is_none() {
    assert_eq!(Key::from_index(17), None);
    assert_eq!(Key::from_index(usize::MAX), None);
}

#[test]
fn new_key_set_is_empty() {
    let set = KeySet::new();
    for key in ALL {
        assert!(!set.contains(key));
    }
}

#[test]
fn insert_adds_only_that_key() {
    for key in ALL {
        let mut set = KeySet::new();
        set.insert(key);
        for other in ALL {
            assert_eq!(set.contains(other), other == key);
        }
    }
}

#[test]
fn insert_twice_is_insert_once() {
    let mut set = KeySet::new();
    set.insert(Key::Tab);
    set.insert(Key::Tab);
    assert!(set.contains(Key::Tab));
    set.remove(Key::Tab);
    assert!(!set.contains(Key::Tab));
}

#[test]
fn remove_takes_only_that_key() {
    let mut set = KeySet::new();
    set.insert(Key::W);
    set.insert(Key::S);
    set.remove(Key::W);
    assert!(!set.contains(Key::W));
    assert!(set.contains(Key::S));
    set.remove(Key::Q);
    assert!(set.contains(Key::S));
}

#[test]
fn set_puts_in_and_takes_out() {
    let mut set = KeySet::new();
    set.set(Key::R, true);
    assert!(set.contains(Key::R));
    set.set(Key::R, false);
    assert!(!set.contains(Key::R));
    set.set(Key::R, false);
    assert!(!set.contains(Key::R));
}

#[test]
fn new_key_state_is_quiet() {
    let state = KeyState::new();
    for key in ALL {
        assert!(!state.pressed(key));
        assert!(!state.just_pressed(key));
        assert!(!state.just_released(key));
    }
}

#[test]
fn key_state_keeps_the_three_sets_apart() {
    let mut state = KeyState::new();
    state.pressed.insert(Key::W);
    state.just_pressed.insert(Key::A);
    state.just_released.insert(Key::S);
    assert!(state.pressed(Key::W));
    assert!(!state.just_pressed(Key::W));
    assert!(!state.just_released(Key::W));
    assert!(state.just_pressed(Key::A));
    assert!(!state.pressed(Key::A));
    assert!(state.just_released(Key::S));
    assert!(!state.pressed(Key::S));
}

#[test]
fn read_keys_of_untouched_keyboard_is_quiet() {
    let input = ButtonInput::<KeyCode>::default();
    let state = read_keys(&input);
    for key in ALL {
        assert!(!state.pressed(key));
        assert!(!state.just_pressed(key));
        assert!(!state.just_released(key));
    }
}

#[test]
fn read_keys_maps_each_code_to_its_key() {
    for (at, code) in CODES.iter().enumerate() {
        let mut input = ButtonInput::<KeyCode>::default();
        input.press(*code);
        let state = read_keys(&input);
        for key in ALL {
            assert_eq!(state.pressed(key), key == ALL[at]);
            assert_eq!(state.just_pressed(key), key == ALL[at]);
            assert!(!state.just_released(key));
        }
    }
}

#[test]
fn read_keys_maps_each_released_code_to_its_key() {
    for (at, code) in CODES.iter().enumerate() {
        let mut input = ButtonInput::<KeyCode>::default();
        input.press(*code);
        input.clear();
        input.release(*code);
        let state = read_keys(&input);
        for key in ALL {
            assert!(!state.pressed(key));
            assert!(!state.just_pressed(key));
            assert_eq!(state.just_released(key), key == ALL[at]);
        }
    }
}

#[test]
fn read_keys_tells_held_from_just_pressed() {
    let mut input = ButtonInput::<KeyCode>::default();
    input.press(KeyCode::KeyW);
    input.clear();
    let state = read_keys(&input);
    assert!(state.pressed(Key::W));
    assert!(!state.just_pressed(Key::W));
    assert!(!state.just_released(Key::W));
}

#[test]
fn read_keys_sees_a_release() {
    let mut input = ButtonInput::<KeyCode>::default();
    input.press(KeyCode::KeyD);
    input.clear();
    input.release(KeyCode::KeyD);
    let state = read_keys(&input);
    assert!(!state.pressed(Key::D));
    assert!(!state.just_pressed(Key::D));
    assert!(state.just_released(Key::D));
}

#[test]
fn read_keys_sees_press_and_release_in_one_frame() {
    let mut input = ButtonInput::<KeyCode>::default();
    input.press(KeyCode::Space);
    input.release(KeyCode::Space);
    let state = read_keys(&input);
    assert!(!state.pressed(Key::Space));
    assert!(state.just_pressed(Key::Space));
    assert!(state.just_released(Key::Space));
}

#[test]
fn read_keys_passes_over_other_codes() {
    let mut input = ButtonInput::<KeyCode>::default();
    input.press(KeyCode::KeyZ);
    input.press(KeyCode::ShiftRight);
    input.press(KeyCode::ControlRight);
    input.press(KeyCode::SuperRight);
    input.press(KeyCode::Enter);
    let state = read_keys(&input);
    for key in ALL {
        assert!(!state.pressed(key));
        assert!(!state.just_pressed(key));
        assert!(!state.just_released(key));
    }
}
