use bevy_stealth::action::{
    BLEND_MILLIS, DROP, HOP_IMPULSE, LEAP_IMPULSE, OPENING_BLEND_MILLIS, RAISE, RUN_SPEED,
    STRAFE_SPEED, SWIM_SPEED, TURN_SPEED, WALK_SPEED,
};

#[test]
fn speeds_and_pushes() {
    assert_eq!(TURN_SPEED, 2);
    assert_eq!(WALK_SPEED, 5);
    assert_eq!(RUN_SPEED, 10);
    assert_eq!(STRAFE_SPEED, 4);
    assert_eq!(SWIM_SPEED, 8);
    assert_eq!(HOP_IMPULSE, 1);
    assert_eq!(LEAP_IMPULSE, 5);
    assert_eq!(DROP, -10);
    assert_eq!(RAISE, 15);
}

#[test]
fn blends_are_in_milliseconds() {
    assert_eq!(BLEND_MILLIS, 250);
    assert_eq!(OPENING_BLEND_MILLIS, 1000);
}

#[test]
fn hundredths_and_tenths_name_the_decimal_exactly() {
    assert_eq!(0 as f32 / 100.0, 0.0);
    assert_eq!(20 as f32 / 100.0, 0.2);
    assert_eq!(24 as f32 / 100.0, 0.24);
    assert_eq!(30 as f32 / 100.0, 0.3);
    assert_eq!(62 as f32 / 100.0, 0.62);
    assert_eq!(80 as f32 / 100.0, 0.8);
    assert_eq!(92 as f32 / 100.0, 0.92);
    assert_eq!(100 as f32 / 100.0, 1.0);
    assert_eq!(-1 as f32 / 10.0, -0.1);
    assert_eq!(-10 as f32 / 10.0, -1.0);
    assert_eq!(250 as f32 / 10.0, 25.0);
    assert_eq!(-400 as f32 / 10.0, -40.0);
    assert_eq!(500 as f32 / 10.0, 50.0);
}
