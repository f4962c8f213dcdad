use bevy_stealth::action::Rgb;
use bevy_stealth::lights::{
    blink, blink_lights, handle_temporary_lights, BlinkingLight, Lamp, TemporaryLight,
    BACKPACK_INTENSITY, BACKPACK_MILLIS, BLINK_MILLIS, CHARGE_INTENSITY,
};
use bevy::time::TimerMode;
use std::time::Duration;

const MILLI: u64 = 1_000_000;

#[test]
fn light_constants() {
    assert_eq!(CHARGE_INTENSITY, 100_000);
    assert_eq!(BACKPACK_INTENSITY, 100_000);
    assert_eq!(BLINK_MILLIS, 500);
    assert_eq!(BACKPACK_MILLIS, 1000);
}

#[test]
fn lamp_values() {
    assert_eq!(Lamp::Dark.intensity(), 0);
    assert_eq!(Lamp::Lit.intensity(), 100_000);
    assert_eq!(Lamp::Dark.emissive(), Rgb { red: 0, green: 0, blue: 0 });
    assert_eq!(Lamp::Lit.emissive(), Rgb { red: 100, green: 0, blue: 0 });
}

#[test]
fn blink_changes_only_when_the_timer_ran_out() {
    assert_eq!(blink(false, false), None);
    assert_eq!(blink(false, true), None);
    assert_eq!(blink(true, true), Some(Lamp::Dark));
    assert_eq!(blink(true, false), Some(Lamp::Lit));
}

#[test]
fn charge_changes_every_half_second() {
    let mut charge = BlinkingLight::new();
    assert_eq!(blink_lights(&mut charge, 499 * MILLI, true), None);
    assert_eq!(blink_lights(&mut charge, MILLI, true), Some(Lamp::Dark));
    assert_eq!(blink_lights(&mut charge, 250 * MILLI, false), None);
    assert_eq!(blink_lights(&mut charge, 249 * MILLI, false), None);
    assert_eq!(blink_lights(&mut charge, MILLI, false), Some(Lamp::Lit));
}

#[test]
fn charge_keeps_the_time_left_over() {
    let mut charge = BlinkingLight::new();
    assert_eq!(blink_lights(&mut charge, 700 * MILLI, false), Some(Lamp::Lit));
    assert_eq!(blink_lights(&mut charge, 299 * MILLI, true), None);
    assert_eq!(blink_lights(&mut charge, MILLI, true), Some(Lamp::Dark));
}

#[test]
fn charge_does_not_change_in_no_time() {
    let mut charge = BlinkingLight::new();
    assert_eq!(blink_lights(&mut charge, 0, true), None);
    assert_eq!(blink_lights(&mut charge, 0, false), None);
}

#[test]
fn charge_takes_the_longest_frame() {
    let mut charge = BlinkingLight::new();
    assert_eq!(blink_lights(&mut charge, u64::MAX, true), Some(Lamp::Dark));
    assert_eq!(blink_lights(&mut charge, u64::MAX, false), Some(Lamp::Lit));
}

#[test]
fn backpack_lamp_goes_out_after_a_second() {
    let mut lamp = TemporaryLight::new();
    assert_eq!(lamp.initial_intensity(), 100_000);
    assert!(!handle_temporary_lights(&mut lamp, 999 * MILLI));
    assert!(handle_temporary_lights(&mut lamp, MILLI));
    assert!(!handle_temporary_lights(&mut lamp, MILLI));
    assert!(!handle_temporary_lights(&mut lamp, 2000 * MILLI));
    assert_eq!(lamp.initial_intensity(), 100_000);
}

#[test]
fn backpack_lamp_shows_its_timer() {
    let mut lamp = TemporaryLight::new();
    assert_eq!(lamp.lifetime().duration(), Duration::from_millis(1000));
    assert_eq!(lamp.lifetime().elapsed(), Duration::ZERO);
    assert!(!handle_temporary_lights(&mut lamp, 250 * MILLI));
    assert_eq!(lamp.lifetime().elapsed(), Duration::from_millis(250));
    assert_eq!(lamp.lifetime().fraction_remaining(), 0.75);
    assert!(handle_temporary_lights(&mut lamp, u64::MAX));
    assert_eq!(lamp.lifetime().fraction_remaining(), 0.0);
    assert!(lamp.lifetime().finished());
}

#[test]
fn charge_changes_once_for_many_periods_in_one_frame() {
    let mut charge = BlinkingLight::new();
    assert_eq!(blink_lights(&mut charge, 1750 * MILLI, true), Some(Lamp::Dark));
    assert_eq!(blink_lights(&mut charge, 249 * MILLI, false), None);
    assert_eq!(blink_lights(&mut charge, MILLI, false), Some(Lamp::Lit));
}

#[test]
fn backpack_lamp_timer_runs_once() {
    let lamp = TemporaryLight::new();
    assert_eq!(lamp.lifetime().mode(), TimerMode::Once);
    assert!(!lamp.lifetime().paused());
    assert!(!lamp.lifetime().finished());
    assert_eq!(lamp.lifetime().fraction_remaining(), 1.0);
}

#[test]
fn backpack_lamp_counts_up_to_its_life() {
    let mut lamp = TemporaryLight::new();
    assert!(!handle_temporary_lights(&mut lamp, 400 * MILLI));
    assert!(!handle_temporary_lights(&mut lamp, 0));
    assert_eq!(lamp.lifetime().elapsed(), Duration::from_millis(400));
    assert!(handle_temporary_lights(&mut lamp, 600 * MILLI));
    assert_eq!(lamp.lifetime().elapsed(), Duration::from_millis(1000));
    assert!(!handle_temporary_lights(&mut lamp, 0));
    assert!(!handle_temporary_lights(&mut lamp, u64::MAX));
    assert_eq!(lamp.lifetime().elapsed(), Duration::from_millis(1000));
    assert!(lamp.lifetime().finished());
}
