//! Lamps that live on timers: the blinking charge and the backpack lamp.
//!
//! A lamp holds the time it has counted as a plain number. The counting
//! itself is the engine's: each step hands the number to the engine's
//! `Timer` and takes the outcome back.

use crate::action::Rgb;
use bevy::time::{Timer, TimerMode};
use std::time::Duration;
use vstd::prelude::*;

verus! {

/// Brightness of a lit charge.
pub const CHARGE_INTENSITY: u32 = 100000;

/// Milliseconds between two changes of a blinking charge.
pub const BLINK_MILLIS: u32 = 500;

/// Full brightness of the backpack lamp.
pub const BACKPACK_INTENSITY: u32 = 100000;

/// Milliseconds that the backpack lamp lasts.
pub const BACKPACK_MILLIS: u32 = 1000;

/// The engine's `Timer`: it counts time up to a set length. Nothing of its
/// inside is seen here.
#[verifier::external_type_specification]
#[verifier::external_body]
pub struct ExTimer(Timer);

/// The length of `millis` milliseconds in nanoseconds.
pub open spec fn length(millis: u32) -> int {
    millis * 1_000_000
}

/// The engine's timer of `millis` milliseconds, repeating or not, that has
/// counted `elapsed` nanoseconds.
pub uninterp spec fn timer_at(millis: u32, repeating: bool, elapsed: u64) -> Timer;

/// What the engine's timer of `millis` milliseconds, repeating or not, that
/// has counted `elapsed` nanoseconds makes of `nanos` nanoseconds more: the
/// nanoseconds it has counted afterwards, and whether it has just run out.
pub uninterp spec fn timer_ticked(millis: u32, repeating: bool, elapsed: u64, nanos: u64) -> (
    u64,
    bool,
);

/// Makes the engine's timer of `millis` milliseconds with `Timer::new` and
/// sets it with `Timer::set_elapsed` to have counted `elapsed` nanoseconds;
/// a `Timer::tick` of no time lets a timer that has counted its whole
/// length know that it has run out. The contract says only that the same
/// arguments give the same timer.
#[verifier::external_body]
fn timer_with(millis: u32, repeating: bool, elapsed: u64) -> (timer: Timer)
    ensures
        timer == timer_at(millis, repeating, elapsed),
{
    let mode = if repeating { TimerMode::Repeating } else { TimerMode::Once };
    let mut timer = Timer::new(Duration::from_millis(millis.into()), mode);
    timer.set_elapsed(Duration::from_nanos(elapsed));
    timer.tick(Duration::ZERO);
    timer
}

/// Makes the same timer as `timer_with`, advances it by `nanos` nanoseconds
/// with `Timer::tick`, and reads `Timer::elapsed` and
/// `Timer::just_finished`. The contract names the outcome and states what
/// the engine's source shows of it in the plain cases: a timer that does not
/// reach its length counts on; a repeating timer that reaches its length
/// once starts over with what is left; a timer that does not repeat stops
/// at its length and, once there, stays; a repeating timer always ends
/// below its length. No sum here comes near what a `Duration` holds, and a
/// timer counts no further than its length, which fits sixty-four bits.
#[verifier::external_body]
fn ticked(millis: u32, repeating: bool, elapsed: u64, nanos: u64) -> (after: (u64, bool))
    ensures
        after == timer_ticked(millis, repeating, elapsed, nanos),
        elapsed + nanos < length(millis) ==> after.0 == elapsed + nanos && !after.1,
        repeating && elapsed < length(millis) <= elapsed + nanos < 2 * length(millis)
            ==> after.0 == elapsed + nanos - length(millis) && after.1,
        !repeating && elapsed < length(millis) <= elapsed + nanos ==> after.0 == length(millis)
            && after.1,
        !repeating && 0 < length(millis) == elapsed ==> after.0 == length(millis) && !after.1,
        repeating && 0 < length(millis) ==> after.0 < length(millis),
{
    let mode = if repeating { TimerMode::Repeating } else { TimerMode::Once };
    let mut timer = Timer::new(Duration::from_millis(millis.into()), mode);
    timer.set_elapsed(Duration::from_nanos(elapsed));
    timer.tick(Duration::ZERO);
    timer.tick(Duration::from_nanos(nanos));
    (timer.elapsed().as_nanos() as u64, timer.just_finished())
}

/// The two states of a charge.
#[derive(Clone, Copy, Debug, PartialEq, Eq, Hash, Structural)]
pub enum Lamp {
    /// No light, and a black glow.
    Dark,
    /// `CHARGE_INTENSITY` of light, and a red glow.
    Lit,
}

impl Lamp {
    /// Brightness of the charge in this state.
    pub open spec fn brightness(self) -> nat {
        match self {
            Lamp::Dark => 0,
            Lamp::Lit => CHARGE_INTENSITY as nat,
        }
    }

    /// Glow of the charge in this state.
    pub open spec fn glow(self) -> Rgb {
        match self {
            Lamp::Dark => Rgb { red: 0, green: 0, blue: 0 },
            Lamp::Lit => Rgb { red: 100, green: 0, blue: 0 },
        }
    }

    /// Brightness of the charge in this state.
    pub fn intensity(self) -> (intensity: u32)
        ensures
            intensity == self.brightness(),
    {
        match self {
            Lamp::Dark => 0,
            Lamp::Lit => CHARGE_INTENSITY,
        }
    }

    /// Glow of the charge in this state.
    pub fn emissive(self) -> (glow: Rgb)
        ensures
            glow == self.glow(),
    {
        match self {
            Lamp::Dark => Rgb { red: 0, green: 0, blue: 0 },
            Lamp::Lit => Rgb { red: 100, green: 0, blue: 0 },
        }
    }
}

/// The state a charge changes to: the other one when its timer has just
/// run out, none at all when it has not.
pub open spec fn blinked(finished: bool, lit: bool) -> Option<Lamp> {
    if !finished {
        None
    } else if lit {
        Some(Lamp::Dark)
    } else {
        Some(Lamp::Lit)
    }
}

/// The state a charge changes to, given whether its timer has just run out
/// and whether it gives light now.
pub fn blink(finished: bool, lit: bool) -> (change: Option<Lamp>)
    ensures
        change == blinked(finished, lit),
{
    if finished {
        Some(
            if lit {
                Lamp::Dark
            } else {
                Lamp::Lit
            },
        )
    } else {
        None
    }
}

/// A blinking charge: the time it has counted since it last changed.
pub struct BlinkingLight {
    counted: u64,
}

impl BlinkingLight {
    #[verifier::type_invariant]
    spec fn in_time(self) -> bool {
        self.counted < length(BLINK_MILLIS)
    }

    /// Nanoseconds counted since the charge last changed.
    pub closed spec fn counted(&self) -> u64 {
        self.counted
    }

    /// A charge that changes every `BLINK_MILLIS` milliseconds and has
    /// counted nothing yet.
    pub fn new() -> (light: BlinkingLight)
        ensures
            light.counted() == 0,
    {
        BlinkingLight { counted: 0 }
    }
}

/// Lets `nanos` nanoseconds pass for a charge that gives light or not, as
/// `lit` says, and tells the state it changes to, if it does. The charge
/// changes when the engine's repeating timer of `BLINK_MILLIS` milliseconds
/// runs out: not before the time counted reaches that length, and once
/// where it reaches it without reaching it twice.
pub fn blink_lights(light: &mut BlinkingLight, nanos: u64, lit: bool) -> (change: Option<Lamp>)
    ensures
        final(light).counted() == timer_ticked(
            BLINK_MILLIS,
            true,
            old(light).counted(),
            nanos,
        ).0,
        change == blinked(
            timer_ticked(BLINK_MILLIS, true, old(light).counted(), nanos).1,
            lit,
        ),
        final(light).counted() < length(BLINK_MILLIS),
        old(light).counted() + nanos < length(BLINK_MILLIS) ==> change is None
            && final(light).counted() == old(light).counted() + nanos,
        length(BLINK_MILLIS) <= old(light).counted() + nanos < 2 * length(BLINK_MILLIS) ==> change
            == blinked(true, lit) && final(light).counted() == old(light).counted() + nanos
            - length(BLINK_MILLIS),
{
    proof {
        use_type_invariant(&*light);
    }
    let after = ticked(BLINK_MILLIS, true, light.counted, nanos);
    light.counted = after.0;
    blink(after.1, lit)
}

/// The backpack lamp: a light that grows to full brightness and goes out.
pub struct TemporaryLight {
    counted: u64,
    initial_intensity: u32,
}

impl TemporaryLight {
    #[verifier::type_invariant]
    spec fn in_time(self) -> bool {
        self.counted <= length(BACKPACK_MILLIS)
    }

    /// The brightness the lamp grows to.
    pub closed spec fn full(&self) -> nat {
        self.initial_intensity as nat
    }

    /// Nanoseconds of its life that the lamp has counted.
    pub closed spec fn counted(&self) -> u64 {
        self.counted
    }

    /// A lamp that lasts `BACKPACK_MILLIS` milliseconds, has counted nothing
    /// yet, and grows to `BACKPACK_INTENSITY`.
    pub fn new() -> (lamp: TemporaryLight)
        ensures
            lamp.full() == BACKPACK_INTENSITY,
            lamp.counted() == 0,
    {
        TemporaryLight { counted: 0, initial_intensity: BACKPACK_INTENSITY }
    }

    /// The brightness the lamp grows to.
    pub fn initial_intensity(&self) -> (intensity: u32)
        ensures
            intensity == self.full(),
    {
        self.initial_intensity
    }

    /// The timer that measures the lamp's life: the engine's timer of
    /// `BACKPACK_MILLIS` milliseconds that runs once and has counted what
    /// the lamp has.
    pub fn lifetime(&self) -> (timer: Timer)
        ensures
            timer == timer_at(BACKPACK_MILLIS, false, self.counted()),
    {
        timer_with(BACKPACK_MILLIS, false, self.counted)
    }
}

/// Lets `nanos` nanoseconds pass for a backpack lamp and tells whether it
/// has just gone out: whether this time took it to the end of its life. The
/// lamp counts on up to its life's length and no further; the brightness it
/// grows to stays.
pub fn handle_temporary_lights(lamp: &mut TemporaryLight, nanos: u64) -> (spent: bool)
    ensures
        final(lamp).full() == old(lamp).full(),
        final(lamp).counted() == if old(lamp).counted() + nanos < length(BACKPACK_MILLIS) {
            old(lamp).counted() + nanos
        } else {
            length(BACKPACK_MILLIS)
        },
        spent == (old(lamp).counted() < length(BACKPACK_MILLIS) <= old(lamp).counted() + nanos),
{
    proof {
        use_type_invariant(&*lamp);
    }
    let after = ticked(BACKPACK_MILLIS, false, lamp.counted, nanos);
    lamp.counted = after.0;
    after.1
}

} // verus!
