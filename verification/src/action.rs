//! What the rules ask the game to do.

use vstd::prelude::*;

verus! {

/// Milliseconds over which a newly played clip is blended in.
pub const BLEND_MILLIS: u64 = 250;

/// Milliseconds over which the opening pose is blended in.
pub const OPENING_BLEND_MILLIS: u64 = 1000;

/// Turning speed, in radians per second.
pub const TURN_SPEED: u32 = 2;

/// Walking speed, in units per second.
pub const WALK_SPEED: u32 = 5;

/// Running speed, in units per second.
pub const RUN_SPEED: u32 = 10;

/// Sideways speed, in units per second.
pub const STRAFE_SPEED: u32 = 4;

/// Speed under water, in units per second.
pub const SWIM_SPEED: u32 = 8;

/// Upward push of a jump in the open world.
pub const HOP_IMPULSE: u32 = 1;

/// Upward push of a jump on the practice floor.
pub const LEAP_IMPULSE: u32 = 5;

/// Height change, in units, of the quick way down.
pub const DROP: i32 = -10;

/// Height change, in units, of the quick way up.
pub const RAISE: i32 = 15;

/// A named animation clip of the protagonist.
#[derive(Clone, Copy, Debug, PartialEq, Eq, Hash, Structural)]
pub enum Clip {
    Swim,
    Tread,
    Fly,
    PivotRight,
    Crouch,
    StrafeLeft,
    StrafeRight,
    LeftShoulderAdvance,
    JogBack,
    LegsUp,
    IdleStretch,
    TurnLeft,
    TurnRight,
}

/// How often a clip is played.
#[derive(Clone, Copy, Debug, PartialEq, Eq, Hash, Structural)]
pub enum Repeat {
    /// Over and over.
    Forever,
    /// A single time.
    Once,
}

/// Left or right, as the protagonist sees it. A turn to the left adds to
/// the yaw, a turn to the right takes from it.
#[derive(Clone, Copy, Debug, PartialEq, Eq, Hash, Structural)]
pub enum Hand {
    Left,
    Right,
}

/// A direction of travel, relative to where the protagonist faces.
#[derive(Clone, Copy, Debug, PartialEq, Eq, Hash, Structural)]
pub enum Heading {
    /// Where the protagonist faces, slope included.
    Ahead,
    /// Where the protagonist faces, flattened to the ground plane.
    AheadLevel,
    /// Away from where the protagonist faces, flattened to the ground plane.
    BackLevel,
    /// To the protagonist's left, flattened to the ground plane.
    LeftLevel,
    /// To the protagonist's right, flattened to the ground plane.
    RightLevel,
    /// Straight up.
    Up,
    /// Straight down.
    Down,
}

/// A setting of the sun light.
#[derive(Clone, Copy, Debug, PartialEq, Eq, Hash, Structural)]
pub enum Ambience {
    /// Dim blue night, the light of dry land.
    Night,
    /// Red alarm light.
    Alarm,
    /// Bright deep blue, the light under water.
    Underwater,
}

/// A colour, each channel in hundredths of full strength.
#[derive(Clone, Copy, Debug, PartialEq, Eq, Hash, Structural)]
pub struct Rgb {
    pub red: u8,
    pub green: u8,
    pub blue: u8,
}

impl Ambience {
    /// Illuminance of the setting, in lux.
    pub open spec fn lux(self) -> nat {
        match self {
            Ambience::Night => 10,
            Ambience::Alarm => 1000,
            Ambience::Underwater => 50000,
        }
    }

    /// Colour of the setting.
    pub open spec fn tint(self) -> Rgb {
        match self {
            Ambience::Night => Rgb { red: 20, green: 20, blue: 30 },
            Ambience::Alarm => Rgb { red: 100, green: 0, blue: 0 },
            Ambience::Underwater => Rgb { red: 0, green: 20, blue: 80 },
        }
    }

    /// Illuminance of the setting, in lux.
    pub fn illuminance(self) -> (lux: u32)
        ensures
            lux == self.lux(),
    {
        match self {
            Ambience::Night => 10,
            Ambience::Alarm => 1000,
            Ambience::Underwater => 50000,
        }
    }

    /// Colour of the setting.
    pub fn color(self) -> (rgb: Rgb)
        ensures
            rgb == self.tint(),
    {
        match self {
            Ambience::Night => Rgb { red: 20, green: 20, blue: 30 },
            Ambience::Alarm => Rgb { red: 100, green: 0, blue: 0 },
            Ambience::Underwater => Rgb { red: 0, green: 20, blue: 80 },
        }
    }
}

/// A request to play a clip.
#[derive(Clone, Copy, Debug, PartialEq, Eq, Hash, Structural)]
pub struct Cue {
    /// The clip to play.
    pub clip: Clip,
    /// How often to play it.
    pub repeat: Repeat,
    /// Milliseconds over which it is blended in.
    pub blend_millis: u64,
}

/// One thing for the game to do. Actions are carried out in the order given.
#[derive(Clone, Copy, Debug, PartialEq, Eq, Hash, Structural)]
pub enum Action {
    /// Play a clip on the animation player.
    Play(Cue),
    /// Resume every paused animation of the player.
    ResumeAll,
    /// Set the protagonist's velocity along the ground plane to zero.
    HaltLevel,
    /// Record whether the protagonist is falling.
    Falling(bool),
    /// Face the yaw held when the frame began, turned to the given hand by
    /// `TURN_SPEED` times the length of the frame.
    Face(Hand),
    /// Turn further to the given hand by `TURN_SPEED` times the length of
    /// the frame.
    Spin(Hand),
    /// Travel along `heading` at `speed`; with `keep_fall` the vertical velocity stays as it is.
    Drive { heading: Heading, speed: u32, keep_fall: bool },
    /// Set the protagonist's velocity to zero.
    Stop,
    /// Push the protagonist upwards.
    Impulse { up: u32 },
    /// Move the protagonist vertically by `by` units at once.
    Lift { by: i32 },
    /// Set the sun light.
    Light(Ambience),
    /// Light the backpack lamp above the protagonist.
    BackpackLight,
    /// Put a blinking charge where the protagonist stands.
    Charge,
    /// Move on to the next clip of the catalogue and play it over and over,
    /// blended in over `BLEND_MILLIS`.
    NextClip,
    /// Set the protagonist's angular velocity to zero.
    StillSpin,
}

/// The request to play `clip` with the usual blend.
pub open spec fn cue(clip: Clip, repeat: Repeat) -> Cue {
    Cue { clip, repeat, blend_millis: BLEND_MILLIS }
}

/// The one-action list that plays `clip` with the usual blend.
pub open spec fn play(clip: Clip, repeat: Repeat) -> Seq<Action> {
    seq![Action::Play(cue(clip, repeat))]
}

/// `actions` if `on` holds, else nothing.
pub open spec fn given(on: bool, actions: Seq<Action>) -> Seq<Action> {
    if on {
        actions
    } else {
        Seq::empty()
    }
}

/// Appends the request to play `clip` with the usual blend.
pub fn push_play(out: &mut Vec<Action>, clip: Clip, repeat: Repeat)
    ensures
        final(out)@ == old(out)@ + play(clip, repeat),
{
    out.push(Action::Play(Cue { clip, repeat, blend_millis: BLEND_MILLIS }));
    assert(final(out)@ =~= old(out)@ + play(clip, repeat));
}

} // verus!
