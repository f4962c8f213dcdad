//! The catalogue of animation clips: their names, their numbers in the
//! protagonist's model, and the walk through all of them.

use crate::action::Clip;
use vstd::prelude::*;

verus! {

/// What is shown for a clip number that has no name.
pub open spec fn nameless() -> Seq<char> {
    "* DISCARDED ANIMATION*"@
}

impl Clip {
    /// The name of the clip, as a sequence of characters.
    pub open spec fn label(self) -> Seq<char> {
        match self {
            Clip::Swim => "SWIM"@,
            Clip::Tread => "TREAD"@,
            Clip::Fly => "FLY"@,
            Clip::PivotRight => "PIVOT_RIGHT"@,
            Clip::Crouch => "CROUCH"@,
            Clip::StrafeLeft => "STRAFE_LEFT"@,
            Clip::StrafeRight => "STRAFE_RIGHT"@,
            Clip::LeftShoulderAdvance => "LEFT_SHOULDER_ADVANCE"@,
            Clip::JogBack => "JOG_BACK"@,
            Clip::LegsUp => "LEGS_UP"@,
            Clip::IdleStretch => "IDLE_STRETCH"@,
            Clip::TurnLeft => "TURN_LEFT"@,
            Clip::TurnRight => "TURN_RIGHT"@,
        }
    }

    /// The name of the clip.
    pub fn name(self) -> (name: &'static str)
        ensures
            name@ == self.label(),
    {
        match self {
            Clip::Swim => "SWIM",
            Clip::Tread => "TREAD",
            Clip::Fly => "FLY",
            Clip::PivotRight => "PIVOT_RIGHT",
            Clip::Crouch => "CROUCH",
            Clip::StrafeLeft => "STRAFE_LEFT",
            Clip::StrafeRight => "STRAFE_RIGHT",
            Clip::LeftShoulderAdvance => "LEFT_SHOULDER_ADVANCE",
            Clip::JogBack => "JOG_BACK",
            Clip::LegsUp => "LEGS_UP",
            Clip::IdleStretch => "IDLE_STRETCH",
            Clip::TurnLeft => "TURN_LEFT",
            Clip::TurnRight => "TURN_RIGHT",
        }
    }
}

/// One line of the catalogue: a clip and its number in the model.
#[derive(Clone, Copy, Debug, PartialEq, Eq, Hash, Structural)]
pub struct Scene {
    pub clip: Clip,
    pub number: usize,
}

/// Line `at` is the first line about `clip`.
pub open spec fn leads(lines: Seq<Scene>, at: int, clip: Clip) -> bool {
    &&& 0 <= at < lines.len()
    &&& lines[at].clip == clip
    &&& forall|before: int| 0 <= before < at ==> lines[before].clip != clip
}

/// Line `at` is the first line that carries `number`.
pub open spec fn heads(lines: Seq<Scene>, at: int, number: usize) -> bool {
    &&& 0 <= at < lines.len()
    &&& lines[at].number == number
    &&& forall|before: int| 0 <= before < at ==> lines[before].number != number
}

/// No line is about `clip`.
pub open spec fn lacks(lines: Seq<Scene>, clip: Clip) -> bool {
    forall|at: int| 0 <= at < lines.len() ==> lines[at].clip != clip
}

/// No line carries `number`.
pub open spec fn skips(lines: Seq<Scene>, number: usize) -> bool {
    forall|at: int| 0 <= at < lines.len() ==> lines[at].number != number
}

/// The catalogue: which clip has which number. Where two lines are about
/// one clip or carry one number, the earlier line counts.
pub struct Scenes {
    lines: Vec<Scene>,
}

impl View for Scenes {
    type V = Seq<Scene>;

    closed spec fn view(&self) -> Seq<Scene> {
        self.lines@
    }
}

impl Scenes {
    /// The catalogue with the given lines.
    pub fn new(lines: Vec<Scene>) -> (scenes: Scenes)
        ensures
            scenes@ == lines@,
    {
        Scenes { lines }
    }

    /// Looks up the number of `clip`.
    pub fn get(&self, clip: Clip) -> (number: Option<usize>)
        ensures
            match number {
                Some(found) => exists|at: int| leads(self@, at, clip) && self@[at].number == found,
                None => lacks(self@, clip),
            },
    {
        let mut i: usize = 0;
        while i < self.lines.len()
            invariant
                i <= self.lines.len(),
                forall|before: int| 0 <= before < i ==> self@[before].clip != clip,
            decreases self.lines.len() - i,
        {
            if self.lines[i].clip == clip {
                assert(leads(self@, i as int, clip));
                return Some(self.lines[i].number);
            }
            i += 1;
        }
        None
    }

    /// Looks up the clip with `number`.
    pub fn find(&self, number: usize) -> (clip: Option<Clip>)
        ensures
            match clip {
                Some(found) => exists|at: int| heads(self@, at, number) && self@[at].clip == found,
                None => skips(self@, number),
            },
    {
        let mut i: usize = 0;
        while i < self.lines.len()
            invariant
                i <= self.lines.len(),
                forall|before: int| 0 <= before < i ==> self@[before].number != number,
            decreases self.lines.len() - i,
        {
            if self.lines[i].number == number {
                assert(heads(self@, i as int, number));
                return Some(self.lines[i].clip);
            }
            i += 1;
        }
        None
    }

    /// The name shown for `number`: that of its clip, or the stand-in for
    /// numbers without one.
    pub fn title(&self, number: usize) -> (title: &'static str)
        ensures
            skips(self@, number) ==> title@ == nameless(),
            forall|at: int| heads(self@, at, number) ==> title@ == self@[at].clip.label(),
    {
        match self.find(number) {
            Some(clip) => clip.name(),
            None => "* DISCARDED ANIMATION*",
        }
    }
}

/// The number after `cursor` in a walk through `clips` clips that starts
/// over after the last.
pub open spec fn after(cursor: usize, clips: usize) -> int {
    (cursor + 1) % (clips as int)
}

/// Moves the walk through the clips one step on.
pub fn next_clip(cursor: usize, clips: usize) -> (next: usize)
    requires
        clips > 0,
    ensures
        next == after(cursor, clips),
        next < clips,
{
    let here = cursor % clips;
    let next = if here + 1 == clips {
        0
    } else {
        here + 1
    };
    assert(next == (cursor + 1) % (clips as int)) by (nonlinear_arith)
        requires
            clips > 0,
            here == cursor % clips,
            next == if here + 1 == clips {
                0
            } else {
                here + 1
            },
    ;
    next
}

} // verus!
