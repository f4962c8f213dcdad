//! The open world: a walled tank with a pool in it, dry land around it.
//!
//! Once per frame and animation player the game asks
//! [`keyboard_animation_control`] what to do, carries the actions out in
//! order, and closes the frame with [`finish_frame`].

use crate::action::{
    given, play, push_play, Action, Ambience, Clip, Hand, Heading, Repeat, Rgb, DROP,
    HOP_IMPULSE, RAISE, RUN_SPEED, STRAFE_SPEED, SWIM_SPEED, WALK_SPEED,
};
use crate::input::{keys_of, read_keys};
use crate::keys::{Key, KeyState, Keys};
use crate::place::{Place, Side};
use bevy::input::keyboard::KeyCode;
use bevy::input::ButtonInput;
use vstd::prelude::*;

verus! {

/// Downward pull where there is gravity, in hundredths of a unit per second
/// squared.
pub const GRAVITY: u32 = 981;

/// What the engine reports about the protagonist and one animation player.
#[derive(Clone, Copy, Debug, PartialEq, Eq, Structural)]
pub struct Posture {
    /// The player has the swim clip among its animations.
    pub swimming: bool,
    /// The player has the tread clip among its animations.
    pub treading: bool,
    /// The player is playing the fly clip.
    pub flying: bool,
    /// The protagonist has a collider.
    pub colliding: bool,
    /// The vertical velocity against `FALL_SPEED`; `None` unless exactly one
    /// velocity and one falling record belong to the protagonist.
    pub descent: Option<Side>,
}

/// The record of whether the protagonist was falling when last looked at.
#[derive(Clone, Copy, Debug, PartialEq, Eq, Structural)]
pub struct FallingState {
    was_falling: bool,
}

impl View for FallingState {
    type V = bool;

    closed spec fn view(&self) -> bool {
        self.was_falling
    }
}

impl FallingState {
    /// The record of a protagonist that was not falling.
    pub fn new() -> (state: FallingState)
        ensures
            !state@,
    {
        FallingState { was_falling: false }
    }

    /// Writes down whether the protagonist is falling.
    pub fn record(&mut self, falling: bool)
        ensures
            final(self)@ == falling,
    {
        self.was_falling = falling;
    }

    /// Whether the protagonist was falling when last looked at.
    pub fn was_falling(&self) -> (falling: bool)
        ensures
            falling == self@,
    {
        self.was_falling
    }
}

/// Neither forward nor backward is held.
pub open spec fn coasting(keys: Keys) -> bool {
    !keys.pressed.contains(Key::W) && !keys.pressed.contains(Key::S)
}

/// Whether a protagonist with this posture is falling on dry land.
pub open spec fn falls(speed: Side, colliding: bool) -> bool {
    speed == Side::Below && !colliding
}

/// The clip that suits the medium: swimming or treading in the pool, flying
/// while falling on dry land. A clip that already runs is not started again.
pub open spec fn pose_actions(keys: Keys, wet: bool, posture: Posture) -> Seq<Action> {
    if wet {
        if coasting(keys) {
            given(!posture.treading, play(Clip::Tread, Repeat::Forever).push(Action::ResumeAll))
        } else {
            given(!posture.swimming, play(Clip::Swim, Repeat::Forever).push(Action::ResumeAll))
        }
    } else {
        match posture.descent {
            None => Seq::empty(),
            Some(speed) => given(
                falls(speed, posture.colliding),
                given(!posture.flying, play(Clip::Fly, Repeat::Forever)).push(Action::HaltLevel),
            ).push(Action::Falling(falls(speed, posture.colliding))),
        }
    }
}

/// Turning on the spot with `key`, to `hand`.
pub open spec fn turn_actions(keys: Keys, wet: bool, key: Key, hand: Hand) -> Seq<Action> {
    let standing = !wet && coasting(keys);
    given(
        keys.pressed.contains(key),
        seq![Action::Face(hand)] + given(standing, play(Clip::PivotRight, Repeat::Forever)),
    ) + given(keys.just_released.contains(key), given(standing, play(Clip::Crouch, Repeat::Once)))
}

/// The clip of a sidestep to `hand`.
pub open spec fn strafe_clip(hand: Hand) -> Clip {
    match hand {
        Hand::Left => Clip::StrafeLeft,
        Hand::Right => Clip::StrafeRight,
    }
}

/// The heading of a sidestep to `hand`.
pub open spec fn strafe_heading(hand: Hand) -> Heading {
    match hand {
        Hand::Left => Heading::LeftLevel,
        Hand::Right => Heading::RightLevel,
    }
}

/// What ends a movement: the crouch on dry land, and a full stop.
pub open spec fn halt_actions(wet: bool) -> Seq<Action> {
    given(!wet, play(Clip::Crouch, Repeat::Once)).push(Action::Stop)
}

/// Sidestepping with `key`, to `hand`.
pub open spec fn strafe_actions(keys: Keys, wet: bool, key: Key, hand: Hand) -> Seq<Action> {
    given(
        keys.just_pressed.contains(key),
        given(!wet, play(strafe_clip(hand), Repeat::Forever)),
    ) + given(
        keys.pressed.contains(key),
        seq![
            (Action::Drive { heading: strafe_heading(hand), speed: STRAFE_SPEED, keep_fall: true }),
        ],
    ) + given(keys.just_released.contains(key), halt_actions(wet))
}

/// How the protagonist travels while forward is held.
pub open spec fn forward_drive(wet: bool, shift: bool) -> Action {
    if !wet {
        Action::Drive {
            heading: Heading::AheadLevel,
            speed: if shift {
                RUN_SPEED
            } else {
                WALK_SPEED
            },
            keep_fall: true,
        }
    } else if shift {
        Action::Drive { heading: Heading::Ahead, speed: SWIM_SPEED, keep_fall: false }
    } else {
        Action::Drive { heading: Heading::Up, speed: SWIM_SPEED, keep_fall: false }
    }
}

/// Going forward: walking or running on dry land; in the pool rising, or
/// with shift swimming ahead.
pub open spec fn forward_actions(keys: Keys, wet: bool) -> Seq<Action> {
    given(
        keys.just_pressed.contains(Key::W),
        play(
            if wet {
                Clip::Swim
            } else {
                Clip::LeftShoulderAdvance
            },
            Repeat::Forever,
        ),
    ) + given(
        keys.pressed.contains(Key::W),
        seq![forward_drive(wet, keys.pressed.contains(Key::ShiftLeft))],
    ) + given(keys.just_released.contains(Key::W), halt_actions(wet))
}

/// How the protagonist travels while backward is held.
pub open spec fn backward_drive(wet: bool) -> Action {
    if !wet {
        Action::Drive { heading: Heading::BackLevel, speed: WALK_SPEED, keep_fall: true }
    } else {
        Action::Drive { heading: Heading::Down, speed: SWIM_SPEED, keep_fall: false }
    }
}

/// Going backward: jogging back on dry land, sinking in the pool.
pub open spec fn backward_actions(keys: Keys, wet: bool) -> Seq<Action> {
    given(keys.just_pressed.contains(Key::S), given(!wet, play(Clip::JogBack, Repeat::Forever)))
        + given(keys.pressed.contains(Key::S), seq![backward_drive(wet)]) + given(
        keys.just_released.contains(Key::S),
        halt_actions(wet),
    )
}

/// Jumping: the backpack lamp when space goes down, the hop when it comes up.
pub open spec fn jump_actions(keys: Keys) -> Seq<Action> {
    given(keys.just_pressed.contains(Key::Space), seq![Action::BackpackLight]) + given(
        keys.just_released.contains(Key::Space),
        play(Clip::LegsUp, Repeat::Once).push(Action::Impulse { up: HOP_IMPULSE }),
    )
}

/// The single-key commands: quick ways down and up, night and alarm light,
/// the next clip, and the charge.
pub open spec fn command_actions(keys: Keys) -> Seq<Action> {
    given(keys.just_pressed.contains(Key::V), seq![(Action::Lift { by: DROP })]) + given(
        keys.just_pressed.contains(Key::B),
        seq![(Action::Lift { by: RAISE })],
    ) + given(keys.just_pressed.contains(Key::K), seq![Action::Light(Ambience::Night)]) + given(
        keys.just_pressed.contains(Key::L),
        seq![Action::Light(Ambience::Alarm)],
    ) + given(keys.just_pressed.contains(Key::Tab), seq![Action::NextClip]) + given(
        keys.just_pressed.contains(Key::C),
        seq![Action::Charge] + play(Clip::Crouch, Repeat::Once),
    )
}

/// Everything one animation player calls for in one frame, in order.
pub open spec fn player_script(keys: Keys, wet: bool, posture: Posture) -> Seq<Action> {
    pose_actions(keys, wet, posture) + turn_actions(keys, wet, Key::A, Hand::Left) + turn_actions(
        keys,
        wet,
        Key::D,
        Hand::Right,
    ) + strafe_actions(keys, wet, Key::Q, Hand::Left) + strafe_actions(
        keys,
        wet,
        Key::E,
        Hand::Right,
    ) + forward_actions(keys, wet) + backward_actions(keys, wet) + jump_actions(keys)
        + command_actions(keys)
}

/// What closes a frame: no spin unless a turn key is held, and the light of
/// the medium.
pub open spec fn closing_script(keys: Keys, wet: bool) -> Seq<Action> {
    given(
        !keys.pressed.contains(Key::A) && !keys.pressed.contains(Key::D),
        seq![Action::StillSpin],
    ).push(
        Action::Light(
            if wet {
                Ambience::Underwater
            } else {
                Ambience::Night
            },
        ),
    )
}

/// What the place makes of the world: whether things have weight, and the
/// colour of the sun.
#[derive(Clone, Copy, Debug, PartialEq, Eq, Structural)]
pub struct Climate {
    /// Gravity pulls at `GRAVITY`; without it nothing pulls at all.
    pub gravity: bool,
    /// The colour of the sun light.
    pub sun: Rgb,
}

/// The sun over open land.
pub open spec fn red_sun() -> Rgb {
    Rgb { red: 100, green: 0, blue: 0 }
}

/// The sun seen from the ground plane and from below it.
pub open spec fn blue_sun() -> Rgb {
    Rgb { red: 24, green: 62, blue: 92 }
}

/// Things have weight wherever the protagonist does not float; the sun is
/// red above the ground plane and blue elsewhere.
pub open spec fn climate_of(place: Place) -> Climate {
    Climate {
        gravity: !place.floating(),
        sun: if place.in_the_open() {
            red_sun()
        } else {
            blue_sun()
        },
    }
}

/// Gravity and sun colour for where the protagonist is.
pub fn update_gravity_and_light(place: &Place) -> (climate: Climate)
    ensures
        climate == climate_of(*place),
{
    let outside_walls = place.x.high_wall.above() || place.x.low_wall.below()
        || place.z.high_wall.above() || place.z.low_wall.below();
    let underwater = place.is_floating();
    let sun = if place.y.sea_level.above() {
        Rgb { red: 100, green: 0, blue: 0 }
    } else {
        Rgb { red: 24, green: 62, blue: 92 }
    };
    Climate { gravity: outside_walls || !underwater, sun }
}

/// Where the controls make the protagonist swim, nothing has weight and the
/// sun is blue.
pub proof fn lemma_pool_is_weightless(place: Place)
    requires
        place.consistent(),
        place.swimming(),
    ensures
        !climate_of(place).gravity,
        climate_of(place).sun == blue_sun(),
{
}

/// No key is down, went down or came up.
pub open spec fn quiet(keys: Keys) -> bool {
    &&& keys.pressed == Set::<Key>::empty()
    &&& keys.just_pressed == Set::<Key>::empty()
    &&& keys.just_released == Set::<Key>::empty()
}

/// A clip of the pool: one that may start while the protagonist swims.
pub open spec fn pool_clip(clip: Clip) -> bool {
    clip == Clip::Swim || clip == Clip::Tread || clip == Clip::LegsUp || clip == Clip::Crouch
}

/// On dry land, with no key touched and no fall to look at, a player calls
/// for nothing.
pub proof fn lemma_quiet_frame(keys: Keys, posture: Posture)
    requires
        quiet(keys),
        posture.descent is None,
    ensures
        player_script(keys, false, posture) == Seq::<Action>::empty(),
{
    assert(player_script(keys, false, posture) =~= Seq::<Action>::empty());
}

/// What holds of every action a player calls for: in the pool only clips of
/// the pool start, on dry land neither the swim nor the tread does, a full
/// stop needs a movement key to come up, and only travel in the pool
/// overrides the fall.
pub open spec fn fitting(keys: Keys, wet: bool, action: Action) -> bool {
    &&& action matches Action::Play(cue) ==> if wet {
        pool_clip(cue.clip)
    } else {
        cue.clip != Clip::Swim && cue.clip != Clip::Tread
    }
    &&& action == Action::Stop ==> keys.just_released.contains(Key::Q)
        || keys.just_released.contains(Key::E) || keys.just_released.contains(Key::W)
        || keys.just_released.contains(Key::S)
    &&& action matches Action::Drive { keep_fall, .. } ==> keep_fall || wet
    &&& action matches Action::Falling(_) ==> !wet
}

/// `fitting` holds of each of `actions`, and there are at most `most`.
pub open spec fn tidy(keys: Keys, wet: bool, actions: Seq<Action>, most: nat) -> bool {
    &&& actions.len() <= most
    &&& forall|at: int| 0 <= at < actions.len() ==> fitting(keys, wet, #[trigger] actions[at])
}

proof fn lemma_tidy_add(
    keys: Keys,
    wet: bool,
    first: Seq<Action>,
    most_first: nat,
    second: Seq<Action>,
    most_second: nat,
)
    requires
        tidy(keys, wet, first, most_first),
        tidy(keys, wet, second, most_second),
    ensures
        tidy(keys, wet, first + second, most_first + most_second),
{
}

proof fn lemma_tidy_pose(keys: Keys, wet: bool, posture: Posture)
    ensures
        tidy(keys, wet, pose_actions(keys, wet, posture), 3),
{
}

proof fn lemma_tidy_turn(keys: Keys, wet: bool, key: Key, hand: Hand)
    ensures
        tidy(
            keys,
            wet,
            turn_actions(keys, wet, key, hand),
            if coasting(keys) {
                3
            } else {
                1
            },
        ),
{
}

proof fn lemma_tidy_strafe(keys: Keys, wet: bool, key: Key, hand: Hand)
    requires
        key == Key::Q || key == Key::E,
    ensures
        tidy(keys, wet, strafe_actions(keys, wet, key, hand), 4),
{
}

proof fn lemma_tidy_forward(keys: Keys, wet: bool)
    ensures
        tidy(
            keys,
            wet,
            forward_actions(keys, wet),
            if coasting(keys) {
                3
            } else {
                4
            },
        ),
{
}

proof fn lemma_tidy_backward(keys: Keys, wet: bool)
    ensures
        tidy(
            keys,
            wet,
            backward_actions(keys, wet),
            if coasting(keys) {
                3
            } else {
                4
            },
        ),
{
}

proof fn lemma_tidy_jump(keys: Keys, wet: bool)
    ensures
        tidy(keys, wet, jump_actions(keys), 3),
{
}

proof fn lemma_tidy_commands(keys: Keys, wet: bool)
    ensures
        tidy(keys, wet, command_actions(keys), 7),
{
    let drop = given(keys.just_pressed.contains(Key::V), seq![(Action::Lift { by: DROP })]);
    let raise = given(keys.just_pressed.contains(Key::B), seq![(Action::Lift { by: RAISE })]);
    let night = given(keys.just_pressed.contains(Key::K), seq![Action::Light(Ambience::Night)]);
    let alarm = given(keys.just_pressed.contains(Key::L), seq![Action::Light(Ambience::Alarm)]);
    let next = given(keys.just_pressed.contains(Key::Tab), seq![Action::NextClip]);
    let charge = given(
        keys.just_pressed.contains(Key::C),
        seq![Action::Charge] + play(Clip::Crouch, Repeat::Once),
    );
    assert(tidy(keys, wet, drop, 1));
    assert(tidy(keys, wet, raise, 1));
    assert(tidy(keys, wet, night, 1));
    assert(tidy(keys, wet, alarm, 1));
    assert(tidy(keys, wet, next, 1));
    assert(tidy(keys, wet, charge, 2));
    lemma_tidy_add(keys, wet, drop, 1, raise, 1);
    lemma_tidy_add(keys, wet, drop + raise, 2, night, 1);
    lemma_tidy_add(keys, wet, drop + raise + night, 3, alarm, 1);
    lemma_tidy_add(keys, wet, drop + raise + night + alarm, 4, next, 1);
    lemma_tidy_add(keys, wet, drop + raise + night + alarm + next, 5, charge, 2);
}

/// A player never calls for more than thirty-three actions in one frame,
/// and each of them is `fitting`.
pub proof fn lemma_script_is_tidy(keys: Keys, wet: bool, posture: Posture)
    ensures
        tidy(keys, wet, player_script(keys, wet, posture), 33),
{
    let turn: nat = if coasting(keys) {
        3
    } else {
        1
    };
    let walk: nat = if coasting(keys) {
        3
    } else {
        4
    };
    let left = turn_actions(keys, wet, Key::A, Hand::Left);
    let right = turn_actions(keys, wet, Key::D, Hand::Right);
    let to_left = strafe_actions(keys, wet, Key::Q, Hand::Left);
    let to_right = strafe_actions(keys, wet, Key::E, Hand::Right);
    lemma_tidy_pose(keys, wet, posture);
    lemma_tidy_turn(keys, wet, Key::A, Hand::Left);
    lemma_tidy_turn(keys, wet, Key::D, Hand::Right);
    lemma_tidy_strafe(keys, wet, Key::Q, Hand::Left);
    lemma_tidy_strafe(keys, wet, Key::E, Hand::Right);
    lemma_tidy_forward(keys, wet);
    lemma_tidy_backward(keys, wet);
    lemma_tidy_jump(keys, wet);
    lemma_tidy_commands(keys, wet);
    let s1 = pose_actions(keys, wet, posture);
    let s2 = s1 + left;
    let s3 = s2 + right;
    let s4 = s3 + to_left;
    let s5 = s4 + to_right;
    let s6 = s5 + forward_actions(keys, wet);
    let s7 = s6 + backward_actions(keys, wet);
    let s8 = s7 + jump_actions(keys);
    lemma_tidy_add(keys, wet, s1, 3, left, turn);
    lemma_tidy_add(keys, wet, s2, 3 + turn, right, turn);
    lemma_tidy_add(keys, wet, s3, 3 + 2 * turn, to_left, 4);
    lemma_tidy_add(keys, wet, s4, 7 + 2 * turn, to_right, 4);
    lemma_tidy_add(keys, wet, s5, 11 + 2 * turn, forward_actions(keys, wet), walk);
    lemma_tidy_add(keys, wet, s6, 11 + 2 * turn + walk, backward_actions(keys, wet), walk);
    lemma_tidy_add(keys, wet, s7, 11 + 2 * turn + 2 * walk, jump_actions(keys), 3);
    lemma_tidy_add(keys, wet, s8, 14 + 2 * turn + 2 * walk, command_actions(keys), 7);
}

/// A frame closes with nothing but the stilling of the spin and the light
/// of the medium, and the light comes last.
pub proof fn lemma_closing_script(keys: Keys, wet: bool)
    ensures
        1 <= closing_script(keys, wet).len() <= 2,
        closing_script(keys, wet).last() is Light,
        closing_script(keys, wet).len() == 2 ==> closing_script(keys, wet)[0] == Action::StillSpin,
{
}

fn push_pose(out: &mut Vec<Action>, keys: &KeyState, wet: bool, posture: &Posture)
    ensures
        final(out)@ == old(out)@ + pose_actions(keys@, wet, *posture),
{
    if wet {
        if keys.pressed(Key::W) || keys.pressed(Key::S) {
            if !posture.swimming {
                push_play(out, Clip::Swim, Repeat::Forever);
                out.push(Action::ResumeAll);
            }
        } else {
            if !posture.treading {
                push_play(out, Clip::Tread, Repeat::Forever);
                out.push(Action::ResumeAll);
            }
        }
    } else {
        match posture.descent {
            None => {},
            Some(speed) => {
                let falling = speed.below() && !posture.colliding;
                if falling {
                    if !posture.flying {
                        push_play(out, Clip::Fly, Repeat::Forever);
                    }
                    out.push(Action::HaltLevel);
                }
                out.push(Action::Falling(falling));
            },
        }
    }
    assert(final(out)@ =~= old(out)@ + pose_actions(keys@, wet, *posture));
}

fn push_turn(out: &mut Vec<Action>, keys: &KeyState, wet: bool, key: Key, hand: Hand)
    ensures
        final(out)@ == old(out)@ + turn_actions(keys@, wet, key, hand),
{
    let standing = !wet && !keys.pressed(Key::W) && !keys.pressed(Key::S);
    if keys.pressed(key) {
        out.push(Action::Face(hand));
        if standing {
            push_play(out, Clip::PivotRight, Repeat::Forever);
        }
    }
    if keys.just_released(key) {
        if standing {
            push_play(out, Clip::Crouch, Repeat::Once);
        }
    }
    assert(final(out)@ =~= old(out)@ + turn_actions(keys@, wet, key, hand));
}

fn push_halt(out: &mut Vec<Action>, wet: bool)
    ensures
        final(out)@ == old(out)@ + halt_actions(wet),
{
    if !wet {
        push_play(out, Clip::Crouch, Repeat::Once);
    }
    out.push(Action::Stop);
    assert(final(out)@ =~= old(out)@ + halt_actions(wet));
}

fn push_strafe(out: &mut Vec<Action>, keys: &KeyState, wet: bool, key: Key, hand: Hand)
    ensures
        final(out)@ == old(out)@ + strafe_actions(keys@, wet, key, hand),
{
    if keys.just_pressed(key) {
        if !wet {
            let clip = match hand {
                Hand::Left => Clip::StrafeLeft,
                Hand::Right => Clip::StrafeRight,
            };
            push_play(out, clip, Repeat::Forever);
        }
    }
    if keys.pressed(key) {
        let heading = match hand {
            Hand::Left => Heading::LeftLevel,
            Hand::Right => Heading::RightLevel,
        };
        out.push(Action::Drive { heading, speed: STRAFE_SPEED, keep_fall: true });
    }
    if keys.just_released(key) {
        push_halt(out, wet);
    }
    assert(final(out)@ =~= old(out)@ + strafe_actions(keys@, wet, key, hand));
}

fn push_forward(out: &mut Vec<Action>, keys: &KeyState, wet: bool)
    ensures
        final(out)@ == old(out)@ + forward_actions(keys@, wet),
{
    if keys.just_pressed(Key::W) {
        if wet {
            push_play(out, Clip::Swim, Repeat::Forever);
        } else {
            push_play(out, Clip::LeftShoulderAdvance, Repeat::Forever);
        }
    }
    if keys.pressed(Key::W) {
        let shift = keys.pressed(Key::ShiftLeft);
        if !wet {
            let speed = if shift {
                RUN_SPEED
            } else {
                WALK_SPEED
            };
            out.push(Action::Drive { heading: Heading::AheadLevel, speed, keep_fall: true });
        } else if shift {
            out.push(Action::Drive { heading: Heading::Ahead, speed: SWIM_SPEED, keep_fall: false });
        } else {
            out.push(Action::Drive { heading: Heading::Up, speed: SWIM_SPEED, keep_fall: false });
        }
    }
    if keys.just_released(Key::W) {
        push_halt(out, wet);
    }
    assert(final(out)@ =~= old(out)@ + forward_actions(keys@, wet));
}

fn push_backward(out: &mut Vec<Action>, keys: &KeyState, wet: bool)
    ensures
        final(out)@ == old(out)@ + backward_actions(keys@, wet),
{
    if keys.just_pressed(Key::S) {
        if !wet {
            push_play(out, Clip::JogBack, Repeat::Forever);
        }
    }
    if keys.pressed(Key::S) {
        if !wet {
            out.push(
                Action::Drive { heading: Heading::BackLevel, speed: WALK_SPEED, keep_fall: true },
            );
        } else {
            out.push(Action::Drive { heading: Heading::Down, speed: SWIM_SPEED, keep_fall: false });
        }
    }
    if keys.just_released(Key::S) {
        push_halt(out, wet);
    }
    assert(final(out)@ =~= old(out)@ + backward_actions(keys@, wet));
}

fn push_jump(out: &mut Vec<Action>, keys: &KeyState)
    ensures
        final(out)@ == old(out)@ + jump_actions(keys@),
{
    if keys.just_pressed(Key::Space) {
        out.push(Action::BackpackLight);
    }
    if keys.just_released(Key::Space) {
        push_play(out, Clip::LegsUp, Repeat::Once);
        out.push(Action::Impulse { up: HOP_IMPULSE });
    }
    assert(final(out)@ =~= old(out)@ + jump_actions(keys@));
}

fn push_commands(out: &mut Vec<Action>, keys: &KeyState)
    ensures
        final(out)@ == old(out)@ + command_actions(keys@),
{
    if keys.just_pressed(Key::V) {
        out.push(Action::Lift { by: DROP });
    }
    if keys.just_pressed(Key::B) {
        out.push(Action::Lift { by: RAISE });
    }
    if keys.just_pressed(Key::K) {
        out.push(Action::Light(Ambience::Night));
    }
    if keys.just_pressed(Key::L) {
        out.push(Action::Light(Ambience::Alarm));
    }
    if keys.just_pressed(Key::Tab) {
        out.push(Action::NextClip);
    }
    if keys.just_pressed(Key::C) {
        out.push(Action::Charge);
        push_play(out, Clip::Crouch, Repeat::Once);
    }
    assert(final(out)@ =~= old(out)@ + command_actions(keys@));
}

/// What one animation player calls for in this frame, given a snapshot of
/// the keyboard.
pub fn player_actions(keys: &KeyState, place: &Place, posture: &Posture) -> (actions: Vec<Action>)
    ensures
        actions@ == player_script(keys@, place.swimming(), *posture),
{
    let wet = place.is_swimming();
    let mut out: Vec<Action> = Vec::new();
    push_pose(&mut out, keys, wet, posture);
    push_turn(&mut out, keys, wet, Key::A, Hand::Left);
    push_turn(&mut out, keys, wet, Key::D, Hand::Right);
    push_strafe(&mut out, keys, wet, Key::Q, Hand::Left);
    push_strafe(&mut out, keys, wet, Key::E, Hand::Right);
    push_forward(&mut out, keys, wet);
    push_backward(&mut out, keys, wet);
    push_jump(&mut out, keys);
    push_commands(&mut out, keys);
    assert(out@ =~= player_script(keys@, wet, *posture));
    out
}

/// What closes the frame, given a snapshot of the keyboard.
pub fn closing_actions(keys: &KeyState, place: &Place) -> (actions: Vec<Action>)
    ensures
        actions@ == closing_script(keys@, place.swimming()),
{
    let mut out: Vec<Action> = Vec::new();
    if !keys.pressed(Key::A) && !keys.pressed(Key::D) {
        out.push(Action::StillSpin);
    }
    if place.is_swimming() {
        out.push(Action::Light(Ambience::Underwater));
    } else {
        out.push(Action::Light(Ambience::Night));
    }
    assert(out@ =~= closing_script(keys@, place.swimming()));
    out
}

/// What one animation player calls for in this frame.
pub fn keyboard_animation_control(
    input: &ButtonInput<KeyCode>,
    place: &Place,
    posture: &Posture,
) -> (actions: Vec<Action>)
    ensures
        actions@ == player_script(keys_of(*input), place.swimming(), *posture),
{
    let keys = read_keys(input);
    player_actions(&keys, place, posture)
}

/// What closes the frame, after every animation player has had its turn.
pub fn finish_frame(input: &ButtonInput<KeyCode>, place: &Place) -> (actions: Vec<Action>)
    ensures
        actions@ == closing_script(keys_of(*input), place.swimming()),
{
    let keys = read_keys(input);
    closing_actions(&keys, place)
}

} // verus!
