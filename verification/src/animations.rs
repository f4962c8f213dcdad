//! The practice floor: turning, walking and jumping, each with its clip.

use crate::action::{
    cue, given, play, push_play, Action, Clip, Cue, Hand, Heading, Repeat, HOP_IMPULSE,
    OPENING_BLEND_MILLIS, WALK_SPEED,
};
use crate::input::{keys_of, read_keys};
use crate::keys::{Key, KeyState, Keys};
use bevy::input::keyboard::KeyCode;
use bevy::input::ButtonInput;
use vstd::prelude::*;

verus! {

/// The pose a freshly loaded protagonist takes: a stretch, over and over,
/// blended in over `OPENING_BLEND_MILLIS`.
pub open spec fn opening_cue() -> Cue {
    Cue { clip: Clip::IdleStretch, repeat: Repeat::Forever, blend_millis: OPENING_BLEND_MILLIS }
}

/// The pose a freshly loaded protagonist takes.
pub fn opening_pose() -> (pose: Cue)
    ensures
        pose == opening_cue(),
{
    Cue { clip: Clip::IdleStretch, repeat: Repeat::Forever, blend_millis: OPENING_BLEND_MILLIS }
}

/// The clip of a turn to `hand`, and how often it plays.
pub open spec fn turn_cue(hand: Hand) -> Cue {
    match hand {
        Hand::Left => cue(Clip::TurnLeft, Repeat::Once),
        Hand::Right => cue(Clip::TurnRight, Repeat::Forever),
    }
}

/// Turning with `key`, to `hand`: one more step, and the turning clip
/// unless the protagonist walks.
pub open spec fn turn_actions(keys: Keys, key: Key, hand: Hand) -> Seq<Action> {
    given(
        keys.pressed.contains(key),
        seq![Action::Spin(hand)] + given(
            !keys.pressed.contains(Key::W),
            seq![Action::Play(turn_cue(hand))],
        ),
    )
}

/// Walking: the advance when forward goes down, travel while it is held,
/// the crouch and a full stop when it comes up.
pub open spec fn walk_actions(keys: Keys) -> Seq<Action> {
    given(keys.just_pressed.contains(Key::W), play(Clip::LeftShoulderAdvance, Repeat::Forever))
        + given(
        keys.pressed.contains(Key::W),
        seq![(Action::Drive { heading: Heading::Ahead, speed: WALK_SPEED, keep_fall: false })],
    ) + given(
        keys.just_released.contains(Key::W),
        play(Clip::Crouch, Repeat::Once).push(Action::Stop),
    )
}

/// Jumping: the crouch when space goes down, the hop when it comes up.
pub open spec fn jump_actions(keys: Keys) -> Seq<Action> {
    given(keys.just_pressed.contains(Key::Space), play(Clip::Crouch, Repeat::Once)) + given(
        keys.just_released.contains(Key::Space),
        play(Clip::LegsUp, Repeat::Once).push(Action::Impulse { up: HOP_IMPULSE }),
    )
}

/// Everything one animation player calls for in one frame, in order.
pub open spec fn player_script(keys: Keys) -> Seq<Action> {
    turn_actions(keys, Key::A, Hand::Left) + turn_actions(keys, Key::D, Hand::Right)
        + walk_actions(keys) + jump_actions(keys) + given(
        keys.just_pressed.contains(Key::Tab),
        seq![Action::NextClip],
    )
}

/// Whether the keys ask for the game to start over: R goes down while the
/// left command key or the left control key is held.
pub open spec fn reset_chord(keys: Keys) -> bool {
    keys.just_pressed.contains(Key::R) && (keys.pressed.contains(Key::SuperLeft)
        || keys.pressed.contains(Key::ControlLeft))
}

/// What the practice floor can ask for: turning, a clip, travel, a full
/// stop, a hop, or the next clip.
pub open spec fn practised(action: Action) -> bool {
    action is Spin || action is Play || action is Drive || action == Action::Stop
        || action is Impulse || action == Action::NextClip
}

/// Each of `actions` is `practised`, and there are at most `most`.
pub open spec fn neat(actions: Seq<Action>, most: nat) -> bool {
    &&& actions.len() <= most
    &&& forall|at: int| 0 <= at < actions.len() ==> practised(#[trigger] actions[at])
}

proof fn lemma_neat_add(first: Seq<Action>, most_first: nat, second: Seq<Action>, most_second: nat)
    requires
        neat(first, most_first),
        neat(second, most_second),
    ensures
        neat(first + second, most_first + most_second),
{
}

/// A player on the practice floor calls for at most eleven actions in one
/// frame, each of them `practised`.
pub proof fn lemma_practice_script(keys: Keys)
    ensures
        neat(player_script(keys), 11),
{
    let turn: nat = if coasts(keys) {
        2
    } else {
        1
    };
    let steps: nat = if coasts(keys) {
        3
    } else {
        4
    };
    let left = turn_actions(keys, Key::A, Hand::Left);
    let right = turn_actions(keys, Key::D, Hand::Right);
    let walk = walk_actions(keys);
    let hop = jump_actions(keys);
    let next = given(keys.just_pressed.contains(Key::Tab), seq![Action::NextClip]);
    assert(neat(left, turn));
    assert(neat(right, turn));
    assert(neat(walk, steps));
    assert(neat(hop, 3));
    assert(neat(next, 1));
    lemma_neat_add(left, turn, right, turn);
    lemma_neat_add(left + right, 2 * turn, walk, steps);
    lemma_neat_add(left + right + walk, 2 * turn + steps, hop, 3);
    lemma_neat_add(left + right + walk + hop, 2 * turn + steps + 3, next, 1);
}

/// While no key is touched, a player on the practice floor calls for
/// nothing.
pub proof fn lemma_quiet_practice(keys: Keys)
    requires
        keys.pressed == Set::<Key>::empty(),
        keys.just_pressed == Set::<Key>::empty(),
        keys.just_released == Set::<Key>::empty(),
    ensures
        player_script(keys) == Seq::<Action>::empty(),
{
    assert(player_script(keys) =~= Seq::<Action>::empty());
}

/// Forward is not held.
pub open spec fn coasts(keys: Keys) -> bool {
    !keys.pressed.contains(Key::W)
}

fn push_turn(out: &mut Vec<Action>, keys: &KeyState, key: Key, hand: Hand)
    ensures
        final(out)@ == old(out)@ + turn_actions(keys@, key, hand),
{
    if keys.pressed(key) {
        out.push(Action::Spin(hand));
        if !keys.pressed(Key::W) {
            match hand {
                Hand::Left => push_play(out, Clip::TurnLeft, Repeat::Once),
                Hand::Right => push_play(out, Clip::TurnRight, Repeat::Forever),
            }
        }
    }
    assert(final(out)@ =~= old(out)@ + turn_actions(keys@, key, hand));
}

fn push_walk(out: &mut Vec<Action>, keys: &KeyState)
    ensures
        final(out)@ == old(out)@ + walk_actions(keys@),
{
    if keys.just_pressed(Key::W) {
        push_play(out, Clip::LeftShoulderAdvance, Repeat::Forever);
    }
    if keys.pressed(Key::W) {
        out.push(Action::Drive { heading: Heading::Ahead, speed: WALK_SPEED, keep_fall: false });
    }
    if keys.just_released(Key::W) {
        push_play(out, Clip::Crouch, Repeat::Once);
        out.push(Action::Stop);
    }
    assert(final(out)@ =~= old(out)@ + walk_actions(keys@));
}

fn push_jump(out: &mut Vec<Action>, keys: &KeyState)
    ensures
        final(out)@ == old(out)@ + jump_actions(keys@),
{
    if keys.just_pressed(Key::Space) {
        push_play(out, Clip::Crouch, Repeat::Once);
    }
    if keys.just_released(Key::Space) {
        push_play(out, Clip::LegsUp, Repeat::Once);
        out.push(Action::Impulse { up: HOP_IMPULSE });
    }
    assert(final(out)@ =~= old(out)@ + jump_actions(keys@));
}

/// What one animation player calls for in this frame, given a snapshot of
/// the keyboard.
pub fn player_actions(keys: &KeyState) -> (actions: Vec<Action>)
    ensures
        actions@ == player_script(keys@),
{
    let mut out: Vec<Action> = Vec::new();
    push_turn(&mut out, keys, Key::A, Hand::Left);
    push_turn(&mut out, keys, Key::D, Hand::Right);
    push_walk(&mut out, keys);
    push_jump(&mut out, keys);
    if keys.just_pressed(Key::Tab) {
        out.push(Action::NextClip);
    }
    assert(out@ =~= player_script(keys@));
    out
}

/// What one animation player calls for in this frame.
pub fn keyboard_animation_control(input: &ButtonInput<KeyCode>) -> (actions: Vec<Action>)
    ensures
        actions@ == player_script(keys_of(*input)),
{
    let keys = read_keys(input);
    player_actions(&keys)
}

/// Whether the snapshot asks for the game to start over.
pub fn reset_requested(keys: &KeyState) -> (reset: bool)
    ensures
        reset == reset_chord(keys@),
{
    let command_r = keys.pressed(Key::SuperLeft) && keys.just_pressed(Key::R);
    let control_r = keys.pressed(Key::ControlLeft) && keys.just_pressed(Key::R);
    command_r || control_r
}

/// Whether the keyboard asks for the game to start over.
pub fn reset_game_on_command_r(input: &ButtonInput<KeyCode>) -> (reset: bool)
    ensures
        reset == reset_chord(keys_of(*input)),
{
    let keys = read_keys(input);
    reset_requested(&keys)
}

} // verus!
