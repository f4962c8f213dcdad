//! The keys the game listens to, and a plain snapshot of their state.

use vstd::prelude::*;

verus! {

/// How many keys the game listens to.
pub const KEY_COUNT: usize = 17;

/// A key the game listens to, named as on a keyboard with the US layout.
#[derive(Clone, Copy, Debug, PartialEq, Eq, Hash, Structural)]
pub enum Key {
    W,
    A,
    S,
    D,
    Q,
    E,
    Space,
    ShiftLeft,
    ControlLeft,
    SuperLeft,
    Tab,
    V,
    B,
    K,
    L,
    C,
    R,
}

impl Key {
    /// Position of the key in the declaration order above.
    pub open spec fn ordinal(self) -> nat {
        match self {
            Key::W => 0,
            Key::A => 1,
            Key::S => 2,
            Key::D => 3,
            Key::Q => 4,
            Key::E => 5,
            Key::Space => 6,
            Key::ShiftLeft => 7,
            Key::ControlLeft => 8,
            Key::SuperLeft => 9,
            Key::Tab => 10,
            Key::V => 11,
            Key::B => 12,
            Key::K => 13,
            Key::L => 14,
            Key::C => 15,
            Key::R => 16,
        }
    }

    /// The key at a position; `Key::R` stands in for positions past the end.
    pub open spec fn at(i: nat) -> Key {
        if i == 0 {
            Key::W
        } else if i == 1 {
            Key::A
        } else if i == 2 {
            Key::S
        } else if i == 3 {
            Key::D
        } else if i == 4 {
            Key::Q
        } else if i == 5 {
            Key::E
        } else if i == 6 {
            Key::Space
        } else if i == 7 {
            Key::ShiftLeft
        } else if i == 8 {
            Key::ControlLeft
        } else if i == 9 {
            Key::SuperLeft
        } else if i == 10 {
            Key::Tab
        } else if i == 11 {
            Key::V
        } else if i == 12 {
            Key::B
        } else if i == 13 {
            Key::K
        } else if i == 14 {
            Key::L
        } else if i == 15 {
            Key::C
        } else {
            Key::R
        }
    }

    /// `ordinal` and `at` are inverse to each other on the seventeen keys.
    pub proof fn lemma_ordinal_at(key: Key)
        ensures
            key.ordinal() < KEY_COUNT,
            Key::at(key.ordinal()) == key,
    {
    }

    /// `at` followed by `ordinal` gives the position back.
    pub proof fn lemma_at_ordinal(i: nat)
        requires
            i < KEY_COUNT,
        ensures
            Key::at(i).ordinal() == i,
    {
    }

    /// Position of the key, as a number below `KEY_COUNT`.
    pub fn index(self) -> (i: usize)
        ensures
            i == self.ordinal(),
            i < KEY_COUNT,
    {
        match self {
            Key::W => 0,
            Key::A => 1,
            Key::S => 2,
            Key::D => 3,
            Key::Q => 4,
            Key::E => 5,
            Key::Space => 6,
            Key::ShiftLeft => 7,
            Key::ControlLeft => 8,
            Key::SuperLeft => 9,
            Key::Tab => 10,
            Key::V => 11,
            Key::B => 12,
            Key::K => 13,
            Key::L => 14,
            Key::C => 15,
            Key::R => 16,
        }
    }

    /// The key at position `i`, if there is one.
    pub fn from_index(i: usize) -> (key: Option<Key>)
        ensures
            key == if i < KEY_COUNT {
                Some(Key::at(i as nat))
            } else {
                None
            },
    {
        match i {
            0 => Some(Key::W),
            1 => Some(Key::A),
            2 => Some(Key::S),
            3 => Some(Key::D),
            4 => Some(Key::Q),
            5 => Some(Key::E),
            6 => Some(Key::Space),
            7 => Some(Key::ShiftLeft),
            8 => Some(Key::ControlLeft),
            9 => Some(Key::SuperLeft),
            10 => Some(Key::Tab),
            11 => Some(Key::V),
            12 => Some(Key::B),
            13 => Some(Key::K),
            14 => Some(Key::L),
            15 => Some(Key::C),
            16 => Some(Key::R),
            _ => None,
        }
    }
}

/// A set of keys.
#[derive(Clone, Copy, Debug)]
pub struct KeySet {
    slots: [bool; KEY_COUNT],
}

impl View for KeySet {
    type V = Set<Key>;

    closed spec fn view(&self) -> Set<Key> {
        Set::new(|key: Key| self.slots@[key.ordinal() as int])
    }
}

impl KeySet {
    /// The empty set.
    pub fn new() -> (set: KeySet)
        ensures
            set@ == Set::<Key>::empty(),
    {
        let set = KeySet { slots: [false; KEY_COUNT] };
        assert(set@ =~= Set::<Key>::empty());
        set
    }

    /// Whether `key` is in the set.
    pub fn contains(&self, key: Key) -> (found: bool)
        ensures
            found == self@.contains(key),
    {
        self.slots[key.index()]
    }

    /// Adds `key` to the set.
    pub fn insert(&mut self, key: Key)
        ensures
            final(self)@ == old(self)@.insert(key),
    {
        let i = key.index();
        self.slots[i] = true;
        assert(final(self)@ =~= old(self)@.insert(key));
    }

    /// Takes `key` out of the set.
    pub fn remove(&mut self, key: Key)
        ensures
            final(self)@ == old(self)@.remove(key),
    {
        let i = key.index();
        self.slots[i] = false;
        assert(final(self)@ =~= old(self)@.remove(key));
    }

    /// Puts `key` in or takes it out, as `present` says.
    pub fn set(&mut self, key: Key, present: bool)
        ensures
            final(self)@ == if present {
                old(self)@.insert(key)
            } else {
                old(self)@.remove(key)
            },
    {
        if present {
            self.insert(key);
        } else {
            self.remove(key);
        }
    }
}

/// What a keyboard snapshot says, as three mathematical sets.
pub struct Keys {
    /// Keys that are down.
    pub pressed: Set<Key>,
    /// Keys that went down since the last frame.
    pub just_pressed: Set<Key>,
    /// Keys that came up since the last frame.
    pub just_released: Set<Key>,
}

/// The state of the keyboard during one frame.
#[derive(Clone, Copy, Debug)]
pub struct KeyState {
    /// Keys that are down.
    pub pressed: KeySet,
    /// Keys that went down since the last frame.
    pub just_pressed: KeySet,
    /// Keys that came up since the last frame.
    pub just_released: KeySet,
}

impl View for KeyState {
    type V = Keys;

    open spec fn view(&self) -> Keys {
        Keys {
            pressed: self.pressed@,
            just_pressed: self.just_pressed@,
            just_released: self.just_released@,
        }
    }
}

impl KeyState {
    /// A keyboard on which nothing is or was pressed.
    pub fn new() -> (state: KeyState)
        ensures
            state@.pressed == Set::<Key>::empty(),
            state@.just_pressed == Set::<Key>::empty(),
            state@.just_released == Set::<Key>::empty(),
    {
        KeyState { pressed: KeySet::new(), just_pressed: KeySet::new(), just_released: KeySet::new() }
    }

    /// Whether `key` is down.
    pub fn pressed(&self, key: Key) -> (down: bool)
        ensures
            down == self@.pressed.contains(key),
    {
        self.pressed.contains(key)
    }

    /// Whether `key` went down since the last frame.
    pub fn just_pressed(&self, key: Key) -> (down: bool)
        ensures
            down == self@.just_pressed.contains(key),
    {
        self.just_pressed.contains(key)
    }

    /// Whether `key` came up since the last frame.
    pub fn just_released(&self, key: Key) -> (up: bool)
        ensures
            up == self@.just_released.contains(key),
    {
        self.just_released.contains(key)
    }
}

} // verus!
