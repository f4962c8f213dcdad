//! Rules of a small third-person exploration game, stated apart from the
//! engine that draws it.
//!
//! Every frame the game asks this crate what the pressed keys and the
//! protagonist's surroundings call for, and receives a list of
//! [`action::Action`]s to carry out. All decisions are integer and boolean
//! logic; positions enter only as the outcome of comparisons against the
//! marks in [`place`].

pub mod action;
pub mod animations;
pub mod catalogue;
pub mod input;
pub mod jumping;
pub mod keys;
pub mod lights;
pub mod place;
pub mod world;
