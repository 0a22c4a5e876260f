//! A cash machine as a pure transition function: a state and an event give
//! the next state. Nothing is read, written or kept between calls.
//!
//! A session runs from a card swipe, over the PIN, to the amount to hand
//! out. The machine knows the PIN by its fingerprint only.

pub mod fingerprint;
pub mod keypad;
pub mod laws;
pub mod machine;

pub use crate::fingerprint::hash;
pub use crate::keypad::Key;
pub use crate::machine::{Action, Atm, Auth};
