//! A terminal-agnostic vocabulary for keyboard input.
//!
//! [`KeyModifiers`] is a set over shift, control and alt; [`KeyCode`] names a
//! key. Editor and UI logic can be written against these two types alone. The
//! `convert` module maps both, in either direction, onto the event types of
//! crossterm, and states what the mapping keeps.

pub mod backend;
pub mod convert;
pub mod key_code;
pub mod modifiers;

pub use key_code::KeyCode;
pub use modifiers::{KeyModifiers, Modifier};
