//! Season arithmetic, battle-pass progress and settings persistence for a
//! small desktop tracker.
pub mod progress;
pub mod seasons;
pub mod settings;

pub use progress::{Message, OverHelperApp};
