//! Dangerous-command detection and the interaction state machines around
//! generated commands.

pub mod confirmation;
pub mod detector;
pub mod interactive;
pub mod patterns;
pub mod prompt;
