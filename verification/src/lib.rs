//! Core of a natural-language-to-shell-command pipeline: chat data model,
//! prompt building, response parsing, dangerous-command detection, and the
//! interaction state machines that decide whether a generated command is
//! printed, confirmed, or executed.

pub mod cache;
pub mod chain;
pub mod chat;
pub mod cli;
pub mod color;
pub mod config;
pub mod config_file;
pub mod context;
pub mod envsnap;
pub mod error;
pub mod handler;
pub mod loader;
pub mod locale;
pub mod logging;
pub mod merger;
pub mod output;
pub mod paths;
pub mod prompt;
pub mod provider;
pub mod safety;
pub mod signals;
pub mod strutil;
