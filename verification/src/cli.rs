//! Command-line inputs as plain data. Flag parsing itself lives outside
//! the library; this is the parsed shape the pipeline consumes.

use vstd::prelude::*;

verus! {

/// Requested color mode.
#[derive(Debug, Clone, Copy, PartialEq, Eq, Structural)]
pub enum ColorChoice {
    /// Decide from the environment.
    Auto,
    /// Always color.
    Always,
    /// Never color.
    Never,
}

/// The parsed command-line arguments.
#[derive(Debug, Clone, PartialEq, Eq)]
pub struct Cli {
    /// The natural-language instruction to translate.
    pub instruction: String,
    /// Model override.
    pub model: Option<String>,
    /// Provider override.
    pub provider: Option<String>,
    /// Suppress non-essential output.
    pub quiet: bool,
    /// Verbosity, as the count of repeated flags.
    pub verbose: u8,
    /// Disable colored output.
    pub no_color: bool,
    /// Requested color mode.
    pub color: ColorChoice,
    /// Prompt interactively over the generated commands.
    pub interactive: bool,
    /// Skip the dangerous-command confirmation.
    pub force: bool,
    /// Show the command without any execution prompt.
    pub dry_run: bool,
    /// Additional context file.
    pub context: Option<String>,
    /// Fail gracefully when no local provider exists.
    pub offline: bool,
    /// How many command options to generate.
    pub num_options: u8,
    /// Show the prompt sent to the model.
    pub debug: bool,
    /// Debug log file path; empty asks for the default location.
    pub debug_file: Option<String>,
}

} // verus!
