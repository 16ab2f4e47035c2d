//! The runtime configuration derived from the parsed command line, and
//! path expansion for the debug log file.

use vstd::prelude::*;
use crate::cli::{Cli, ColorChoice};
use crate::strutil::matches_at;

verus! {

/// The per-invocation runtime configuration, derived from the command
/// line. Immutable once built.
#[derive(Debug, Clone, PartialEq, Eq)]
pub struct Config {
    /// The natural-language instruction to translate.
    pub instruction: String,
    /// Model override.
    pub model: Option<String>,
    /// Provider override.
    pub provider: Option<String>,
    /// Suppress non-essential output.
    pub quiet: bool,
    /// Verbosity, as the count of repeated flags.
    pub verbose: u8,
    /// Disable colored output.
    pub no_color: bool,
    /// Requested color mode.
    pub color: ColorChoice,
    /// Prompt interactively over the generated commands.
    pub interactive: bool,
    /// Skip the dangerous-command confirmation.
    pub force: bool,
    /// Show the command without any execution prompt.
    pub dry_run: bool,
    /// Additional context file.
    pub context: Option<String>,
    /// Fail gracefully when no local provider exists.
    pub offline: bool,
    /// How many command options to generate, clamped to 1 through 10.
    pub num_options: u8,
    /// Show the prompt sent to the model.
    pub debug: bool,
    /// Debug log file path; logging is off when absent.
    pub debug_log_file: Option<String>,
}

/// `n` clamped to the allowed option count.
pub open spec fn clamp_options(n: u8) -> u8 {
    if n < 1 {
        1
    } else if n > 10 {
        10
    } else {
        n
    }
}

impl Config {
    /// Builds the runtime configuration from the parsed command line:
    /// fields carry over, the option count is clamped to 1 through 10,
    /// and a no-color flag forces the color mode to never.
    pub fn from_cli(cli: Cli) -> (r: Config)
        ensures
            r.instruction == cli.instruction,
            r.model == cli.model,
            r.provider == cli.provider,
            r.quiet == cli.quiet,
            r.verbose == cli.verbose,
            r.no_color == cli.no_color,
            r.color == if cli.no_color {
                ColorChoice::Never
            } else {
                cli.color
            },
            r.interactive == cli.interactive,
            r.force == cli.force,
            r.dry_run == cli.dry_run,
            r.context == cli.context,
            r.offline == cli.offline,
            r.num_options == clamp_options(cli.num_options),
            r.debug == cli.debug,
            r.debug_log_file == cli.debug_file,
    {
        let num_options: u8 = if cli.num_options < 1 {
            1
        } else if cli.num_options > 10 {
            10
        } else {
            cli.num_options
        };
        let color = if cli.no_color {
            ColorChoice::Never
        } else {
            cli.color
        };
        Config {
            instruction: cli.instruction,
            model: cli.model,
            provider: cli.provider,
            quiet: cli.quiet,
            verbose: cli.verbose,
            no_color: cli.no_color,
            color,
            interactive: cli.interactive,
            force: cli.force,
            dry_run: cli.dry_run,
            context: cli.context,
            offline: cli.offline,
            num_options,
            debug: cli.debug,
            debug_log_file: cli.debug_file,
        }
    }
}

/// The expansion of a leading `~/` to the home directory, when one is
/// known; any other path is unchanged.
pub open spec fn expand_path_spec(path: Seq<char>, home: Option<Seq<char>>) -> Seq<char> {
    if matches_at(path, seq!['~', '/'], 0) {
        match home {
            Some(h) => h + seq!['/'] + path.skip(2),
            None => path,
        }
    } else {
        path
    }
}

/// Expands a leading `~/` in `path` to the given home directory; without
/// a home directory, or without the prefix, the path is returned as it
/// came.
pub fn expand_path(path: &str, home: Option<&str>) -> (r: String)
    ensures
        r@ == expand_path_spec(path@, match home {
            Some(h) => Some(h@),
            None => None,
        }),
{
    proof {
        reveal_strlit("~/");
        reveal_strlit("/");
        assert("~/"@ =~= seq!['~', '/']);
        assert("/"@ =~= seq!['/']);
    }
    let n: usize = path.unicode_len();
    if crate::strutil::pattern_at(path, n, "~/", 0) {
        match home {
            Some(h) => {
                let mut r = h.to_owned();
                r.append("/");
                r.append(path.substring_char(2, n));
                proof {
                    assert(path@.subrange(2, n as int) =~= path@.skip(2));
                }
                r
            },
            None => path.to_owned(),
        }
    } else {
        path.to_owned()
    }
}

} // verus!
