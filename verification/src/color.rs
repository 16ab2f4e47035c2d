//! Color-mode resolution. The environment probes (variables, terminal
//! state) happen outside the library and are handed in as plain values.

use vstd::prelude::*;
use crate::cli::ColorChoice;
use crate::config::Config;
use crate::strutil::str_eq;

verus! {

/// Resolved color mode.
#[derive(Debug, Clone, Copy, PartialEq, Eq, Structural)]
pub enum ColorMode {
    /// Decide from the environment.
    Auto,
    /// Always color.
    Always,
    /// Never color.
    Never,
}

/// What a color mode resolves to, given the environment's answer for the
/// auto case.
pub open spec fn use_color_spec(mode: ColorMode, auto_color: bool) -> bool {
    match mode {
        ColorMode::Always => true,
        ColorMode::Never => false,
        ColorMode::Auto => auto_color,
    }
}

impl ColorMode {
    /// Whether color should be used: always yes, never no, and auto
    /// defers to the environment detection handed in.
    pub fn should_use_color(self, auto_color: bool) -> (r: bool)
        ensures
            r == use_color_spec(self, auto_color),
    {
        match self {
            ColorMode::Always => true,
            ColorMode::Never => false,
            ColorMode::Auto => auto_color,
        }
    }
}

/// The automatic color decision over the probed environment: `CLICOLOR`
/// set to 0 or 1 decides; otherwise `NO_COLOR` disables; otherwise a dumb
/// terminal disables; otherwise the terminal state of the error stream
/// decides.
pub open spec fn detect_color_auto_spec(
    clicolor: Option<Seq<char>>,
    no_color_set: bool,
    term: Option<Seq<char>>,
    stderr_tty: bool,
) -> bool {
    if clicolor == Some("0"@) {
        false
    } else if clicolor == Some("1"@) {
        true
    } else if no_color_set {
        false
    } else if term == Some("dumb"@) {
        false
    } else {
        stderr_tty
    }
}

/// Decides automatic coloring from the probed environment values: the
/// `CLICOLOR` and `TERM` variables, whether `NO_COLOR` is set, and
/// whether the error stream is a terminal.
pub fn detect_color_auto(
    clicolor: Option<&str>,
    no_color_set: bool,
    term: Option<&str>,
    stderr_tty: bool,
) -> (r: bool)
    ensures
        r == detect_color_auto_spec(
            match clicolor {
                Some(v) => Some(v@),
                None => None,
            },
            no_color_set,
            match term {
                Some(v) => Some(v@),
                None => None,
            },
            stderr_tty,
        ),
{
    match clicolor {
        Some(v) => {
            if str_eq(v, "0") {
                return false;
            }
            if str_eq(v, "1") {
                return true;
            }
        },
        None => {},
    }
    if no_color_set {
        return false;
    }
    match term {
        Some(t) => {
            if str_eq(t, "dumb") {
                return false;
            }
        },
        None => {},
    }
    stderr_tty
}

/// The color mode a configuration asks for: the no-color flag forces
/// never; otherwise the requested choice carries over.
pub open spec fn color_mode_of(config: Config) -> ColorMode {
    if config.no_color {
        ColorMode::Never
    } else {
        match config.color {
            ColorChoice::Always => ColorMode::Always,
            ColorChoice::Never => ColorMode::Never,
            ColorChoice::Auto => ColorMode::Auto,
        }
    }
}

/// Resolves the color mode a configuration asks for.
pub fn color_mode_from_config(config: &Config) -> (r: ColorMode)
    ensures
        r == color_mode_of(*config),
{
    if config.no_color {
        return ColorMode::Never;
    }
    match config.color {
        ColorChoice::Always => ColorMode::Always,
        ColorChoice::Never => ColorMode::Never,
        ColorChoice::Auto => ColorMode::Auto,
    }
}

} // verus!
