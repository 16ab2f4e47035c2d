//! Whether a dangerous command should be confirmed interactively: the
//! terminal state is probed outside the library and handed in as plain
//! flags.

use vstd::prelude::*;
use crate::cli::Cli;
use crate::config_file::FileConfig;

verus! {

/// Whether the dangerous-command confirmation should be shown: both
/// standard streams are terminals, confirmation is enabled, and the force
/// flag is absent.
pub fn should_prompt(cli: &Cli, config: &FileConfig, stdin_tty: bool, stdout_tty: bool) -> (r:
    bool)
    ensures
        r == (stdin_tty && stdout_tty && config.safety.confirm_dangerous && !cli.force),
{
    stdin_tty && stdout_tty && config.safety.confirm_dangerous && !cli.force
}

/// The process is fully interactive: both standard streams are terminals.
pub fn is_interactive_mode(stdin_tty: bool, stdout_tty: bool) -> (r: bool)
    ensures
        r == (stdin_tty && stdout_tty),
{
    stdin_tty && stdout_tty
}

/// Output is piped: standard output is not a terminal.
pub fn is_piped_output(stdout_tty: bool) -> (r: bool)
    ensures
        r == !stdout_tty,
{
    !stdout_tty
}

} // verus!
