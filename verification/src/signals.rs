//! Process exit codes and terminal-state predicates. The signal handlers
//! and terminal probes themselves live outside the library; the codes and
//! the decisions over probed state are here.

use vstd::prelude::*;

verus! {

/// Process exit codes, following the usual shell conventions.
#[derive(Debug, Clone, Copy, PartialEq, Eq, Structural)]
pub enum ExitCode {
    /// Everything went well (0).
    Success,
    /// Invalid arguments (2).
    InvalidArgs,
    /// Interrupted by a signal (130).
    Interrupted,
    /// Any other failure (1).
    GeneralError,
    /// A dangerous command was rejected (5).
    Aborted,
}

impl ExitCode {
    /// The numeric code handed to the process exit.
    pub fn as_i32(self) -> (r: i32)
        ensures
            r == match self {
                ExitCode::Success => 0i32,
                ExitCode::InvalidArgs => 2i32,
                ExitCode::Interrupted => 130i32,
                ExitCode::GeneralError => 1i32,
                ExitCode::Aborted => 5i32,
            },
    {
        match self {
            ExitCode::Success => 0,
            ExitCode::InvalidArgs => 2,
            ExitCode::Interrupted => 130,
            ExitCode::GeneralError => 1,
            ExitCode::Aborted => 5,
        }
    }
}

/// The process is interactive: both standard input and standard output
/// are terminals.
pub fn is_interactive(stdin_tty: bool, stdout_tty: bool) -> (r: bool)
    ensures
        r == (stdin_tty && stdout_tty),
{
    stdin_tty && stdout_tty
}

/// Output is piped: standard output is not a terminal.
pub fn is_piped(stdout_tty: bool) -> (r: bool)
    ensures
        r == !stdout_tty,
{
    !stdout_tty
}

} // verus!
