//! The dangerous-command confirmation: turning what was read from the
//! user into a decision, with abort as the fail-safe default.

use vstd::prelude::*;
use crate::strutil::{trim_spec, trim_to_string};

verus! {

/// Outcome of a dangerous-command prompt.
#[derive(Debug, Clone, Copy, PartialEq, Eq, Structural)]
pub enum Decision {
    /// Run the command.
    Execute,
    /// Hand the command out without running it.
    Copy,
    /// Do nothing.
    Abort,
}

/// Why a confirmation could not be resolved to a decision.
#[derive(Debug, Clone, PartialEq, Eq)]
pub enum ConfirmationError {
    /// Standard input closed or piped.
    Eof,
    /// The reply did not begin with E, C or A.
    InvalidInput(String),
    /// Reading the reply failed.
    IoError(String),
}

/// The message text of each confirmation error.
pub open spec fn confirmation_error_text(e: ConfirmationError) -> Seq<char> {
    match e {
        ConfirmationError::Eof => "EOF: stdin closed or piped"@,
        ConfirmationError::InvalidInput(input) => "Invalid input: '"@ + trim_spec(input@)
            + "'. Expected E, C, or A"@,
        ConfirmationError::IoError(msg) => "I/O error: "@ + msg@,
    }
}

impl ConfirmationError {
    /// A human-readable rendering of the error.
    pub fn message(&self) -> (r: String)
        ensures
            r@ == confirmation_error_text(*self),
    {
        match self {
            ConfirmationError::Eof => "EOF: stdin closed or piped".to_owned(),
            ConfirmationError::InvalidInput(input) => {
                let mut s = String::new();
                s.append("Invalid input: '");
                let t = trim_to_string(input.as_str());
                s.append(t.as_str());
                s.append("'. Expected E, C, or A");
                s
            },
            ConfirmationError::IoError(msg) => {
                let mut s = String::new();
                s.append("I/O error: ");
                s.append(msg.as_str());
                s
            },
        }
    }
}

/// The display name of a decision.
pub fn format_decision(decision: Decision) -> (r: &'static str)
    ensures
        decision is Execute ==> r@ == "Execute"@,
        decision is Copy ==> r@ == "Copy"@,
        decision is Abort ==> r@ == "Abort"@,
{
    match decision {
        Decision::Execute => "Execute",
        Decision::Copy => "Copy",
        Decision::Abort => "Abort",
    }
}

/// The decision a reply resolves to. `None` stands for end of input
/// (closed or piped stdin) and resolves to `Abort`, as does an empty or
/// all-whitespace reply; otherwise the first character decides,
/// case-insensitively, and anything but E, C or A is an input error,
/// represented here by the trimmed reply.
pub open spec fn confirmation_decision(line: Option<Seq<char>>) -> Result<Decision, Seq<char>> {
    match line {
        None => Ok(Decision::Abort),
        Some(l) => {
            let t = trim_spec(l);
            if t.len() == 0 {
                Ok(Decision::Abort)
            } else if t[0] == 'e' || t[0] == 'E' {
                Ok(Decision::Execute)
            } else if t[0] == 'c' || t[0] == 'C' {
                Ok(Decision::Copy)
            } else if t[0] == 'a' || t[0] == 'A' {
                Ok(Decision::Abort)
            } else {
                Err(t)
            }
        },
    }
}

/// Resolves the line read during a danger prompt (`None` for end of
/// input) to a decision. End of input and empty replies resolve to
/// `Abort`: an unanswered danger prompt never lets the command through.
/// An invalid reply comes back as `InvalidInput` carrying the trimmed
/// reply.
pub fn decide_confirmation(line: Option<&str>) -> (r: Result<Decision, ConfirmationError>)
    ensures
        match (r, confirmation_decision(match line {
            Some(l) => Some(l@),
            None => None,
        })) {
            (Ok(d), Ok(sd)) => d == sd,
            (Err(ConfirmationError::InvalidInput(a)), Err(t)) => a@ == t,
            _ => false,
        },
        line is None ==> r == Ok::<Decision, ConfirmationError>(Decision::Abort),
{
    match line {
        None => Ok(Decision::Abort),
        Some(l) => {
            let t = trim_to_string(l);
            let n = t.unicode_len();
            if n == 0 {
                return Ok(Decision::Abort);
            }
            let c = t.as_str().get_char(0);
            if c == 'e' || c == 'E' {
                Ok(Decision::Execute)
            } else if c == 'c' || c == 'C' {
                Ok(Decision::Copy)
            } else if c == 'a' || c == 'A' {
                Ok(Decision::Abort)
            } else {
                Err(ConfirmationError::InvalidInput(t))
            }
        },
    }
}

/// End of input during a danger prompt resolves to `Abort`: the fail-safe
/// default of the confirmation.
pub proof fn lemma_eof_aborts()
    ensures
        confirmation_decision(None) == Ok::<Decision, Seq<char>>(Decision::Abort),
{
}

} // verus!
