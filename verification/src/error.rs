//! The error taxonomy of the pipeline, with one exit code per category so
//! the surrounding command-line layer can classify failures without
//! re-parsing message text.

use vstd::prelude::*;
use crate::loader::{config_load_error_message, ConfigLoadError};

verus! {

/// A pipeline failure, by category. Exit codes: general 1, usage 2,
/// configuration 3, API 4, safety 5.
#[derive(Debug, Clone, PartialEq, Eq)]
pub enum ClaiError {
    /// Any unexpected failure.
    General(String),
    /// Invalid command-line usage.
    Usage(String),
    /// The configuration could not be loaded.
    Config(ConfigLoadError),
    /// A provider or network failure, with the HTTP status when one was
    /// received.
    API { message: String, status_code: Option<u16> },
    /// A dangerous command was rejected, by the user or by default.
    Safety(String),
}

impl ClaiError {
    /// The process exit code this error maps to.
    pub fn exit_code(&self) -> (r: u8)
        ensures
            r == match self {
                ClaiError::General(_) => 1u8,
                ClaiError::Usage(_) => 2u8,
                ClaiError::Config(_) => 3u8,
                ClaiError::API { .. } => 4u8,
                ClaiError::Safety(_) => 5u8,
            },
    {
        match self {
            ClaiError::General(_) => 1,
            ClaiError::Usage(_) => 2,
            ClaiError::Config(_) => 3,
            ClaiError::API { .. } => 4,
            ClaiError::Safety(_) => 5,
        }
    }

    /// A human-readable rendering of the error.
    pub fn message(&self) -> (r: String)
        ensures
            r@ == match self {
                ClaiError::General(m) => "Error: "@ + m@,
                ClaiError::Usage(m) => "Usage error: "@ + m@,
                ClaiError::Config(e) => "Configuration error: "@ + config_load_error_message(*e),
                ClaiError::API { message: m, .. } => "API error: "@ + m@,
                ClaiError::Safety(m) => "Safety error: "@ + m@,
            },
    {
        let mut s = String::new();
        match self {
            ClaiError::General(m) => {
                s.append("Error: ");
                s.append(m.as_str());
            },
            ClaiError::Usage(m) => {
                s.append("Usage error: ");
                s.append(m.as_str());
            },
            ClaiError::Config(e) => {
                s.append("Configuration error: ");
                let inner = e.message();
                s.append(inner.as_str());
            },
            ClaiError::API { message: m, .. } => {
                s.append("API error: ");
                s.append(m.as_str());
            },
            ClaiError::Safety(m) => {
                s.append("Safety error: ");
                s.append(m.as_str());
            },
        }
        s
    }
}

impl From<ConfigLoadError> for ClaiError {
    /// A configuration-load failure is a configuration error.
    fn from(e: ConfigLoadError) -> (r: ClaiError)
        ensures
            r == ClaiError::Config(e),
    {
        ClaiError::Config(e)
    }
}

impl vstd::std_specs::convert::FromSpecImpl<ConfigLoadError> for ClaiError {
    open spec fn obeys_from_spec() -> bool {
        true
    }

    open spec fn from_spec(e: ConfigLoadError) -> ClaiError {
        ClaiError::Config(e)
    }
}

} // verus!
