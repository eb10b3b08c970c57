//! The four terminal failure kinds of one invocation, and the line each one
//! prints to the diagnostic stream. None of them is retried.
use vstd::prelude::*;
use vstd::string::StringExecFns;

verus! {

/// Why an invocation failed. Every kind is terminal for the run.
#[derive(Clone, Copy, PartialEq, Eq, Structural, Debug)]
pub enum ErrorKind {
    /// No command was supplied at all.
    InvalidInvocation,
    /// The API key for the selected provider is missing; detected before any
    /// network attempt.
    Configuration,
    /// The provider could not be reached at the network level.
    Transport,
    /// The provider replied, but with a non-success status or a body that is
    /// not a JSON document.
    ProviderResponse,
}

/// The diagnostic line printed for each failure kind.
pub open spec fn error_message_spec(k: ErrorKind) -> Seq<char> {
    match k {
        ErrorKind::InvalidInvocation => "No command provided"@,
        ErrorKind::Configuration => "API key for the selected provider is not set"@,
        ErrorKind::Transport => "Network error while contacting the provider"@,
        ErrorKind::ProviderResponse => "Provider returned an unexpected response"@,
    }
}

/// Returns the human-readable message for a failure kind.
pub fn error_message(k: ErrorKind) -> (m: String)
    ensures
        m@ == error_message_spec(k),
{
    match k {
        ErrorKind::InvalidInvocation => String::from_str("No command provided"),
        ErrorKind::Configuration => String::from_str(
            "API key for the selected provider is not set",
        ),
        ErrorKind::Transport => String::from_str("Network error while contacting the provider"),
        ErrorKind::ProviderResponse => String::from_str(
            "Provider returned an unexpected response",
        ),
    }
}

} // verus!
