//! The orchestrator's decisions: capture the invocation, choose the step
//! after the probe, and reduce every terminal outcome to one printed line,
//! one stream and one exit status. The caller only probes the search path,
//! performs the one request this module hands it, and prints.
use vstd::prelude::*;
use vstd::string::StringExecFns;
use crate::errors::{error_message, error_message_spec, ErrorKind};
use crate::provider::{Config, Provider};
use crate::request::{build_request, request_matches, HttpRequest};
use crate::text::{join_args, join_with_spaces};

verus! {

/// Joins the raw argument list into the one command string of this run, or
/// rejects an empty invocation before anything else happens.
pub fn command_of_args(args: &Vec<String>) -> (r: Result<String, ErrorKind>)
    ensures
        r is Err <==> args@.len() == 0,
        r is Err ==> r == Err::<String, ErrorKind>(ErrorKind::InvalidInvocation),
        r matches Ok(c) ==> c@ == join_with_spaces(args.deep_view()),
{
    if args.len() == 0 {
        Err(ErrorKind::InvalidInvocation)
    } else {
        Ok(join_args(args))
    }
}

/// The step taken once the probe has answered: done, rejected before any
/// network attempt, or exactly one request to perform.
pub enum Step {
    /// The command resolves locally; the run is over.
    Valid,
    /// The run aborts before any network attempt.
    Reject(ErrorKind),
    /// The one request the configured provider receives.
    Query(HttpRequest),
}

/// What the step after the probe must be. The variant taken depends only on
/// the probe's answer and on whether the key is present — never on which
/// provider is configured.
pub open spec fn step_matches_plan(
    s: Step,
    provider: Provider,
    key: Seq<char>,
    model: Seq<char>,
    command: Seq<char>,
    resolvable: bool,
) -> bool {
    &&& (s is Valid <==> resolvable)
    &&& (s is Reject <==> !resolvable && key.len() == 0)
    &&& (s is Query <==> !resolvable && key.len() > 0)
    &&& (s matches Step::Reject(e) ==> e == ErrorKind::Configuration)
    &&& (s matches Step::Query(req) ==> request_matches(req, provider, key, model, command))
}

/// Decides the step after the probe: a resolvable command ends the run; a
/// missing API key is a Configuration error detected before any network
/// attempt; otherwise the one request to the configured provider is built.
pub fn plan_after_probe(config: &Config, command: &str, resolvable: bool) -> (s: Step)
    ensures
        step_matches_plan(
            s,
            config.provider,
            config.api_key@,
            config.model@,
            command@,
            resolvable,
        ),
{
    if resolvable {
        Step::Valid
    } else if config.api_key.as_str().is_empty() {
        Step::Reject(ErrorKind::Configuration)
    } else {
        Step::Query(build_request(config, command))
    }
}

/// Law: switching the configured provider changes only the request that is
/// built — its endpoint, headers and body — never which step is taken: the
/// two plans are valid, rejected and querying together, and rejected for
/// the same reason.
pub proof fn lemma_provider_swap_keeps_flow(
    s1: Step,
    s2: Step,
    pa: Provider,
    pb: Provider,
    key: Seq<char>,
    model: Seq<char>,
    command: Seq<char>,
    resolvable: bool,
)
    requires
        step_matches_plan(s1, pa, key, model, command, resolvable),
        step_matches_plan(s2, pb, key, model, command, resolvable),
    ensures
        s1 is Valid <==> s2 is Valid,
        s1 is Reject <==> s2 is Reject,
        s1 is Query <==> s2 is Query,
        s1 is Reject ==> s1 == s2,
{
}

/// The pass-through confirmation printed when the command resolves.
pub open spec fn valid_message_spec(command: Seq<char>) -> Seq<char> {
    "Command '"@ + command + "' exists, executing normally."@
}

/// Formats the confirmation for a command that resolves locally.
pub fn valid_message(command: &str) -> (m: String)
    ensures
        m@ == valid_message_spec(command@),
{
    let mut m = String::from_str("Command '");
    m.append(command);
    m.append("' exists, executing normally.");
    m
}

/// How one invocation ends.
pub enum RunOutcome {
    /// The typed command resolves locally; it holds the command string.
    ValidCommand(String),
    /// The provider produced this suggestion.
    Suggestion(String),
    /// The run failed for this reason.
    Failure(ErrorKind),
}

/// The one line an invocation prints, the stream it goes to, and the
/// process exit status.
pub struct Report {
    pub line: String,
    pub to_error_stream: bool,
    pub exit_code: u8,
}

/// Reduces a terminal outcome to what is printed and the exit status: the
/// confirmation or the suggestion go to standard output with the success
/// status; every failure goes to the diagnostic stream with a non-zero
/// status.
pub fn report(outcome: RunOutcome) -> (rep: Report)
    ensures
        outcome matches RunOutcome::ValidCommand(c) ==> rep.line@ == valid_message_spec(c@)
            && !rep.to_error_stream && rep.exit_code == 0,
        outcome matches RunOutcome::Suggestion(s) ==> rep.line@ == s@ && !rep.to_error_stream
            && rep.exit_code == 0,
        outcome matches RunOutcome::Failure(k) ==> rep.line@ == error_message_spec(k)
            && rep.to_error_stream && rep.exit_code == 1,
{
    match outcome {
        RunOutcome::ValidCommand(c) => Report {
            line: valid_message(c.as_str()),
            to_error_stream: false,
            exit_code: 0,
        },
        RunOutcome::Suggestion(s) => Report { line: s, to_error_stream: false, exit_code: 0 },
        RunOutcome::Failure(k) => Report {
            line: error_message(k),
            to_error_stream: true,
            exit_code: 1,
        },
    }
}

} // verus!
