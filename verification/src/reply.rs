//! Interpreting what came back from the provider: status classification,
//! extraction of `choices[0].message.content`, and the placeholder used
//! when only that field is missing.
use vstd::prelude::*;
use vstd::string::StringExecFns;
use crate::errors::ErrorKind;

verus! {

/// What the reply body parses to. `None` when the body is not a JSON
/// document; `Some(None)` when it is one but holds no string at
/// `choices[0].message.content`; `Some(Some(text))` when that field holds
/// `text`. A function of the body text alone.
pub uninterp spec fn choice_content_of(body: Seq<char>) -> Option<Option<Seq<char>>>;

/// A provider reply body, classified.
pub enum ParsedReply {
    /// The body is not a JSON document.
    Malformed,
    /// A JSON document without a string at `choices[0].message.content`.
    MissingContent,
    /// The string found at `choices[0].message.content`.
    Content(String),
}

/// Relies on `serde_json::from_str` to decide whether the body is a JSON
/// document, and on `serde_json::Value::pointer` and `serde_json::Value::as_str`
/// to walk to the string at `choices[0].message.content`; what they find is
/// a function of the body text alone.
#[verifier::external_body]
fn parse_reply(body: &str) -> (r: ParsedReply)
    ensures
        r is Malformed <==> choice_content_of(body@) is None,
        r is MissingContent <==> choice_content_of(body@) == Some(Option::<Seq<char>>::None),
        r matches ParsedReply::Content(s) ==> choice_content_of(body@) == Some(Some(s@)),
{
    let doc: serde_json::Value = match serde_json::from_str(body) {
        Ok(v) => v,
        Err(_) => return ParsedReply::Malformed,
    };
    match doc.pointer("/choices/0/message/content") {
        Some(node) => match node.as_str() {
            Some(s) => ParsedReply::Content(s.to_string()),
            None => ParsedReply::MissingContent,
        },
        None => ParsedReply::MissingContent,
    }
}

/// The placeholder printed when the call succeeded but the reply carried no
/// content field.
pub open spec fn fallback_text() -> Seq<char> {
    "No suggestion available"@
}

/// The suggestion a classified reply yields: its content when present, the
/// placeholder when only the content is missing.
pub open spec fn reply_suggestion_text(r: ParsedReply) -> Seq<char> {
    match r {
        ParsedReply::Content(s) => s@,
        _ => fallback_text(),
    }
}

/// Turns a classified reply into the suggestion to print, or the error to
/// report when the body was no JSON document at all.
pub fn suggestion_of_reply(reply: ParsedReply) -> (out: Result<String, ErrorKind>)
    ensures
        out is Ok <==> !(reply is Malformed),
        out matches Ok(s) ==> s@ == reply_suggestion_text(reply),
        reply is Malformed ==> out == Err::<String, ErrorKind>(ErrorKind::ProviderResponse),
{
    match reply {
        ParsedReply::Malformed => Err(ErrorKind::ProviderResponse),
        ParsedReply::MissingContent => Ok(String::from_str("No suggestion available")),
        ParsedReply::Content(s) => Ok(s),
    }
}

/// What performing the one request came to: either the provider could not
/// be reached at all, or it answered with a status and a body.
pub enum FetchOutcome {
    TransportFailure,
    Response { status: u16, body: String },
}

/// Whether an HTTP status reports success.
pub open spec fn status_success(status: u16) -> bool {
    200 <= status < 300
}

/// Interprets the outcome of the one provider call: a transport failure is
/// a Transport error; a non-success status or a non-JSON body is a
/// ProviderResponse error; otherwise the reply's content is the suggestion,
/// with the placeholder standing in when only the content field is absent.
pub fn interpret_outcome(outcome: FetchOutcome) -> (r: Result<String, ErrorKind>)
    ensures
        outcome is TransportFailure ==> r == Err::<String, ErrorKind>(ErrorKind::Transport),
        outcome matches FetchOutcome::Response { status, body } ==> {
            &&& (!status_success(status) ==> r == Err::<String, ErrorKind>(
                ErrorKind::ProviderResponse,
            ))
            &&& (status_success(status) ==> {
                &&& (r is Ok <==> choice_content_of(body@) is Some)
                &&& (choice_content_of(body@) is None ==> r == Err::<String, ErrorKind>(
                    ErrorKind::ProviderResponse,
                ))
                &&& (r matches Ok(s) ==> match choice_content_of(body@) {
                    Some(Some(c)) => s@ == c,
                    Some(None) => s@ == fallback_text(),
                    None => false,
                })
            })
        },
{
    match outcome {
        FetchOutcome::TransportFailure => Err(ErrorKind::Transport),
        FetchOutcome::Response { status, body } => {
            if status < 200 || status >= 300 {
                Err(ErrorKind::ProviderResponse)
            } else {
                suggestion_of_reply(parse_reply(body.as_str()))
            }
        },
    }
}

} // verus!
