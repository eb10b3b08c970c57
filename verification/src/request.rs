//! Building the one outbound request: the prompt, the JSON body framing it,
//! and the provider-specific endpoint and headers.
use vstd::prelude::*;
use vstd::string::StringExecFns;
use crate::json::{json_escape, json_escaped};
use crate::provider::{endpoint, endpoint_spec, Config, Provider};

verus! {

/// One HTTP header, by name and value.
pub struct Header {
    pub name: String,
    pub value: String,
}

/// Everything one POST to a provider consists of. The caller performs it
/// exactly as described and reports back what came of it.
pub struct HttpRequest {
    pub url: String,
    pub headers: Vec<Header>,
    pub body: String,
}

/// The headers as pairs of character sequences.
pub open spec fn header_views(hs: Seq<Header>) -> Seq<(Seq<char>, Seq<char>)> {
    hs.map(|i: int, h: Header| (h.name@, h.value@))
}

/// The natural-language prompt: the failed command embedded verbatim.
pub open spec fn prompt_spec(command: Seq<char>) -> Seq<char> {
    "User entered an unrecognized command: '"@ + command
        + "'. Provide a helpful suggestion or explanation."@
}

/// Formats the failed command into the prompt sent to the provider.
pub fn build_prompt(command: &str) -> (r: String)
    ensures
        r@ == prompt_spec(command@),
{
    let mut r = String::from_str("User entered an unrecognized command: '");
    r.append(command);
    r.append("'. Provide a helpful suggestion or explanation.");
    r
}

/// The JSON request body: the model identifier and two chat messages, a
/// fixed system message establishing the assistant's role followed by the
/// prompt as the user message. Both embedded strings are JSON-escaped.
pub open spec fn request_body_spec(model: Seq<char>, prompt: Seq<char>) -> Seq<char> {
    "{\"model\":\""@ + json_escaped(model)
        + "\",\"messages\":[{\"role\":\"system\",\"content\":\"You are a helpful shell assistant. Provide safe, accurate suggestions.\"},{\"role\":\"user\",\"content\":\""@
        + json_escaped(prompt) + "\"}]}"@
}

/// Serializes the request body for `model` and `prompt`.
pub fn build_request_body(model: &str, prompt: &str) -> (r: String)
    ensures
        r@ == request_body_spec(model@, prompt@),
{
    let escaped_model = json_escape(model);
    let escaped_prompt = json_escape(prompt);
    let mut r = String::from_str("{\"model\":\"");
    r.append(escaped_model.as_str());
    r.append(
        "\",\"messages\":[{\"role\":\"system\",\"content\":\"You are a helpful shell assistant. Provide safe, accurate suggestions.\"},{\"role\":\"user\",\"content\":\"",
    );
    r.append(escaped_prompt.as_str());
    r.append("\"}]}");
    r
}

/// The Authorization header value carrying the configured API key.
pub open spec fn bearer_spec(key: Seq<char>) -> Seq<char> {
    "Bearer "@ + key
}

/// The headers each provider requires: a bearer Authorization and the JSON
/// content type; OpenRouter additionally takes descriptive referer and
/// title headers.
pub open spec fn headers_spec(p: Provider, key: Seq<char>) -> Seq<(Seq<char>, Seq<char>)> {
    let common = seq![
        ("Authorization"@, bearer_spec(key)),
        ("Content-Type"@, "application/json"@),
    ];
    match p {
        Provider::XAi => common,
        Provider::OpenRouter => common + seq![
            ("HTTP-Referer"@, "https://SleepyStudio.xyz"@),
            ("X-Title"@, "TerminAI"@),
        ],
    }
}

/// Builds the header list for the selected provider.
pub fn build_headers(p: Provider, key: &str) -> (hs: Vec<Header>)
    ensures
        header_views(hs@) == headers_spec(p, key@),
{
    let mut hs: Vec<Header> = Vec::new();
    let mut auth = String::from_str("Bearer ");
    auth.append(key);
    hs.push(Header { name: String::from_str("Authorization"), value: auth });
    hs.push(
        Header { name: String::from_str("Content-Type"), value: String::from_str(
            "application/json",
        ) },
    );
    if let Provider::OpenRouter = p {
        hs.push(
            Header { name: String::from_str("HTTP-Referer"), value: String::from_str(
                "https://SleepyStudio.xyz",
            ) },
        );
        hs.push(
            Header { name: String::from_str("X-Title"), value: String::from_str("TerminAI") },
        );
    }
    proof {
        assert(header_views(hs@) =~= headers_spec(p, key@));
    }
    hs
}

/// What the one outbound request must look like for a configuration and a
/// failed command.
pub open spec fn request_matches(
    r: HttpRequest,
    provider: Provider,
    key: Seq<char>,
    model: Seq<char>,
    command: Seq<char>,
) -> bool {
    &&& r.url@ == endpoint_spec(provider)
    &&& header_views(r.headers@) == headers_spec(provider, key)
    &&& r.body@ == request_body_spec(model, prompt_spec(command))
}

/// Builds the single request the configured provider receives for a failed
/// command.
pub fn build_request(config: &Config, command: &str) -> (r: HttpRequest)
    ensures
        request_matches(r, config.provider, config.api_key@, config.model@, command@),
{
    let prompt = build_prompt(command);
    let body = build_request_body(config.model.as_str(), prompt.as_str());
    let headers = build_headers(config.provider, config.api_key.as_str());
    HttpRequest { url: endpoint(config.provider), headers, body }
}

} // verus!
