//! The two interchangeable model-provider backends and the resolved
//! configuration one invocation runs with.
use vstd::prelude::*;
use vstd::string::StringExecFns;

verus! {

/// The backend a configuration selects; exactly one is used per run.
#[derive(Clone, Copy, PartialEq, Eq, Structural, Debug)]
pub enum Provider {
    XAi,
    OpenRouter,
}

/// The configuration resolved once at startup: the selected provider, its
/// API key, and the model identifier sent with each request.
pub struct Config {
    pub provider: Provider,
    pub api_key: String,
    pub model: String,
}

/// The chat-completions endpoint each provider is reached at.
pub open spec fn endpoint_spec(p: Provider) -> Seq<char> {
    match p {
        Provider::XAi => "https://api.x.ai/v1/chat/completions"@,
        Provider::OpenRouter => "https://openrouter.ai/api/v1/chat/completions"@,
    }
}

/// Returns the URL the selected provider is reached at.
pub fn endpoint(p: Provider) -> (r: String)
    ensures
        r@ == endpoint_spec(p),
{
    match p {
        Provider::XAi => String::from_str("https://api.x.ai/v1/chat/completions"),
        Provider::OpenRouter => String::from_str("https://openrouter.ai/api/v1/chat/completions"),
    }
}

/// The provider a configuration value names: "openrouter" selects
/// OpenRouter, every other value the default xAI backend.
pub open spec fn provider_named_spec(name: Seq<char>) -> Provider {
    if name == "openrouter"@ {
        Provider::OpenRouter
    } else {
        Provider::XAi
    }
}

/// Maps the configuration value onto the provider it names.
pub fn provider_named(name: &String) -> (p: Provider)
    ensures
        p == provider_named_spec(name@),
{
    let key = String::from_str("openrouter");
    if *name == key {
        Provider::OpenRouter
    } else {
        Provider::XAi
    }
}

/// The model each provider answers with when the configuration names none.
pub open spec fn default_model_spec(p: Provider) -> Seq<char> {
    match p {
        Provider::XAi => "grok-3"@,
        Provider::OpenRouter => "meta-ai/llama-3.1-8b-instruct"@,
    }
}

/// Returns the model identifier used for `p` when none is configured.
pub fn default_model(p: Provider) -> (m: String)
    ensures
        m@ == default_model_spec(p),
{
    match p {
        Provider::XAi => String::from_str("grok-3"),
        Provider::OpenRouter => String::from_str("meta-ai/llama-3.1-8b-instruct"),
    }
}

} // verus!
