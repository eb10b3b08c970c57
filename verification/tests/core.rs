use terminai::errors::{error_message, ErrorKind};
use terminai::json::json_escape;
use terminai::provider::{default_model, endpoint, provider_named, Config, Provider};
use terminai::reply::{interpret_outcome, suggestion_of_reply, FetchOutcome, ParsedReply};
use terminai::request::{build_headers, build_prompt, build_request, build_request_body};
use terminai::run::{command_of_args, plan_after_probe, report, RunOutcome, Step};
use terminai::text::{first_token, join_args};

fn xai_config() -> Config {
    Config {
        provider: Provider::XAi,
        api_key: String::from("SECRET-REDACTED"),
        model: String::from("grok-3"),
    }
}

fn openrouter_config() -> Config {
    Config {
        provider: Provider::OpenRouter,
        api_key: String::from("SECRET-REDACTED"),
        model: String::from("meta-ai/llama-3.1-8b-instruct"),
    }
}

#[test]
fn empty_invocation_is_rejected() {
    let args: Vec<String> = Vec::new();
    match command_of_args(&args) {
        Err(ErrorKind::InvalidInvocation) => {}
        other => panic!("expected InvalidInvocation, got {:?}", other),
    }
}

#[test]
fn nonempty_invocation_joins_arguments() {
    let args = vec![String::from("gti"), String::from("status")];
    assert_eq!(command_of_args(&args).unwrap(), "gti status");
    let args = vec![String::from("ls")];
    assert_eq!(command_of_args(&args).unwrap(), "ls");
    let args = vec![String::from("grep"), String::from("-r"), String::from("--color")];
    assert_eq!(command_of_args(&args).unwrap(), "grep -r --color");
}

#[test]
fn first_token_of_command() {
    assert_eq!(first_token("gti status"), "gti");
    assert_eq!(first_token("ls"), "ls");
    assert_eq!(first_token("  ls -la"), "ls");
    assert_eq!(first_token("cmd\targ"), "cmd");
}

#[test]
fn first_token_without_token_is_whole_line() {
    assert_eq!(first_token(""), "");
    assert_eq!(first_token("   "), "   ");
}

#[test]
fn resolvable_command_ends_the_run() {
    let step = plan_after_probe(&xai_config(), "ls -la", true);
    match step {
        Step::Valid => {}
        _ => panic!("expected Valid"),
    }
}

#[test]
fn unresolvable_command_queries_the_configured_provider() {
    let step = plan_after_probe(&xai_config(), "gti status", false);
    match step {
        Step::Query(req) => {
            assert_eq!(req.url, "https://api.x.ai/v1/chat/completions");
            assert!(req.body.contains("gti status"));
            assert!(req.body.contains("\"model\":\"grok-3\""));
        }
        _ => panic!("expected Query"),
    }
}

#[test]
fn provider_switch_changes_endpoint_not_flow() {
    let s1 = plan_after_probe(&xai_config(), "gti status", false);
    let s2 = plan_after_probe(&openrouter_config(), "gti status", false);
    match (s1, s2) {
        (Step::Query(r1), Step::Query(r2)) => {
            assert_eq!(r1.url, "https://api.x.ai/v1/chat/completions");
            assert_eq!(r2.url, "https://openrouter.ai/api/v1/chat/completions");
        }
        _ => panic!("both plans must query"),
    }
    let v1 = plan_after_probe(&xai_config(), "ls", true);
    let v2 = plan_after_probe(&openrouter_config(), "ls", true);
    assert!(matches!(v1, Step::Valid));
    assert!(matches!(v2, Step::Valid));
}

#[test]
fn missing_key_is_a_configuration_error_before_any_request() {
    let config = Config {
        provider: Provider::XAi,
        api_key: String::new(),
        model: String::from("grok-3"),
    };
    match plan_after_probe(&config, "gti status", false) {
        Step::Reject(kind) => {
            assert_eq!(kind, ErrorKind::Configuration);
            let rep = report(RunOutcome::Failure(kind));
            assert_eq!(rep.line, "API key for the selected provider is not set");
            assert!(rep.to_error_stream);
            assert_eq!(rep.exit_code, 1);
        }
        _ => panic!("expected Reject"),
    }
}

#[test]
fn content_round_trip() {
    let body = "{\"choices\":[{\"message\":{\"content\":\"try `ls -la`\"}}]}";
    let outcome = FetchOutcome::Response { status: 200, body: String::from(body) };
    assert_eq!(interpret_outcome(outcome).unwrap(), "try `ls -la`");
}

#[test]
fn missing_content_degrades_to_placeholder() {
    let body = "{\"choices\":[]}";
    let outcome = FetchOutcome::Response { status: 200, body: String::from(body) };
    assert_eq!(interpret_outcome(outcome).unwrap(), "No suggestion available");
    let body = "{\"choices\":[{\"message\":{\"content\":7}}]}";
    let outcome = FetchOutcome::Response { status: 200, body: String::from(body) };
    assert_eq!(interpret_outcome(outcome).unwrap(), "No suggestion available");
}

#[test]
fn non_json_reply_is_a_provider_response_error() {
    let outcome = FetchOutcome::Response { status: 200, body: String::from("not json") };
    assert_eq!(interpret_outcome(outcome).unwrap_err(), ErrorKind::ProviderResponse);
}

#[test]
fn http_500_is_a_provider_response_error() {
    let body = "{\"error\":\"internal\"}";
    let outcome = FetchOutcome::Response { status: 500, body: String::from(body) };
    let result = interpret_outcome(outcome);
    assert_eq!(result.unwrap_err(), ErrorKind::ProviderResponse);
    let rep = report(RunOutcome::Failure(ErrorKind::ProviderResponse));
    assert!(rep.to_error_stream);
    assert_eq!(rep.exit_code, 1);
}

#[test]
fn transport_failure_is_a_transport_error() {
    assert_eq!(
        interpret_outcome(FetchOutcome::TransportFailure).unwrap_err(),
        ErrorKind::Transport
    );
}

#[test]
fn gti_status_scenario() {
    let args = vec![String::from("gti"), String::from("status")];
    let command = command_of_args(&args).unwrap();
    assert_eq!(first_token(&command), "gti");
    let step = plan_after_probe(&xai_config(), &command, false);
    let req = match step {
        Step::Query(req) => req,
        _ => panic!("expected exactly one query"),
    };
    assert_eq!(req.url, "https://api.x.ai/v1/chat/completions");
    assert!(req.body.contains("gti status"));
    let reply = "{\"choices\":[{\"message\":{\"content\":\"did you mean `git status`?\"}}]}";
    let outcome = FetchOutcome::Response { status: 200, body: String::from(reply) };
    let suggestion = interpret_outcome(outcome).unwrap();
    let rep = report(RunOutcome::Suggestion(suggestion));
    assert_eq!(rep.line, "did you mean `git status`?");
    assert!(!rep.to_error_stream);
    assert_eq!(rep.exit_code, 0);
}

#[test]
fn valid_command_report() {
    let rep = report(RunOutcome::ValidCommand(String::from("ls -la")));
    assert_eq!(rep.line, "Command 'ls -la' exists, executing normally.");
    assert!(!rep.to_error_stream);
    assert_eq!(rep.exit_code, 0);
}

#[test]
fn error_messages() {
    assert_eq!(error_message(ErrorKind::InvalidInvocation), "No command provided");
    assert_eq!(
        error_message(ErrorKind::Configuration),
        "API key for the selected provider is not set"
    );
    assert_eq!(
        error_message(ErrorKind::Transport),
        "Network error while contacting the provider"
    );
    assert_eq!(
        error_message(ErrorKind::ProviderResponse),
        "Provider returned an unexpected response"
    );
}

#[test]
fn prompt_embeds_the_command_verbatim() {
    assert_eq!(
        build_prompt("gti status"),
        "User entered an unrecognized command: 'gti status'. \
         Provide a helpful suggestion or explanation."
    );
    assert_eq!(
        build_prompt("echo \"a b\""),
        "User entered an unrecognized command: 'echo \"a b\"'. \
         Provide a helpful suggestion or explanation."
    );
}

#[test]
fn json_escaping() {
    assert_eq!(json_escape("plain text"), "plain text");
    assert_eq!(json_escape("say \"hi\""), "say \\\"hi\\\"");
    assert_eq!(json_escape("a\\b"), "a\\\\b");
    assert_eq!(json_escape("line\nbreak"), "line\\nbreak");
    assert_eq!(json_escape("tab\there"), "tab\\there");
    assert_eq!(json_escape("cr\rhere"), "cr\\rhere");
    assert_eq!(json_escape("\u{1}"), "\\u0001");
    assert_eq!(json_escape("\u{1f}"), "\\u001f");
}

#[test]
fn request_body_shape() {
    let body = build_request_body("grok-3", "fix `gti`");
    assert_eq!(
        body,
        "{\"model\":\"grok-3\",\"messages\":[\
         {\"role\":\"system\",\"content\":\"You are a helpful shell assistant. \
         Provide safe, accurate suggestions.\"},\
         {\"role\":\"user\",\"content\":\"fix `gti`\"}]}"
    );
    let parsed: serde_json::Value = serde_json::from_str(&body).unwrap();
    assert_eq!(parsed["model"], "grok-3");
    assert_eq!(parsed["messages"][1]["role"], "user");
    assert_eq!(parsed["messages"][1]["content"], "fix `gti`");
}

#[test]
fn request_body_stays_json_under_escaping() {
    let body = build_request_body("m\"x", "quote \" backslash \\ newline \n done");
    let parsed: serde_json::Value = serde_json::from_str(&body).unwrap();
    assert_eq!(parsed["model"], "m\"x");
    assert_eq!(
        parsed["messages"][1]["content"],
        "quote \" backslash \\ newline \n done"
    );
}

#[test]
fn headers_per_provider() {
    let hs = build_headers(Provider::XAi, "k123");
    assert_eq!(hs.len(), 2);
    assert_eq!(hs[0].name, "Authorization");
    assert_eq!(hs[0].value, "Bearer k123");
    assert_eq!(hs[1].name, "Content-Type");
    assert_eq!(hs[1].value, "application/json");

    let hs = build_headers(Provider::OpenRouter, "k456");
    assert_eq!(hs.len(), 4);
    assert_eq!(hs[0].value, "Bearer k456");
    assert_eq!(hs[2].name, "HTTP-Referer");
    assert_eq!(hs[2].value, "https://SleepyStudio.xyz");
    assert_eq!(hs[3].name, "X-Title");
    assert_eq!(hs[3].value, "TerminAI");
}

#[test]
fn built_request_carries_model_and_headers() {
    let req = build_request(&openrouter_config(), "gti status");
    assert_eq!(req.url, "https://openrouter.ai/api/v1/chat/completions");
    assert_eq!(req.headers.len(), 4);
    assert!(req.body.contains("meta-ai/llama-3.1-8b-instruct"));
    assert!(req.body.contains("gti status"));
}

#[test]
fn provider_selection_by_name() {
    assert_eq!(provider_named(&String::from("openrouter")), Provider::OpenRouter);
    assert_eq!(provider_named(&String::from("xai")), Provider::XAi);
    assert_eq!(provider_named(&String::from("anything-else")), Provider::XAi);
}

#[test]
fn provider_constants() {
    assert_eq!(endpoint(Provider::XAi), "https://api.x.ai/v1/chat/completions");
    assert_eq!(endpoint(Provider::OpenRouter), "https://openrouter.ai/api/v1/chat/completions");
    assert_eq!(default_model(Provider::XAi), "grok-3");
    assert_eq!(default_model(Provider::OpenRouter), "meta-ai/llama-3.1-8b-instruct");
}

#[test]
fn suggestion_of_classified_replies() {
    assert_eq!(
        suggestion_of_reply(ParsedReply::Content(String::from("use git"))).unwrap(),
        "use git"
    );
    assert_eq!(
        suggestion_of_reply(ParsedReply::MissingContent).unwrap(),
        "No suggestion available"
    );
    assert_eq!(
        suggestion_of_reply(ParsedReply::Malformed).unwrap_err(),
        ErrorKind::ProviderResponse
    );
}

#[test]
fn join_then_first_token_keeps_hyphenated_arguments() {
    let args = vec![String::from("foo"), String::from("--bar"), String::from("-x")];
    let command = join_args(&args);
    assert_eq!(command, "foo --bar -x");
    assert_eq!(first_token(&command), "foo");
}
