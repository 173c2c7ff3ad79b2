use neural_how::dispatch::dispatch;
use neural_how::dispatch::DispatchPlan;
use neural_how::server::handle_delegation;
use neural_how::server::ServerOutcome;
use neural_how::server::TokenMappings;
use neural_how::Question;

/// A mock transport: records every call it would make and hands back a
/// canned body.
struct MockTransport {
    provider_calls: Vec<String>,
    delegation_calls: Vec<String>,
}

impl MockTransport {
    fn new() -> MockTransport {
        MockTransport { provider_calls: Vec::new(), delegation_calls: Vec::new() }
    }
}

#[test]
fn local_decode_makes_exactly_one_provider_call_and_no_delegation() {
    let mut transport = MockTransport::new();
    let question = Question::new(String::from("list files"), String::from("textsynth-gptj_6B-sk"));
    let answer = match dispatch(question, "https://example.invalid/how") {
        DispatchPlan::Local { completion, request } => {
            transport.provider_calls.push(request.url.clone());
            let canned = "{\"text\":\"ls -la\"}";
            completion.complete(canned).unwrap()
        }
        DispatchPlan::Delegate { delegation } => {
            transport.delegation_calls.push(delegation.url.clone());
            panic!("a decodable token must not delegate");
        }
    };
    assert_eq!(answer, "ls -la");
    assert_eq!(transport.provider_calls.len(), 1);
    assert_eq!(
        transport.provider_calls[0],
        "https://api.textsynth.com/v1/engines/gptj_6B/completions"
    );
    assert_eq!(transport.delegation_calls.len(), 0);
}

#[test]
fn failed_decode_delegates_the_original_question_verbatim() {
    let question = Question::new(String::from("list files"), String::from("opaque-delegation"));
    match dispatch(question, "https://example.invalid/how") {
        DispatchPlan::Local { .. } => panic!("an undecodable token must delegate"),
        DispatchPlan::Delegate { delegation } => {
            assert_eq!(delegation.url, "https://example.invalid/how");
            assert_eq!(delegation.bearer, "opaque-delegation");
            assert_eq!(delegation.question, "list files");
        }
    }
}

fn mappings() -> TokenMappings {
    TokenMappings::new(vec![
        (String::from("alpha"), String::from("openai-ada-sk-1")),
        (String::from("beta"), String::from("not-a-provider")),
        (String::from("alpha"), String::from("openai-ada-sk-shadowed")),
    ])
}

#[test]
fn lookup_returns_the_first_match() {
    let m = mappings();
    assert_eq!(m.lookup("alpha"), Some(String::from("openai-ada-sk-1")));
    assert_eq!(m.lookup("beta"), Some(String::from("not-a-provider")));
    assert_eq!(m.lookup("gamma"), None);
}

#[test]
fn missing_header_is_unauthorized() {
    let r = handle_delegation(&mappings(), None, "list files");
    assert!(matches!(r, ServerOutcome::Unauthorized));
}

#[test]
fn short_header_is_unauthorized() {
    let r = handle_delegation(&mappings(), Some("Basic"), "list files");
    assert!(matches!(r, ServerOutcome::Unauthorized));
}

#[test]
fn non_bearer_scheme_is_unauthorized() {
    let r = handle_delegation(&mappings(), Some("Basic  alpha"), "list files");
    assert!(matches!(r, ServerOutcome::Unauthorized));
    let r = handle_delegation(&mappings(), Some("XXXXXXXalpha"), "list files");
    assert!(matches!(r, ServerOutcome::Unauthorized));
}

#[test]
fn unknown_delegation_token_is_unauthorized() {
    let r = handle_delegation(&mappings(), Some("Bearer gamma"), "list files");
    assert!(matches!(r, ServerOutcome::Unauthorized));
}

#[test]
fn resolved_token_runs_the_same_pipeline() {
    let r = handle_delegation(&mappings(), Some("Bearer alpha"), "list files");
    match r {
        ServerOutcome::Proceed { completion, request } => {
            assert_eq!(completion.engine(), "ada");
            assert_eq!(completion.secret(), "sk-1");
            assert_eq!(completion.prompt(), "how list files\nA:\n```bash\n");
            assert_eq!(request.url, "https://api.openai.com/v1/engines/ada/completion");
            assert_eq!(request.bearer, "sk-1");
        }
        _ => panic!("a mapped, decodable token must proceed"),
    }
}

#[test]
fn resolved_but_undecodable_token_is_a_definitive_client_error() {
    let r = handle_delegation(&mappings(), Some("Bearer beta"), "list files");
    assert!(matches!(r, ServerOutcome::BadToken));
}
