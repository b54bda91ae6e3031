use base64::Engine;
use simple_auth_chat::error::ChatError;
use simple_auth_chat::flow::{Orchestrator, Phase, Step};
use simple_auth_chat::request::{direct_call, session_call, session_call_with_id};
use simple_auth_chat::token::{Credential, TokenBundle};

fn id_token(account: &str) -> String {
    let payload = format!(
        "{{\"https://api.openai.com/auth\":{{\"chatgpt_account_id\":\"{}\"}}}}",
        account
    );
    format!(
        "h.{}.s",
        base64::engine::general_purpose::URL_SAFE_NO_PAD.encode(payload.as_bytes())
    )
}

fn session(refresh: Option<&str>) -> Orchestrator {
    Orchestrator::new(Credential::SessionTokens(TokenBundle {
        id_token: id_token("acct"),
        access_token: Some("old-access".to_string()),
        refresh_token: refresh.map(|r| r.to_string()),
    }))
}

const STREAM_OK: &str =
    "data: {\"type\":\"response.output_text.delta\",\"delta\":\"done\"}\n\ndata: [DONE]\n\n";

#[test]
fn session_refreshes_once_then_succeeds() {
    let mut o = session(Some("r"));
    let mut refreshes = 0;
    assert!(matches!(o.on_chat_reply(401, "expired"), Step::SendRefresh));
    refreshes += 1;
    assert_eq!(o.phase, Phase::Refreshing);
    let q = o.refresh_call().unwrap();
    assert_eq!(q.grant_type, "refresh_token");
    assert_eq!(q.refresh_token, "r");
    assert!(matches!(
        o.on_refresh_reply(200, r#"{"id_token":"new-id","access_token":"new-access"}"#),
        Step::SendChat
    ));
    assert!(o.refreshed);
    match &o.credential {
        Credential::SessionTokens(t) => {
            assert_eq!(t.id_token, "new-id");
            assert_eq!(t.access_token.as_deref(), Some("new-access"));
            assert_eq!(t.refresh_token.as_deref(), Some("r"));
        }
        other => panic!("unexpected {:?}", other),
    }
    match o.on_chat_reply(200, STREAM_OK) {
        Step::Finish(Ok(t)) => assert_eq!(t, "done"),
        other => panic!("unexpected {:?}", other),
    }
    assert_eq!(refreshes, 1);
    assert_eq!(o.phase, Phase::Finished);
}

#[test]
fn second_unauthorized_is_rejected() {
    let mut o = session(Some("r"));
    assert!(matches!(o.on_chat_reply(401, ""), Step::SendRefresh));
    assert!(matches!(o.on_refresh_reply(200, r#"{"id_token":"b"}"#), Step::SendChat));
    assert!(matches!(o.on_chat_reply(401, ""), Step::Finish(Err(ChatError::RefreshRejected))));
    assert_eq!(o.phase, Phase::Finished);
}

#[test]
fn api_key_unauthorized_is_final() {
    let mut o = Orchestrator::new(Credential::ApiKey("sk".to_string()));
    assert!(matches!(o.on_chat_reply(401, ""), Step::Finish(Err(ChatError::Unauthorized))));
    assert_eq!(o.phase, Phase::Finished);
    assert!(!o.refreshed);
    assert!(matches!(o.refresh_call(), Err(ChatError::NoRefreshToken)));
}

#[test]
fn api_key_success_decodes_plain_reply() {
    let mut o = Orchestrator::new(Credential::ApiKey("sk".to_string()));
    let body = r#"{"output":[{"content":[{"type":"output_text","text":"plain"}]}]}"#;
    match o.on_chat_reply(200, body) {
        Step::Finish(Ok(t)) => assert_eq!(t, "plain"),
        other => panic!("unexpected {:?}", other),
    }
}

#[test]
fn other_failure_status_keeps_status_and_body() {
    let mut o = session(Some("r"));
    match o.on_chat_reply(500, "boom") {
        Step::Finish(Err(ChatError::BackendError { status, body })) => {
            assert_eq!(status, 500);
            assert_eq!(body, "boom");
        }
        other => panic!("unexpected {:?}", other),
    }
}

#[test]
fn unauthorized_without_refresh_token() {
    let mut o = session(None);
    assert!(matches!(o.on_chat_reply(401, ""), Step::Finish(Err(ChatError::NoRefreshToken))));
}

#[test]
fn refused_refresh_keeps_status_and_body() {
    let mut o = session(Some("r"));
    assert!(matches!(o.on_chat_reply(401, ""), Step::SendRefresh));
    match o.on_refresh_reply(400, "invalid_grant") {
        Step::Finish(Err(ChatError::RefreshFailed { status, body })) => {
            assert_eq!(status, 400);
            assert_eq!(body, "invalid_grant");
        }
        other => panic!("unexpected {:?}", other),
    }
}

#[test]
fn empty_stream_after_success_status() {
    let mut o = session(Some("r"));
    assert!(matches!(
        o.on_chat_reply(200, "data: [DONE]\n\n"),
        Step::Finish(Err(ChatError::EmptyStreamResult { .. }))
    ));
}

#[test]
fn session_call_headers() {
    let bundle = TokenBundle {
        id_token: id_token("acct-7"),
        access_token: Some(" tok ".to_string()),
        refresh_token: None,
    };
    let call = session_call_with_id(&bundle, "hi", "conv-1").unwrap();
    assert_eq!(call.url, "https://chatgpt.com/backend-api/codex/responses");
    assert_eq!(call.bearer, "tok");
    let pairs: Vec<(&str, &str)> =
        call.headers.iter().map(|(k, v)| (k.as_str(), v.as_str())).collect();
    assert_eq!(
        pairs,
        vec![
            ("OpenAI-Beta", "responses=experimental"),
            ("chatgpt-account-id", "acct-7"),
            ("conversation_id", "conv-1"),
            ("session_id", "conv-1"),
        ]
    );
    assert!(call.request.stream);
    assert!(!call.request.store);
    assert_eq!(call.request.input[0].role, "user");
    assert_eq!(call.request.input[0].content[0].kind, "input_text");
    assert_eq!(call.request.input[0].content[0].text, "hi");
}

#[test]
fn session_call_uses_one_fresh_identifier() {
    let bundle = TokenBundle {
        id_token: id_token("acct"),
        access_token: Some("tok".to_string()),
        refresh_token: None,
    };
    let a = session_call(&bundle, "hi").unwrap();
    let b = session_call(&bundle, "hi").unwrap();
    assert_eq!(a.headers[2].1, a.headers[3].1);
    assert_eq!(a.headers[2].1.len(), 36);
    assert_ne!(a.headers[2].1, b.headers[2].1);
}

#[test]
fn session_call_with_bad_token() {
    let bundle = TokenBundle {
        id_token: "not-a-jwt".to_string(),
        access_token: Some("tok".to_string()),
        refresh_token: None,
    };
    assert!(matches!(session_call(&bundle, "hi"), Err(ChatError::MalformedToken)));
}

#[test]
fn direct_call_is_not_streamed() {
    let call = direct_call("sk-1", "hello");
    assert_eq!(call.url, "https://api.openai.com/v1/responses");
    assert_eq!(call.bearer, "sk-1");
    assert!(call.headers.is_empty());
    assert!(!call.request.stream);
    assert!(!call.request.store);
    assert_eq!(call.request.model, "gpt-5-codex");
}
