use base64::Engine;
use simple_auth_chat::error::ChatError;
use simple_auth_chat::token::{
    account_id_from_token, merge_refreshed, parse_refresh_response, select_credential,
    Credential, TokenBundle,
};

fn encode(payload: &str) -> String {
    base64::engine::general_purpose::URL_SAFE_NO_PAD.encode(payload.as_bytes())
}

fn token_with(payload: &str) -> String {
    format!("header.{}.signature", encode(payload))
}

fn bundle(id: &str, access: Option<&str>, refresh: Option<&str>) -> TokenBundle {
    TokenBundle {
        id_token: id.to_string(),
        access_token: access.map(|s| s.to_string()),
        refresh_token: refresh.map(|s| s.to_string()),
    }
}

#[test]
fn account_id_is_read_from_payload() {
    let token = token_with(r#"{"https://api.openai.com/auth":{"chatgpt_account_id":"acct-42"}}"#);
    assert_eq!(account_id_from_token(&token).unwrap(), "acct-42");
}

#[test]
fn account_id_ignores_other_claims() {
    let token = token_with(
        r#"{"sub":"u1","https://api.openai.com/auth":{"plan":"pro","chatgpt_account_id":"a-b-c"}}"#,
    );
    assert_eq!(account_id_from_token(&token).unwrap(), "a-b-c");
}

#[test]
fn two_segments_are_malformed() {
    let token = format!("header.{}", encode("{}"));
    assert!(matches!(account_id_from_token(&token), Err(ChatError::MalformedToken)));
}

#[test]
fn four_segments_are_malformed() {
    let payload = encode(r#"{"https://api.openai.com/auth":{"chatgpt_account_id":"x"}}"#);
    let token = format!("h.{}.s.extra", payload);
    assert!(matches!(account_id_from_token(&token), Err(ChatError::MalformedToken)));
}

#[test]
fn empty_segment_is_malformed() {
    let token = format!("h.{}.", encode("{}"));
    assert!(matches!(account_id_from_token(&token), Err(ChatError::MalformedToken)));
    assert!(matches!(account_id_from_token(""), Err(ChatError::MalformedToken)));
}

#[test]
fn payload_that_is_not_base64url_fails_to_decode() {
    assert!(matches!(account_id_from_token("h.@@@.s"), Err(ChatError::TokenDecodeError)));
}

#[test]
fn payload_that_is_not_json_fails_to_decode() {
    let token = token_with("not json");
    assert!(matches!(account_id_from_token(&token), Err(ChatError::TokenDecodeError)));
}

#[test]
fn missing_claim_container() {
    let token = token_with(r#"{"sub":"u1"}"#);
    assert!(matches!(account_id_from_token(&token), Err(ChatError::MissingAccountClaim)));
}

#[test]
fn missing_claim_inside_container() {
    let token = token_with(r#"{"https://api.openai.com/auth":{"plan":"pro"}}"#);
    assert!(matches!(account_id_from_token(&token), Err(ChatError::MissingAccountClaim)));
}

#[test]
fn api_key_is_preferred_and_trimmed() {
    let c = select_credential(Some("  sk-test \n".to_string()), Some(bundle("i", Some("a"), None)));
    match c {
        Some(Credential::ApiKey(k)) => assert_eq!(k, "sk-test"),
        other => panic!("unexpected {:?}", other),
    }
}

#[test]
fn blank_api_key_falls_back_to_tokens() {
    let c = select_credential(Some("   ".to_string()), Some(bundle("i", Some("a"), None)));
    assert!(matches!(c, Some(Credential::SessionTokens(_))));
}

#[test]
fn refresh_token_alone_selects_session() {
    let c = select_credential(None, Some(bundle("i", None, Some("r"))));
    assert!(matches!(c, Some(Credential::SessionTokens(_))));
}

#[test]
fn nothing_usable_selects_nothing() {
    assert!(select_credential(None, None).is_none());
    assert!(select_credential(None, Some(bundle("i", Some(" "), None))).is_none());
}

#[test]
fn refresh_merge_keeps_omitted_tokens() {
    let old = bundle("a", Some("x"), Some("r"));
    let fresh = parse_refresh_response(r#"{"id_token":"b"}"#).unwrap();
    let merged = merge_refreshed(&old, fresh);
    assert_eq!(merged.id_token, "b");
    assert_eq!(merged.access_token.as_deref(), Some("x"));
    assert_eq!(merged.refresh_token.as_deref(), Some("r"));
}

#[test]
fn refresh_merge_takes_rotated_tokens() {
    let old = bundle("a", Some("x"), Some("r"));
    let fresh =
        parse_refresh_response(r#"{"id_token":"b","access_token":"y","refresh_token":"s"}"#)
            .unwrap();
    let merged = merge_refreshed(&old, fresh);
    assert_eq!(merged.id_token, "b");
    assert_eq!(merged.access_token.as_deref(), Some("y"));
    assert_eq!(merged.refresh_token.as_deref(), Some("s"));
}

#[test]
fn refresh_response_without_id_token_is_refused() {
    assert!(parse_refresh_response(r#"{"access_token":"y"}"#).is_none());
    assert!(parse_refresh_response("not json").is_none());
    assert!(parse_refresh_response(r#"{"id_token":"b","access_token":3}"#).is_none());
}
