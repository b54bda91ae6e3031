use simple_auth_chat::error::ChatError;
use simple_auth_chat::reply::{
    decode_reply_body, first_output_text, OutputContent, OutputMessage, ResponsesReply,
};
use simple_auth_chat::stream::{data_payload, decode_stream, fold_stream_events, StreamEvent};
use simple_auth_chat::text::split_text;

fn piece(kind: &str, text: Option<&str>) -> OutputContent {
    OutputContent { kind: kind.to_string(), text: text.map(|t| t.to_string()) }
}

fn message(pieces: Vec<OutputContent>) -> OutputMessage {
    OutputMessage { role: Some("assistant".to_string()), content: pieces }
}

fn reply_with_text(t: &str) -> ResponsesReply {
    ResponsesReply { output: vec![message(vec![piece("output_text", Some(t))])] }
}

fn delta(t: &str) -> StreamEvent {
    StreamEvent {
        kind: "response.output_text.delta".to_string(),
        delta: Some(t.to_string()),
        response: None,
    }
}

fn completed(r: ResponsesReply) -> StreamEvent {
    StreamEvent { kind: "response.completed".to_string(), delta: None, response: Some(r) }
}

fn delta_line(t: &str) -> String {
    format!("data: {{\"type\":\"response.output_text.delta\",\"delta\":\"{}\"}}\n\n", t)
}

fn completed_line(t: &str) -> String {
    format!(
        "data: {{\"type\":\"response.completed\",\"response\":{{\"output\":[{{\"role\":\"assistant\",\"content\":[{{\"type\":\"output_text\",\"text\":\"{}\"}}]}}]}}}}\n\n",
        t
    )
}

#[test]
fn first_output_text_in_document_order() {
    let reply = ResponsesReply {
        output: vec![
            message(vec![piece("reasoning", Some("thinking")), piece("output_text", None)]),
            message(vec![
                piece("refusal", Some("no")),
                piece("output_text", Some("first")),
                piece("output_text", Some("second")),
            ]),
            message(vec![piece("output_text", Some("third"))]),
        ],
    };
    assert_eq!(first_output_text(&reply).unwrap(), "first");
}

#[test]
fn no_output_text_is_an_error() {
    let reply = ResponsesReply {
        output: vec![message(vec![piece("reasoning", Some("x"))]), message(vec![])],
    };
    assert!(matches!(first_output_text(&reply), Err(ChatError::NoOutputText)));
    let empty = ResponsesReply { output: vec![] };
    assert!(matches!(first_output_text(&empty), Err(ChatError::NoOutputText)));
}

#[test]
fn plain_reply_body_is_decoded() {
    let body = r#"{"id":"r1","output":[{"type":"reasoning","content":[]},{"role":"assistant","content":[{"type":"output_text","text":"Hi there"}]}]}"#;
    assert_eq!(decode_reply_body(body).unwrap(), "Hi there");
}

#[test]
fn plain_reply_without_text() {
    let body = r#"{"output":[{"content":[{"type":"output_text","text":null}]}]}"#;
    assert!(matches!(decode_reply_body(body), Err(ChatError::NoOutputText)));
}

#[test]
fn malformed_reply_body_keeps_the_body() {
    match decode_reply_body("oops") {
        Err(ChatError::MalformedReply { body }) => assert_eq!(body, "oops"),
        other => panic!("unexpected {:?}", other),
    }
    assert!(matches!(
        decode_reply_body(r#"{"output":"no"}"#),
        Err(ChatError::MalformedReply { .. })
    ));
}

#[test]
fn deltas_win_over_completed() {
    let events = vec![delta("Hel"), delta("lo"), completed(reply_with_text("ignored"))];
    assert_eq!(fold_stream_events(&events).unwrap(), "Hello");
}

#[test]
fn completed_is_the_fallback() {
    let events = vec![completed(reply_with_text("World"))];
    assert_eq!(fold_stream_events(&events).unwrap(), "World");
}

#[test]
fn no_events_give_no_answer() {
    assert!(fold_stream_events(&vec![]).is_none());
}

#[test]
fn stream_body_with_deltas() {
    let body = format!("{}{}{}data: [DONE]\n\n", delta_line("Hel"), delta_line("lo"), completed_line("ignored"));
    assert_eq!(decode_stream(&body).unwrap(), "Hello");
}

#[test]
fn stream_body_with_completed_only() {
    let body = format!("event: response.completed\n{}data: [DONE]\n\n", completed_line("World"));
    assert_eq!(decode_stream(&body).unwrap(), "World");
}

#[test]
fn empty_stream_fails() {
    match decode_stream("") {
        Err(ChatError::EmptyStreamResult { body }) => assert_eq!(body, ""),
        other => panic!("unexpected {:?}", other),
    }
}

#[test]
fn done_only_stream_fails() {
    match decode_stream("data: [DONE]\n\n") {
        Err(ChatError::EmptyStreamResult { body }) => assert_eq!(body, "data: [DONE]\n\n"),
        other => panic!("unexpected {:?}", other),
    }
}

#[test]
fn malformed_frames_are_skipped() {
    let body = format!(
        "data: {{not json\n\ndata: {{\"delta\":\"no type\"}}\n\n{}data: {{\"type\":\"response.created\"}}\n\n",
        delta_line("ok")
    );
    assert_eq!(decode_stream(&body).unwrap(), "ok");
}

#[test]
fn crlf_framed_stream() {
    let body = "data: {\"type\":\"response.output_text.delta\",\"delta\":\"a\"}\r\n\r\ndata: {\"type\":\"response.output_text.delta\",\"delta\":\"b\"}\r\n\r\n";
    assert_eq!(decode_stream(body).unwrap(), "ab");
}

#[test]
fn data_lines_are_trimmed() {
    assert_eq!(data_payload("  data:   {\"a\":1}  ").unwrap(), "{\"a\":1}");
    assert!(data_payload("data: [DONE]").is_none());
    assert!(data_payload("data:    ").is_none());
    assert!(data_payload("event: x").is_none());
    assert!(data_payload("dat").is_none());
}

#[test]
fn text_splits_at_each_separator() {
    let parts = split_text("a..b.", '.');
    assert_eq!(parts, vec!["a", "", "b", ""]);
    assert_eq!(split_text("", '.'), vec![""]);
}
