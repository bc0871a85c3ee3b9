use chat_core::relay::{
    parse_method, plan_request, status_is_success, HttpMethod, Relay, RelayAction, RelayError,
    RelayInput, RelayPhase, RelayRequest,
};

fn request(method: &str, body: &str) -> RelayRequest {
    RelayRequest {
        url: "http://localhost:8080/chat".to_string(),
        method: method.to_string(),
        headers: vec![
            ("Content-Type".to_string(), "application/json".to_string()),
            ("X-Trace".to_string(), "abc".to_string()),
        ],
        body: body.to_string(),
    }
}

fn started(method: &str, body: &str) -> Relay {
    let mut relay = Relay::new();
    assert!(relay.start(request(method, body)).is_some());
    relay
}

#[test]
fn known_methods_are_kept() {
    assert_eq!(parse_method("GET"), HttpMethod::Get);
    assert_eq!(parse_method("POST"), HttpMethod::Post);
}

#[test]
fn unknown_method_falls_back_to_post() {
    assert_eq!(parse_method("DELETE"), HttpMethod::Post);
    assert_eq!(parse_method("get"), HttpMethod::Post);
    assert_eq!(parse_method(""), HttpMethod::Post);
    assert_eq!(plan_request(request("PATCH", "x")).method, HttpMethod::Post);
}

#[test]
fn empty_body_is_sent_as_no_body() {
    let plan = plan_request(request("POST", ""));
    assert_eq!(plan.body, None);
    let plan = plan_request(request("POST", "{\"q\":1}"));
    assert_eq!(plan.body, Some("{\"q\":1}".to_string()));
}

#[test]
fn headers_and_url_pass_verbatim() {
    let plan = plan_request(request("GET", ""));
    assert_eq!(plan.method, HttpMethod::Get);
    assert_eq!(plan.url, "http://localhost:8080/chat");
    assert_eq!(plan.headers, request("GET", "").headers);
}

#[test]
fn success_statuses() {
    assert!(!status_is_success(199));
    assert!(status_is_success(200));
    assert!(status_is_success(299));
    assert!(!status_is_success(300));
    assert!(!status_is_success(404));
}

#[test]
fn start_only_once() {
    let mut relay = Relay::new();
    assert_eq!(relay.phase, RelayPhase::Idle);
    assert!(relay.start(request("GET", "")).is_some());
    assert_eq!(relay.phase, RelayPhase::RequestSent);
    assert!(relay.start(request("GET", "")).is_none());
    assert_eq!(relay.phase, RelayPhase::RequestSent);
}

#[test]
fn streamed_chunks_then_one_completion() {
    let mut relay = started("POST", "hi");
    assert_eq!(relay.step(RelayInput::Responded(200)), RelayAction::ReadChunk);
    let chunks = ["Hel", "lo, ", "world"];
    for c in chunks {
        let action = relay.step(RelayInput::Chunk(c.as_bytes().to_vec()));
        assert_eq!(action, RelayAction::EmitChunk(c.to_string()));
    }
    assert_eq!(relay.step(RelayInput::StreamEnded), RelayAction::EmitComplete);
    assert_eq!(relay.phase, RelayPhase::Complete);
    assert_eq!(relay.step(RelayInput::Chunk(b"late".to_vec())), RelayAction::Ignore);
    assert_eq!(relay.step(RelayInput::StreamEnded), RelayAction::Ignore);
    assert_eq!(relay.phase, RelayPhase::Complete);
}

#[test]
fn empty_stream_completes_at_once() {
    let mut relay = started("GET", "");
    assert_eq!(relay.step(RelayInput::Responded(204)), RelayAction::ReadChunk);
    assert_eq!(relay.step(RelayInput::StreamEnded), RelayAction::EmitComplete);
}

#[test]
fn error_status_fails_with_status_and_body() {
    let mut relay = started("POST", "hi");
    assert_eq!(relay.step(RelayInput::Responded(404)), RelayAction::ReadErrorBody);
    assert_eq!(relay.phase, RelayPhase::AwaitingErrorBody(404));
    assert_eq!(relay.step(RelayInput::Chunk(b"x".to_vec())), RelayAction::Ignore);
    let action = relay.step(RelayInput::ErrorBody(Some("no such route".to_string())));
    let expected = RelayError::Status { code: 404, body: "no such route".to_string() };
    assert_eq!(action, RelayAction::Fail(expected.clone()));
    assert_eq!(relay.phase, RelayPhase::Failed);
    assert_eq!(relay.step(RelayInput::StreamEnded), RelayAction::Ignore);
    assert_eq!(expected.message(), "Backend error 404 Not Found: no such route");
}

#[test]
fn unreadable_error_body_is_empty() {
    let mut relay = started("POST", "hi");
    relay.step(RelayInput::Responded(500));
    let action = relay.step(RelayInput::ErrorBody(None));
    let expected = RelayError::Status { code: 500, body: String::new() };
    assert_eq!(action, RelayAction::Fail(expected.clone()));
    assert_eq!(expected.message(), "Backend error 500 Internal Server Error: ");
}

#[test]
fn status_without_reason_phrase() {
    let e = RelayError::Status { code: 599, body: "x".to_string() };
    assert_eq!(e.message(), "Backend error 599 <unknown status code>: x");
}

#[test]
fn send_failure_is_transport_error() {
    let mut relay = started("GET", "");
    let action = relay.step(RelayInput::SendFailed("connection refused".to_string()));
    let expected = RelayError::Transport("connection refused".to_string());
    assert_eq!(action, RelayAction::Fail(expected.clone()));
    assert_eq!(expected.message(), "connection refused");
    assert_eq!(relay.phase, RelayPhase::Failed);
}

#[test]
fn stream_failure_after_partial_delivery() {
    let mut relay = started("POST", "q");
    relay.step(RelayInput::Responded(200));
    assert_eq!(
        relay.step(RelayInput::Chunk(b"part".to_vec())),
        RelayAction::EmitChunk("part".to_string())
    );
    let action = relay.step(RelayInput::StreamFailed("reset".to_string()));
    let expected = RelayError::Stream("reset".to_string());
    assert_eq!(action, RelayAction::Fail(expected.clone()));
    assert_eq!(expected.message(), "Stream error: reset");
    assert_eq!(relay.step(RelayInput::Chunk(b"more".to_vec())), RelayAction::Ignore);
}

#[test]
fn invalid_utf8_is_replaced() {
    let mut relay = started("POST", "q");
    relay.step(RelayInput::Responded(200));
    let action = relay.step(RelayInput::Chunk(vec![b'o', b'k', 0xff, b'!']));
    assert_eq!(action, RelayAction::EmitChunk("ok\u{FFFD}!".to_string()));
    let action = relay.step(RelayInput::Chunk(Vec::new()));
    assert_eq!(action, RelayAction::EmitChunk(String::new()));
}

#[test]
fn reports_out_of_turn_are_ignored() {
    let mut relay = Relay::new();
    assert_eq!(relay.step(RelayInput::Responded(200)), RelayAction::Ignore);
    assert_eq!(relay.phase, RelayPhase::Idle);
    let mut relay = started("GET", "");
    assert_eq!(relay.step(RelayInput::StreamEnded), RelayAction::Ignore);
    assert_eq!(relay.phase, RelayPhase::RequestSent);
}
