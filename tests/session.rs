use orbit::session::{
    chat_payload, chat_reply, classify_frame, completion_item, sse_data, is_success_status, message_id, text_frame_kind,
    user_envelope, ConnectStep, Frame, FrameKind, NemoAgent, NemoAgentError, SessionState,
    StreamTurn, TransportFailure,
};

fn chunk_frame(text: &str) -> Frame {
    Frame::Text(format!("{{\"content\":{{\"payload\":{}}}}}", serde_json::to_string(text).unwrap()))
}

fn status_frame(status: &str) -> Frame {
    Frame::Text(format!("{{\"status\":\"{}\"}}", status))
}

/// Reads frames the way the session loop does, collecting what reached the sink.
fn read_turn(frames: Vec<Frame>) -> (String, Vec<String>, usize) {
    let mut turn = StreamTurn::new();
    let mut delivered = Vec::new();
    let mut read = 0;
    for frame in frames {
        if turn.is_over() {
            break;
        }
        read += 1;
        if let Some(chunk) = turn.on_frame(classify_frame(frame)) {
            delivered.push(chunk);
        }
    }
    (turn.text().to_string(), delivered, read)
}

#[test]
fn test_new_agent_with_defaults() {
    let agent = NemoAgent::new(None, None);
    assert_eq!(agent.base_url(), "http://localhost:8000");
    assert_eq!(agent.timeout_secs(), 30);
}

#[test]
fn test_new_agent_with_custom_values() {
    let agent = NemoAgent::new(Some("http://example.com:9000".to_string()), Some(60));
    assert_eq!(agent.base_url(), "http://example.com:9000");
    assert_eq!(agent.timeout_secs(), 60);
}

#[test]
fn test_new_agent_strips_trailing_slash() {
    let agent = NemoAgent::new(Some("http://example.com:9000/".to_string()), None);
    assert_eq!(agent.base_url(), "http://example.com:9000");
}

#[test]
fn strips_every_trailing_slash() {
    let agent = NemoAgent::new(Some("http://example.com//".to_string()), None);
    assert_eq!(agent.base_url(), "http://example.com");
    let agent = NemoAgent::new(Some("///".to_string()), None);
    assert_eq!(agent.base_url(), "");
}

#[test]
fn test_default_implementation() {
    let agent = NemoAgent::default();
    assert_eq!(agent.base_url(), "http://localhost:8000");
    assert_eq!(agent.timeout_secs(), 30);
}

#[test]
fn urls_of_the_server() {
    let agent = NemoAgent::new(Some("https://example.com/".to_string()), None);
    assert_eq!(agent.chat_url(), "https://example.com/chat");
    assert_eq!(agent.health_url(), "https://example.com/health");
    assert_eq!(agent.websocket_url(), "wss://example.com/websocket");
    let agent = NemoAgent::default();
    assert_eq!(agent.websocket_url(), "ws://localhost:8000/websocket");
}

#[test]
fn test_chat_success_choices_format() {
    let body = r#"{"choices":[{"message":{"content":"Hello, I'm your AI assistant!"}}]}"#;
    let result = chat_reply(200, body.to_string());
    assert!(result.is_ok());
    assert_eq!(result.unwrap(), "Hello, I'm your AI assistant!");
}

#[test]
fn test_chat_success_value_format() {
    let result = chat_reply(200, r#"{"value":"Response from value field"}"#.to_string());
    assert!(result.is_ok());
    assert_eq!(result.unwrap(), "Response from value field");
}

#[test]
fn test_chat_success_response_format() {
    let result = chat_reply(200, r#"{"response":"Response from response field"}"#.to_string());
    assert!(result.is_ok());
    assert_eq!(result.unwrap(), "Response from response field");
}

#[test]
fn nested_value_choices_format() {
    let body = r#"{"value":{"choices":[{"message":{"content":"nested"}}]}}"#;
    assert_eq!(chat_reply(200, body.to_string()).unwrap(), "nested");
}

#[test]
fn test_chat_with_conversation_id() {
    let payload = chat_payload("Hello", Some("test-conv-123"));
    let v: serde_json::Value = serde_json::from_str(&payload).unwrap();
    assert_eq!(v["model"], "orbit-ai");
    assert_eq!(v["messages"][0]["role"], "user");
    assert_eq!(v["messages"][0]["content"], "Hello");
    assert_eq!(v["temperature"], 0.1);
    assert_eq!(v["max_tokens"], 1000);
    assert_eq!(v["conversation_id"], "test-conv-123");
    let body = r#"{"choices":[{"message":{"content":"Hello with conversation ID!"}}]}"#;
    let result = chat_reply(200, body.to_string());
    assert!(result.is_ok());
    assert_eq!(result.unwrap(), "Hello with conversation ID!");
}

#[test]
fn payload_without_conversation() {
    let payload = chat_payload("say \"hi\"\n", None);
    let v: serde_json::Value = serde_json::from_str(&payload).unwrap();
    assert_eq!(v["messages"][0]["content"], "say \"hi\"\n");
    assert!(v.get("conversation_id").is_none());
}

#[test]
fn choices_must_be_a_list() {
    let body = r#"{"choices":{"0":{"message":{"content":"not a list"}}}}"#;
    assert_eq!(chat_reply(200, body.to_string()).unwrap(), r#"{"choices":{"0":{"message":{"content":"not a list"}}}}"#);
}

#[test]
fn error_text_of_large_numbers() {
    let e = NemoAgentError::TimeoutError { timeout: u64::MAX };
    assert_eq!(e.message(), "Request to NAT server timed out after 18446744073709551615 seconds");
    let e = NemoAgentError::TimeoutError { timeout: 0 };
    assert_eq!(e.message(), "Request to NAT server timed out after 0 seconds");
}

#[test]
fn test_chat_fallback_to_string() {
    let result = chat_reply(200, r#"{"unknown_field": "some data"}"#.to_string());
    assert!(result.is_ok());
    let text = result.unwrap();
    assert!(text.contains("unknown_field"));
    assert_eq!(text, r#"{"unknown_field":"some data"}"#);
}

#[test]
fn test_chat_http_error() {
    let result = chat_reply(500, "Internal Server Error".to_string());
    assert!(result.is_err());
    match result.unwrap_err() {
        NemoAgentError::HttpError { status, message } => {
            assert_eq!(status, 500);
            assert_eq!(message, "Internal Server Error");
        }
        _ => panic!("Expected HttpError"),
    }
}

#[test]
fn test_chat_invalid_json() {
    let result = chat_reply(200, "invalid json".to_string());
    assert!(result.is_err());
    match result.unwrap_err() {
        NemoAgentError::InvalidJsonResponse => {}
        _ => panic!("Expected InvalidJsonResponse"),
    }
}

#[test]
fn test_chat_connection_error() {
    let agent = NemoAgent::new(Some("http://nonexistent:9999".to_string()), Some(1));
    match agent.transport_error(TransportFailure::Connect) {
        NemoAgentError::ConnectionError { url } => {
            assert_eq!(url, "http://nonexistent:9999");
        }
        _ => panic!("Expected ConnectionError"),
    }
    assert!(matches!(
        agent.transport_error(TransportFailure::Timeout),
        NemoAgentError::TimeoutError { timeout: 1 }
    ));
}

#[test]
fn test_health_check_success() {
    assert!(is_success_status(200));
    assert!(is_success_status(204));
}

#[test]
fn test_health_check_failure() {
    assert!(!is_success_status(500));
    assert!(!is_success_status(199));
    assert!(!is_success_status(300));
}

#[test]
fn test_error_display() {
    let connection_error = NemoAgentError::ConnectionError {
        url: "http://localhost:8000".to_string(),
    };
    assert_eq!(
        connection_error.message(),
        "Unable to connect to NAT server at http://localhost:8000. Make sure the server is running with: nat serve --config_file orbit_config.yml"
    );
    let timeout_error = NemoAgentError::TimeoutError { timeout: 30 };
    assert_eq!(
        timeout_error.message(),
        "Request to NAT server timed out after 30 seconds"
    );
    let http_error = NemoAgentError::HttpError {
        status: 404,
        message: "Not Found".to_string(),
    };
    assert_eq!(
        http_error.message(),
        "NAT server returned error: 404 - Not Found"
    );
    let json_error = NemoAgentError::InvalidJsonResponse;
    assert_eq!(
        json_error.message(),
        "NAT server returned invalid JSON response"
    );
}

#[test]
fn scenario_chat_against_local_server() {
    let agent = NemoAgent::new(Some("http://localhost:8000".to_string()), None);
    assert_eq!(agent.chat_url(), "http://localhost:8000/chat");
    let payload = chat_payload("hello", None);
    let v: serde_json::Value = serde_json::from_str(&payload).unwrap();
    assert_eq!(v["messages"][0]["content"], "hello");
    let ok = chat_reply(200, r#"{"choices":[{"message":{"content":"hi"}}]}"#.to_string());
    assert_eq!(ok.unwrap(), "hi");
    match chat_reply(500, "boom".to_string()).unwrap_err() {
        NemoAgentError::HttpError { status, message } => {
            assert_eq!(status, 500);
            assert_eq!(message, "boom");
        }
        other => panic!("unexpected {:?}", other),
    }
}

#[test]
fn stream_stops_at_completion() {
    let frames = vec![chunk_frame("a"), chunk_frame("b"), status_frame("complete"), chunk_frame("c")];
    let (text, delivered, read) = read_turn(frames);
    assert_eq!(text, "ab");
    assert_eq!(delivered, vec!["a".to_string(), "b".to_string()]);
    assert_eq!(read, 3);
}

#[test]
fn stream_skips_unparsable_and_other_frames() {
    let frames = vec![
        Frame::Text("not json".to_string()),
        chunk_frame("x"),
        Frame::Other,
        status_frame("working"),
        Frame::Text("{\"content\":{\"payload\":7}}".to_string()),
        chunk_frame("y"),
        status_frame("complete"),
    ];
    let (text, delivered, read) = read_turn(frames);
    assert_eq!(text, "xy");
    assert_eq!(delivered.len(), 2);
    assert_eq!(read, 7);
}

#[test]
fn peer_close_ends_the_turn() {
    let frames = vec![chunk_frame("part"), Frame::Close, chunk_frame("never")];
    let (text, delivered, read) = read_turn(frames);
    assert_eq!(text, "part");
    assert_eq!(delivered, vec!["part".to_string()]);
    assert_eq!(read, 2);
}

#[test]
fn completion_marker_wins_over_payload() {
    let frame = Frame::Text("{\"status\":\"complete\",\"content\":{\"payload\":\"z\"}}".to_string());
    assert!(matches!(classify_frame(frame), FrameKind::Complete));
    assert!(matches!(text_frame_kind(None, Some("q".to_string())), FrameKind::Chunk(ref c) if c == "q"));
    assert!(matches!(text_frame_kind(Some("done".to_string()), None), FrameKind::Skip));
}

#[test]
fn connect_twice_dials_once() {
    let mut agent = NemoAgent::default();
    assert_eq!(agent.state(), SessionState::Closed);
    match agent.connect() {
        ConnectStep::Dial(url) => assert_eq!(url, "ws://localhost:8000/websocket"),
        other => panic!("unexpected {:?}", other),
    }
    assert!(matches!(agent.connect(), ConnectStep::Busy));
    agent.finish_connect(true);
    assert_eq!(agent.state(), SessionState::Open);
    assert!(matches!(agent.connect(), ConnectStep::AlreadyOpen));
    assert_eq!(agent.state(), SessionState::Open);
}

#[test]
fn disconnect_twice_is_quiet() {
    let mut agent = NemoAgent::default();
    let _ = agent.connect();
    agent.finish_connect(true);
    assert!(agent.disconnect());
    assert_eq!(agent.state(), SessionState::Closed);
    assert!(!agent.disconnect());
    assert_eq!(agent.state(), SessionState::Closed);
}

#[test]
fn failed_connect_and_lost_channel_close_the_session() {
    let mut agent = NemoAgent::default();
    let _ = agent.connect();
    agent.finish_connect(false);
    assert_eq!(agent.state(), SessionState::Closed);
    let _ = agent.connect();
    agent.finish_connect(true);
    agent.channel_lost();
    assert_eq!(agent.state(), SessionState::Closed);
}

#[test]
fn peer_close_during_turn_closes_session() {
    let mut agent = NemoAgent::default();
    let _ = agent.connect();
    agent.finish_connect(true);
    let mut turn = StreamTurn::new();
    assert_eq!(agent.read_frame(&mut turn, classify_frame(chunk_frame("a"))), Some("a".to_string()));
    assert_eq!(agent.state(), SessionState::Open);
    assert_eq!(agent.read_frame(&mut turn, FrameKind::PeerClosed), None);
    assert!(turn.is_over());
    assert_eq!(turn.text(), "a");
    assert_eq!(agent.state(), SessionState::Closed);
}

#[test]
fn channel_failure_closes_session() {
    let mut agent = NemoAgent::default();
    let _ = agent.connect();
    agent.finish_connect(true);
    match agent.stream_failed("reset".to_string()) {
        NemoAgentError::WebSocketError(d) => assert_eq!(d, "reset"),
        other => panic!("unexpected {:?}", other),
    }
    assert_eq!(agent.state(), SessionState::Closed);
    assert!(matches!(agent.connect(), ConnectStep::Dial(_)));
}

#[test]
fn envelope_holds_the_turn() {
    let id = message_id(1700000000123);
    assert_eq!(id, "msg-1700000000123");
    let text = user_envelope("hi \"there\"", Some("conv-1"), &id, "2024-01-01T00:00:00+00:00");
    let v: serde_json::Value = serde_json::from_str(&text).unwrap();
    assert_eq!(v["type"], "user_message");
    assert_eq!(v["schema_type"], "chat");
    assert_eq!(v["id"], "msg-1700000000123");
    assert_eq!(v["conversation_id"], "conv-1");
    assert_eq!(v["content"]["messages"][0]["role"], "user");
    assert_eq!(v["content"]["messages"][0]["content"][0]["type"], "text");
    assert_eq!(v["content"]["messages"][0]["content"][0]["text"], "hi \"there\"");
    assert_eq!(v["user"]["name"], "rust-client");
    assert_eq!(v["schema_version"], "1.0.0");
    assert_eq!(v["timestamp"], "2024-01-01T00:00:00+00:00");
    let text = user_envelope("x", None, "msg-0", "t");
    let v: serde_json::Value = serde_json::from_str(&text).unwrap();
    assert!(v["conversation_id"].is_null());
}

#[test]
fn provider_stream_items() {
    assert_eq!(sse_data("data: [DONE]"), Some("[DONE]".to_string()));
    assert_eq!(sse_data(": keep-alive"), None);
    assert!(matches!(completion_item("[DONE]"), FrameKind::Complete));
    let item = completion_item(r#"{"choices":[{"delta":{"content":"He"}}]}"#);
    assert!(matches!(item, FrameKind::Chunk(ref c) if c == "He"));
    assert!(matches!(completion_item(r#"{"choices":[{"delta":{}}]}"#), FrameKind::Skip));
    assert!(matches!(completion_item("garbage"), FrameKind::Skip));
}
