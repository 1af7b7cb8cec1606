use narada_agent_tui::carrier_protocol::{SessionEvent, SessionEventKind};
use narada_agent_tui::json::{get, get_text, get_unsigned, JsonNumber, JsonValue};
use narada_agent_tui::nars_projection::{
    base64_encode, check_launch_binding_schema, event_kind, launch_binding_failure,
    launch_binding_session_ids, normalize_nars_event, parse_launch_binding, parse_websocket_endpoint,
    resolve_session_record, resolve_session_record_text, submit_params, HistoryStep, PollStep, ProjectionStatus, ReplayCursor, WebSocketEndpoint,
};
use narada_agent_tui::projection_state::TurnState;
use narada_agent_tui::sha1::sha1_digest;
use narada_agent_tui::websocket::{decode_frame, encode_frame, websocket_accept_value};

fn model(value: &serde_json::Value) -> JsonValue {
    match value {
        serde_json::Value::Null => JsonValue::Null,
        serde_json::Value::Bool(b) => JsonValue::Bool(*b),
        serde_json::Value::Number(n) => JsonValue::Number(match (n.as_u64(), n.as_i64()) {
            (Some(u), _) => JsonNumber::Unsigned(u),
            (None, Some(i)) => JsonNumber::Signed(i),
            (None, None) => JsonNumber::Decimal(n.to_string()),
        }),
        serde_json::Value::String(s) => JsonValue::Str(s.clone()),
        serde_json::Value::Array(items) => JsonValue::Array(items.iter().map(model).collect()),
        serde_json::Value::Object(members) => {
            JsonValue::Object(members.iter().map(|(k, v)| (k.clone(), model(v))).collect())
        }
    }
}

fn parse_json(text: &str) -> Option<JsonValue> {
    serde_json::from_str::<serde_json::Value>(text).ok().map(|v| model(&v))
}

fn json(text: &str) -> JsonValue {
    parse_json(text).expect("fixture json parses")
}

fn text_at(v: &JsonValue, key: &str) -> Option<String> {
    get(v, key).and_then(get_text).cloned()
}

fn unsigned_at(v: &JsonValue, key: &str) -> Option<u64> {
    get(v, key).and_then(get_unsigned)
}

#[test]
fn parses_loopback_event_endpoint() {
    assert_eq!(
        parse_websocket_endpoint("ws://127.0.0.1:12345/events"),
        Ok(WebSocketEndpoint { host: "127.0.0.1".to_string(), port: 12345, path: "/events".to_string() })
    );
}

#[test]
fn endpoint_errors_and_defaults() {
    assert_eq!(parse_websocket_endpoint("http://x:1"), Err("nars_attach_requires_ws_endpoint".to_string()));
    assert_eq!(parse_websocket_endpoint("ws://"), Err("nars_attach_endpoint_empty".to_string()));
    assert_eq!(parse_websocket_endpoint("ws://host"), Err("nars_attach_endpoint_missing_port".to_string()));
    assert_eq!(parse_websocket_endpoint("ws://:80"), Err("nars_attach_endpoint_missing_host".to_string()));
    assert_eq!(parse_websocket_endpoint("ws://h:0"), Err("nars_attach_endpoint_invalid_port".to_string()));
    assert_eq!(parse_websocket_endpoint("ws://h:70000"), Err("nars_attach_endpoint_invalid_port".to_string()));
    assert_eq!(parse_websocket_endpoint("ws://[::1"), Err("nars_attach_endpoint_invalid_host".to_string()));
    assert_eq!(
        parse_websocket_endpoint("ws://[::1]:9000"),
        Ok(WebSocketEndpoint { host: "::1".to_string(), port: 9000, path: "/events".to_string() })
    );
    assert_eq!(
        parse_websocket_endpoint("ws://h:81/a/b"),
        Ok(WebSocketEndpoint { host: "h".to_string(), port: 81, path: "/a/b".to_string() })
    );
}

#[test]
fn computes_websocket_accept_value() {
    assert_eq!(websocket_accept_value("dGhlIHNhbXBsZSBub25jZQ=="), "s3pPLMBiTxaQ9kYGzzhZRbK+xOo=");
}

#[test]
fn sha1_matches_known_digests() {
    assert_eq!(
        sha1_digest(b"abc"),
        vec![
            0xa9, 0x99, 0x3e, 0x36, 0x47, 0x06, 0x81, 0x6a, 0xba, 0x3e, 0x25, 0x71, 0x78, 0x50, 0xc2, 0x6c, 0x9c,
            0xd0, 0xd8, 0x9d
        ]
    );
    assert_eq!(base64_encode(&sha1_digest(b"")), "2jmj7l5rSw0yVb/vlWAYkK/YBwk=");
}

#[test]
fn base64_encodes_short_payloads() {
    assert_eq!(base64_encode(b"hello"), "aGVsbG8=");
}

#[test]
fn base64_pads_each_remainder() {
    assert_eq!(base64_encode(b""), "");
    assert_eq!(base64_encode(b"f"), "Zg==");
    assert_eq!(base64_encode(b"fo"), "Zm8=");
    assert_eq!(base64_encode(b"foo"), "Zm9v");
    assert_eq!(base64_encode(&[0xfb, 0xff]), "+/8=");
}

#[test]
fn frames_round_trip_through_the_decoder() {
    let mask = [1u8, 2, 3, 4];
    for size in [0usize, 5, 125, 126, 300, 70_000] {
        let payload: Vec<u8> = (0..size).map(|i| (i % 251) as u8).collect();
        let mut frame = encode_frame(0x1, &payload, mask).expect("frame encodes");
        let length = frame.len();
        frame.extend_from_slice(b"rest");
        let (opcode, decoded, consumed) = decode_frame(&frame).expect("decodes").expect("complete");
        assert_eq!(opcode, 0x1);
        assert_eq!(decoded, payload);
        assert_eq!(consumed, length);
    }
}

#[test]
fn incomplete_and_oversized_frames() {
    assert_eq!(decode_frame(&[0x81]), Ok(None));
    assert_eq!(decode_frame(&[0x81, 0x05, b'h', b'i']), Ok(None));
    assert_eq!(decode_frame(&[0x81, 0x02, b'h', b'i']), Ok(Some((0x1, b"hi".to_vec(), 4))));
    let big = [0x82u8, 127, 0, 0, 0, 0, 0x7f, 0, 0, 0];
    assert_eq!(decode_frame(&big), Err("nars_attach_frame_too_large".to_string()));
    let too_long = vec![0u8; 16 * 1024 * 1024 + 1];
    assert_eq!(encode_frame(0x2, &too_long, [0, 0, 0, 0]), Err("nars_attach_frame_too_large".to_string()));
}

#[test]
fn normalizes_conversation_events_for_existing_projection() {
    let user = normalize_nars_event(
        &json(
            r#"{"event":"user_message","event_id":"event-1","session_id":"session-1","agent_id":"sonar.resident","content":"run startup sequence"}"#,
        ),
        Some(7),
        None,
        None,
        None,
    )
    .expect("user event");
    assert_eq!(user.event_kind, SessionEventKind::InputAdmittedToTurn);
    assert_eq!(text_at(&user.payload, "content_preview").as_deref(), Some("run startup sequence"));
    assert_eq!(unsigned_at(&user.payload, "sequence"), Some(7));

    let assistant = normalize_nars_event(
        &json(r#"{"event":"assistant_message_stream","event_id":"event-2","turn_id":"turn-1","text":"done"}"#),
        Some(8),
        None,
        None,
        None,
    )
    .expect("assistant event");
    assert_eq!(assistant.event_kind, SessionEventKind::ProviderTextDeltaRecorded);
    assert_eq!(text_at(&assistant.payload, "text_delta").as_deref(), Some("done"));
    assert_eq!(text_at(&assistant.payload, "turn_id").as_deref(), Some("turn-1"));
}

#[test]
fn normalizes_turn_tool_and_result_events_with_projection_fields() {
    let started = normalize_nars_event(
        &json(r#"{"event":"turn_started","event_id":"event-3","session_id":"session-1","turn_id":"turn-2","agent_id":"sonar.resident"}"#),
        Some(9),
        None,
        None,
        None,
    )
    .expect("turn start event");
    assert_eq!(started.event_kind, SessionEventKind::TurnStarted);
    assert_eq!(text_at(&started.payload, "turn_id").as_deref(), Some("turn-2"));
    assert_eq!(unsigned_at(&started.payload, "sequence"), Some(9));

    let tool = normalize_nars_event(
        &json(r#"{"event":"tool_call","event_id":"event-4","turn_id":"turn-2","tool_name":"mcp_output_show","arguments":{"output_ref":"mcp_output:o_123"}}"#),
        Some(10),
        None,
        None,
        None,
    )
    .expect("tool call event");
    assert_eq!(tool.event_kind, SessionEventKind::ProviderToolCallRequested);
    assert_eq!(text_at(&tool.payload, "tool_name").as_deref(), Some("mcp_output_show"));
    assert_eq!(text_at(&tool.payload, "turn_id").as_deref(), Some("turn-2"));
    assert_eq!(
        text_at(&tool.payload, "arguments_summary").as_deref(),
        Some("{\"output_ref\":\"mcp_output:o_123\"}")
    );

    let result = normalize_nars_event(
        &json(r#"{"event":"tool_result","event_id":"event-5","turn_id":"turn-2","tool_name":"mcp_output_show","text":"full output"}"#),
        Some(11),
        None,
        None,
        None,
    )
    .expect("tool result event");
    assert_eq!(result.event_kind, SessionEventKind::ToolResultReceived);
    assert_eq!(text_at(&result.payload, "tool_name").as_deref(), Some("mcp_output_show"));
    assert_eq!(text_at(&result.payload, "status").as_deref(), Some("completed"));

    let completed = normalize_nars_event(
        &json(r#"{"event":"turn_completed","event_id":"event-6","turn_id":"turn-2"}"#),
        Some(12),
        None,
        None,
        None,
    )
    .expect("turn completion event");
    assert_eq!(completed.event_kind, SessionEventKind::TurnCompleted);
    assert_eq!(text_at(&completed.payload, "turn_id").as_deref(), Some("turn-2"));
}

#[test]
fn normalization_fallbacks() {
    assert!(normalize_nars_event(&json("[1,2]"), Some(1), None, None, None).is_none());
    let event = normalize_nars_event(
        &json(r#"{"type":"Mystery-Thing","payload":{"a":1}}"#),
        None,
        Some("agent.fallback"),
        Some("session.fallback"),
        Some("D:/site"),
    )
    .expect("object normalises");
    assert_eq!(event.event_kind, SessionEventKind::CarrierDiagnosticRecorded);
    assert_eq!(event.event_id, "nars-event-3");
    assert_eq!(event.agent_id, "agent.fallback");
    assert_eq!(event.carrier_session_id, "session.fallback");
    assert_eq!(event.site_root, "D:/site");
    assert_eq!(event.schema, "narada.carrier.session_event.v1");
    let sequenced = normalize_nars_event(&json(r#"{"event":"turn-failed"}"#), Some(42), None, None, None)
        .expect("object normalises");
    assert_eq!(sequenced.event_kind, SessionEventKind::TurnFailed);
    assert_eq!(sequenced.event_id, "nars-sequence-42");
    assert_eq!(text_at(&sequenced.payload, "turn_id").as_deref(), Some(""));
    assert_eq!(event_kind("carrier_session_closed"), SessionEventKind::CarrierSessionClosed);
}

#[test]
fn replay_drops_old_sequences_and_repeated_ids() {
    let mut cursor = ReplayCursor::new();
    let frame = json(r#"{"event":"session_event","cursor":{"sequence":5},"payload":{"event":"turn_started","event_id":"e1"}}"#);
    match cursor.poll_frame(&frame) {
        PollStep::Event(Some(e)) => assert_eq!(e.event_id, "e1"),
        other => panic!("unexpected {other:?}"),
    }
    assert_eq!(cursor.last_sequence(), Some(5));
    match cursor.poll_frame(&frame) {
        PollStep::Event(None) => {}
        other => panic!("unexpected {other:?}"),
    }
    let same_id = json(r#"{"event":"session_event","cursor":{"sequence":6},"payload":{"event":"turn_started","event_id":"e1"}}"#);
    match cursor.poll_frame(&same_id) {
        PollStep::Event(None) => {}
        other => panic!("unexpected {other:?}"),
    }
    assert_eq!(cursor.last_sequence(), Some(6));
    let error = json(r#"{"event":"websocket_error","code":"boom"}"#);
    match cursor.poll_frame(&error) {
        PollStep::ServerError(m) => assert_eq!(m, "nars_attach_server_error:boom"),
        other => panic!("unexpected {other:?}"),
    }
    match cursor.poll_frame(&json(r#"{"event":"pong"}"#)) {
        PollStep::Skip => {}
        other => panic!("unexpected {other:?}"),
    }
}

#[test]
fn history_pages_are_requested_before_the_oldest_sequence() {
    let mut cursor = ReplayCursor::new();
    assert!(cursor.begin_history_read().is_none());
    assert!(cursor.history_exhausted());
    let mut cursor = ReplayCursor::new();
    let frame = json(r#"{"event":"session_event","cursor":{"sequence":40},"payload":{"event":"turn_started","event_id":"e40"}}"#);
    let _ = cursor.poll_frame(&frame);
    let (id, request) = cursor.begin_history_read().expect("history request");
    assert_eq!(id, "agent-tui-history-1");
    assert_eq!(text_at(&request, "method").as_deref(), Some("session.events.read"));
    let params = get(&request, "params").expect("params");
    assert_eq!(unsigned_at(params, "before_sequence"), Some(40));
    let page = json(r#"{"event":"session_events_read","request_id":"agent-tui-history-1","has_more":true,"events":[{"event":"turn_started","event_id":"e38","event_sequence":38},{"event":"turn_completed","event_id":"e39","sequence":39},{"event":"turn_started","event_id":"e40","event_sequence":40}]}"#);
    match cursor.history_frame(&page, &id) {
        HistoryStep::Page(events) => {
            let ids: Vec<&str> = events.iter().map(|e| e.event_id.as_str()).collect();
            assert_eq!(ids, vec!["e38", "e39"]);
        }
        other => panic!("unexpected {other:?}"),
    }
    assert!(!cursor.history_exhausted());
    assert_eq!(cursor.oldest_sequence(), Some(38));
    let other = json(r#"{"event":"session_events_read","request_id":"someone-else","events":[]}"#);
    match cursor.history_frame(&other, &id) {
        HistoryStep::Skip => {}
        other => panic!("unexpected {other:?}"),
    }
}

#[test]
fn request_frames_count_up() {
    let mut cursor = ReplayCursor::new();
    let frame = cursor.next_request("session.health", json("{}"));
    assert_eq!(text_at(&frame, "id").as_deref(), Some("agent-tui-1"));
    let frame = cursor.next_request("session.cancel", json(r#"{"reason":"operator_interrupt"}"#));
    assert_eq!(text_at(&frame, "id").as_deref(), Some("agent-tui-2"));
    assert_eq!(text_at(&frame, "method").as_deref(), Some("session.cancel"));
    let subscribe = cursor.subscribe_params("agent-tui-7");
    assert!(get(&subscribe, "since_sequence").is_none());
    assert_eq!(text_at(&subscribe, "subscription_id").as_deref(), Some("agent-tui-7"));
}

#[test]
fn submissions_carry_steering_metadata_during_a_turn() {
    assert!(submit_params("   ", None).is_none());
    let idle = submit_params("  hello ", None).expect("params");
    assert_eq!(text_at(&idle, "content").as_deref(), Some("hello"));
    assert_eq!(text_at(&idle, "source").as_deref(), Some("manual_operator"));
    let steering = submit_params("more", Some("turn-1")).expect("params");
    assert_eq!(text_at(&steering, "source").as_deref(), Some("operator_steering"));
    assert_eq!(text_at(&steering, "delivery_mode").as_deref(), Some("admit_after_active_turn"));
    assert_eq!(text_at(&steering, "active_turn_id").as_deref(), Some("turn-1"));
}

fn session_event(kind: SessionEventKind, payload: &str) -> SessionEvent {
    SessionEvent {
        schema: "narada.carrier.session_event.v1".to_string(),
        event_kind: kind,
        event_id: "e".to_string(),
        occurred_at: String::new(),
        carrier_session_id: "session-9".to_string(),
        agent_id: String::new(),
        site_id: String::new(),
        site_root: String::new(),
        payload: json(payload),
    }
}

#[test]
fn status_follows_turns_queues_and_diagnostics() {
    let mut status = ProjectionStatus::new(Some("  ".to_string()), None);
    assert_eq!(status.identity, "agent-tui");
    assert_eq!(status.session, "attached");
    status.apply_live_event(&session_event(SessionEventKind::InputAdmittedToTurn, "{}"));
    assert_eq!(status.queued_inputs, 0);
    status.apply_live_event(&session_event(SessionEventKind::InputQueuedForTurnBoundary, "{}"));
    assert_eq!(status.queued_inputs, 1);
    status.apply_live_event(&session_event(SessionEventKind::TurnStarted, r#"{"turn_id":"t1"}"#));
    assert_eq!(status.turn_state, TurnState::Active);
    assert_eq!(status.active_phase.as_deref(), Some("thinking"));
    assert_eq!(status.active_turn_id.as_deref(), Some("t1"));
    assert_eq!(status.session, "session-9");
    status.apply_live_event(&session_event(SessionEventKind::ProviderToolCallRequested, "{}"));
    assert_eq!(status.active_phase.as_deref(), Some("calling"));
    status.apply_live_event(&session_event(SessionEventKind::TurnCompleted, "{}"));
    assert_eq!(status.turn_state, TurnState::Idle);
    assert_eq!(status.active_turn_id, None);
    status.apply_live_event(&session_event(SessionEventKind::CarrierDiagnosticRecorded, r#"{"error":"e1","code":"c"}"#));
    assert_eq!(status.last_error.as_deref(), Some("e1"));
    assert!(status.scroll_up(3));
    assert_eq!(status.transcript_scroll_offset, 1);
    assert!(!status.scroll_up(100));
    status.scroll_down();
    status.scroll_down();
    status.scroll_down();
    assert_eq!(status.transcript_scroll_offset, 0);
}

#[test]
fn launch_bindings_name_sessions_and_failures() {
    let binding = json(r#"{"schema":"narada.operator_projection_launch_binding.v1","status":"ready","nars_session_id":"nars-session-1","session_ref":{"id":"ref-1"},"launch_session_id":"launch-1","agent":"sonar.resident"}"#);
    assert_eq!(check_launch_binding_schema(&binding), Ok(()));
    assert_eq!(launch_binding_failure(&binding), None);
    assert_eq!(launch_binding_session_ids(&binding), vec!["nars-session-1", "ref-1", "launch-1"]);
    let failed = json(r#"{"schema":"narada.operator_projection_launch_binding.v1","status":"failed","reason":"nars_start_failed"}"#);
    assert_eq!(
        launch_binding_failure(&failed).as_deref(),
        Some("nars_attach_launch_binding_failed:nars_start_failed")
    );
    assert_eq!(
        check_launch_binding_schema(&json(r#"{"schema":"other"}"#)),
        Err("nars_attach_launch_binding_schema_invalid".to_string())
    );
}

#[test]
fn session_records_resolve_for_matching_sessions_and_agents() {
    let record = json(r#"{"session_id":"nars-session-1","agent_id":"sonar.resident","event_endpoint":"ws://127.0.0.1:4567/events"}"#);
    let candidates = vec!["nars-session-1".to_string()];
    let resolution =
        resolve_session_record(&record, &candidates, None, Some("sonar.resident")).expect("record matches");
    assert_eq!(resolution.event_endpoint, "ws://127.0.0.1:4567/events");
    assert_eq!(resolution.identity.as_deref(), Some("sonar.resident"));
    assert_eq!(resolution.session.as_deref(), Some("nars-session-1"));
    assert!(resolve_session_record(&record, &candidates, None, Some("other.agent")).is_none());
    assert!(resolve_session_record(&record, &vec!["x".to_string()], None, None).is_none());
    let by_launch = json(r#"{"launch_session_id":"launch-1","event_endpoint":"ws://h:1/events"}"#);
    let resolution = resolve_session_record(&by_launch, &vec![], Some("launch-1"), None).expect("launch match");
    assert_eq!(resolution.event_endpoint, "ws://h:1/events");
    assert_eq!(resolution.identity, None);
    assert_eq!(resolution.session, None);
    assert!(resolve_session_record(&by_launch, &vec![], Some("launch-1"), Some("agent.a")).is_none());
    assert!(resolve_session_record(&by_launch, &vec![], Some("launch-2"), None).is_none());
}

#[test]
fn server_messages_must_be_json() {
    let mut cursor = ReplayCursor::new();
    let error = cursor.poll_message("not json").expect_err("invalid json");
    assert!(error.starts_with("nars_attach_invalid_server_json:"));
    match cursor
        .poll_message(r#"{"event":"session_event","cursor":{"sequence":3},"payload":{"event":"turn_started","event_id":"e3"}}"#)
        .expect("json")
    {
        PollStep::Event(Some(e)) => assert_eq!(e.event_id, "e3"),
        other => panic!("unexpected {other:?}"),
    }
    let (id, line) = cursor.begin_history_read_line().expect("history request");
    assert_eq!(id, "agent-tui-history-1");
    let request: serde_json::Value = serde_json::from_str(&line).expect("request line is json");
    assert_eq!(request["method"], "session.events.read");
    assert_eq!(request["params"]["before_sequence"], 3);
    assert!(cursor.history_message("{", &id).is_err());
    match cursor
        .history_message(r#"{"event":"session_events_read","request_id":"agent-tui-history-1","events":[]}"#, &id)
        .expect("json")
    {
        HistoryStep::Page(events) => assert!(events.is_empty()),
        other => panic!("unexpected {other:?}"),
    }
    assert!(cursor.history_exhausted());
    let line = cursor.next_request_line("session.health", json("{}"));
    let request: serde_json::Value = serde_json::from_str(&line).expect("request line is json");
    assert_eq!(request["id"], "agent-tui-2");
    assert_eq!(request["method"], "session.health");
}

#[test]
fn launch_binding_texts_are_checked_and_records_resolved() {
    assert!(parse_launch_binding("nope")
        .expect_err("invalid")
        .starts_with("nars_attach_launch_binding_invalid_json:"));
    assert_eq!(
        parse_launch_binding(r#"{"schema":"other"}"#).expect_err("schema"),
        "nars_attach_launch_binding_schema_invalid"
    );
    let binding = parse_launch_binding(r#"{"schema":"narada.operator_projection_launch_binding.v1","site_root":"D:/site"}"#)
        .expect("binding");
    assert_eq!(text_at(&binding, "site_root").as_deref(), Some("D:/site"));
    let candidates = vec!["nars-session-1".to_string()];
    let record = r#"{"session_id":"nars-session-1","event_endpoint":"ws://127.0.0.1:4567/events"}"#;
    let resolution = resolve_session_record_text(record, &candidates, None, None).expect("resolves");
    assert_eq!(resolution.event_endpoint, "ws://127.0.0.1:4567/events");
    assert_eq!(resolution.session.as_deref(), Some("nars-session-1"));
    assert!(resolve_session_record_text("{broken", &candidates, None, None).is_none());
}
