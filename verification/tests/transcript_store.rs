use narada_agent_tui::carrier_protocol::{SessionEvent, SessionEventKind};
use narada_agent_tui::carrier_protocol_contract::{session_event_schema, turn_terminal_payload_schema};
use narada_agent_tui::json::{JsonNumber, JsonValue};
use narada_agent_tui::transcript_projection::{TranscriptActor, TranscriptItemKind};
use narada_agent_tui::transcript_store::{TranscriptIngestResult, TranscriptIngestSummary, TranscriptStore};

fn model(value: &serde_json::Value) -> JsonValue {
    match value {
        serde_json::Value::Null => JsonValue::Null,
        serde_json::Value::Bool(b) => JsonValue::Bool(*b),
        serde_json::Value::Number(n) => JsonValue::Number(match (n.as_u64(), n.as_i64()) {
            (Some(u), _) => JsonNumber::Unsigned(u),
            (None, Some(i)) => JsonNumber::Signed(i),
            (None, None) => JsonNumber::Decimal(n.to_string()),
        }),
        serde_json::Value::String(s) => JsonValue::Str(s.clone()),
        serde_json::Value::Array(items) => JsonValue::Array(items.iter().map(model).collect()),
        serde_json::Value::Object(members) => {
            JsonValue::Object(members.iter().map(|(k, v)| (k.clone(), model(v))).collect())
        }
    }
}

fn parse_json(text: &str) -> Option<JsonValue> {
    serde_json::from_str::<serde_json::Value>(text).ok().map(|v| model(&v))
}

fn event(event_id: &str, event_kind: SessionEventKind, payload: &str) -> SessionEvent {
    SessionEvent {
        schema: session_event_schema(),
        event_kind,
        event_id: event_id.to_string(),
        occurred_at: "2026-05-30T00:00:00.000Z".to_string(),
        carrier_session_id: "carrier_fixture_1".to_string(),
        agent_id: "sonar.resident".to_string(),
        site_id: "narada-sonar".to_string(),
        site_root: "D:/code/narada.sonar".to_string(),
        payload: parse_json(payload).expect("payload json"),
    }
}

fn terminal_payload(turn_id: &str) -> String {
    format!(
        r#"{{"schema":"{}","turn_id":"{turn_id}","terminal_status":"completed","provider_request_status":"completed","provider_execution_enabled":true}}"#,
        turn_terminal_payload_schema()
    )
}

fn texts(store: &TranscriptStore) -> Vec<String> {
    store.items().iter().map(|item| item.text.clone()).collect()
}

#[test]
fn appends_projected_items_in_ingest_order() {
    let mut store = TranscriptStore::new();

    assert_eq!(
        store.ingest_event(&event(
            "session_event_1",
            SessionEventKind::TurnStarted,
            r#"{"turn_id":"turn_1","input_event_id":"input_1","source_kind":"operator","content_preview":"run startup sequence"}"#,
        )),
        TranscriptIngestResult::Projected
    );
    assert_eq!(
        store.ingest_event(&event(
            "session_event_2",
            SessionEventKind::ProviderTextDeltaRecorded,
            r#"{"turn_id":"turn_1","sequence":1,"text_delta":"done"}"#,
        )),
        TranscriptIngestResult::Projected
    );

    assert_eq!(store.len(), 2);
    assert_eq!(store.items()[0].actor, TranscriptActor::Operator);
    assert_eq!(store.items()[0].text, "run startup sequence");
    assert_eq!(store.items()[1].actor, TranscriptActor::Agent);
    assert_eq!(store.items()[1].text, "done");
}

#[test]
fn merges_streaming_provider_text_deltas_for_same_turn() {
    let mut store = TranscriptStore::new();

    assert_eq!(
        store.ingest_event(&event(
            "session_event_1",
            SessionEventKind::ProviderTextDeltaRecorded,
            r#"{"turn_id":"turn_1","sequence":1,"text_delta":"hello"}"#,
        )),
        TranscriptIngestResult::Projected
    );
    assert_eq!(
        store.ingest_event(&event(
            "session_event_2",
            SessionEventKind::ProviderTextDeltaRecorded,
            r#"{"turn_id":"turn_1","sequence":2,"text_delta":" world"}"#,
        )),
        TranscriptIngestResult::Projected
    );

    assert_eq!(store.len(), 1);
    assert_eq!(store.items()[0].kind, TranscriptItemKind::ProviderTextDelta);
    assert_eq!(store.items()[0].actor, TranscriptActor::Agent);
    assert_eq!(store.items()[0].turn_id, "turn_1");
    assert_eq!(store.items()[0].text, "hello world");
    assert_eq!(store.items()[0].sequence, Some(2));
}

#[test]
fn keeps_provider_text_deltas_separate_across_turns() {
    let mut store = TranscriptStore::new();

    store.ingest_event(&event(
        "session_event_1",
        SessionEventKind::ProviderTextDeltaRecorded,
        r#"{"turn_id":"turn_1","sequence":1,"text_delta":"first"}"#,
    ));
    store.ingest_event(&event(
        "session_event_2",
        SessionEventKind::ProviderTextDeltaRecorded,
        r#"{"turn_id":"turn_2","sequence":1,"text_delta":"second"}"#,
    ));

    assert_eq!(store.len(), 2);
    assert_eq!(store.items()[0].text, "first");
    assert_eq!(store.items()[1].text, "second");
}

#[test]
fn dedupes_input_admission_and_turn_started_for_same_input_event() {
    let mut store = TranscriptStore::new();

    assert_eq!(
        store.ingest_event(&event(
            "session_event_1",
            SessionEventKind::InputAdmittedToTurn,
            r#"{"input_event_id":"input_1","source_kind":"operator","content_preview":"run startup sequence"}"#,
        )),
        TranscriptIngestResult::Projected
    );
    assert_eq!(
        store.ingest_event(&event(
            "session_event_2",
            SessionEventKind::TurnStarted,
            r#"{"turn_id":"turn_1","input_event_id":"input_1","source_kind":"operator","content_preview":"run startup sequence"}"#,
        )),
        TranscriptIngestResult::Duplicate
    );
    assert_eq!(store.len(), 1);
    assert_eq!(store.items()[0].text, "run startup sequence");
}

#[test]
fn records_duplicates_without_appending_again() {
    let mut store = TranscriptStore::new();
    let event = event("session_event_1", SessionEventKind::TurnCompleted, &terminal_payload("turn_1"));

    assert_eq!(store.ingest_event(&event), TranscriptIngestResult::Projected);
    assert_eq!(store.ingest_event(&event), TranscriptIngestResult::Duplicate);
    assert_eq!(store.len(), 1);
}

#[test]
fn projects_provider_requested_tool_result_when_event_ids_are_unique() {
    let mut store = TranscriptStore::new();

    assert_eq!(
        store.ingest_event(&event(
            "session_event_turn_step241_1",
            SessionEventKind::TurnStarted,
            r#"{"turn_id":"turn_step241_1","input_event_id":"input_operator_composer_1","source_kind":"operator","content_preview":"run startup sequence"}"#,
        )),
        TranscriptIngestResult::Projected
    );
    assert_eq!(
        store.ingest_event(&event(
            "session_event_turn_step241_3",
            SessionEventKind::ProviderToolCallRequested,
            r#"{"turn_id":"turn_step241_1","sequence":1,"tool_name":"agent_context_startup_sequence","arguments_summary":"{}"}"#,
        )),
        TranscriptIngestResult::Projected
    );
    assert_eq!(
        store.ingest_event(&event(
            "session_event_turn_step241_provider_tool_1",
            SessionEventKind::ToolResultReceived,
            r#"{"turn_id":"turn_step241_1","tool_name":"agent_context_startup_sequence","status":"ok","duration_ms":10,"result_summary":"content_items=1"}"#,
        )),
        TranscriptIngestResult::Projected
    );
    assert_eq!(
        store.ingest_event(&event(
            "session_event_turn_step241_4",
            SessionEventKind::TurnCompleted,
            &terminal_payload("turn_step241_1"),
        )),
        TranscriptIngestResult::Projected
    );

    let rendered = texts(&store);
    assert_eq!(rendered[0], "run startup sequence");
    assert_eq!(rendered[1], "agent_context_startup_sequence({})");
    assert_eq!(rendered[2], "ok agent_context_startup_sequence in 10ms · content_items=1");
    assert_eq!(rendered[3], "completed");
}

#[test]
fn ignores_non_transcript_events_but_still_dedupes_them() {
    let mut store = TranscriptStore::new();
    let event = event(
        "session_event_1",
        SessionEventKind::InputQueuedForTurnBoundary,
        r#"{"input_event_id":"input_1"}"#,
    );

    assert_eq!(store.ingest_event(&event), TranscriptIngestResult::Ignored);
    assert_eq!(store.ingest_event(&event), TranscriptIngestResult::Duplicate);
    assert!(store.is_empty());
}

#[test]
fn prepends_history_pages_without_reordering_live_items() {
    let mut store = TranscriptStore::new();
    store.ingest_event(&event(
        "session_event_current",
        SessionEventKind::ProviderTextDeltaRecorded,
        r#"{"turn_id":"turn_current","text_delta":"current"}"#,
    ));

    let summary = store.ingest_history_events(&[
        event(
            "session_event_old_1",
            SessionEventKind::ProviderTextDeltaRecorded,
            r#"{"turn_id":"turn_old","text_delta":"old one"}"#,
        ),
        event(
            "session_event_old_2",
            SessionEventKind::ProviderTextDeltaRecorded,
            r#"{"turn_id":"turn_old","text_delta":"old two"}"#,
        ),
    ]);

    assert_eq!(summary.projected, 2);
    assert_eq!(texts(&store), vec!["old one", "old two", "current"]);
}

#[test]
fn cleared_projection_still_remembers_ingested_events() {
    let mut store = TranscriptStore::new();
    let first = event(
        "session_event_1",
        SessionEventKind::ProviderTextDeltaRecorded,
        r#"{"turn_id":"turn_1","text_delta":"hello"}"#,
    );
    assert_eq!(store.ingest_event(&first), TranscriptIngestResult::Projected);
    store.clear_projection();
    assert!(store.is_empty());
    assert_eq!(store.ingest_event(&first), TranscriptIngestResult::Duplicate);
    assert!(store.is_empty());
}

#[test]
fn replayed_history_page_changes_nothing() {
    let mut store = TranscriptStore::new();
    let page = || {
        vec![
            event(
                "session_event_old_1",
                SessionEventKind::ProviderTextDeltaRecorded,
                r#"{"turn_id":"turn_old","text_delta":"old one"}"#,
            ),
            event(
                "session_event_old_2",
                SessionEventKind::TurnCompleted,
                &terminal_payload("turn_old"),
            ),
        ]
    };
    let first = store.ingest_history_events(&page());
    assert_eq!(first.projected, 2);
    let before = texts(&store);
    let again = store.ingest_history_events(&page());
    assert_eq!(again.projected, 0);
    assert_eq!(again.ignored, 0);
    assert_eq!(again.duplicate, 2);
    assert_eq!(texts(&store), before);
}

#[test]
fn counting_a_result_needs_room_only_in_its_own_counter() {
    let mut summary = TranscriptIngestSummary { projected: 1, ignored: usize::MAX, duplicate: usize::MAX, total_items: 4 };
    summary.add_result(TranscriptIngestResult::Projected);
    assert_eq!(
        summary,
        TranscriptIngestSummary { projected: 2, ignored: usize::MAX, duplicate: usize::MAX, total_items: 4 }
    );
}

#[test]
fn history_page_counts_every_event_once() {
    let mut store = TranscriptStore::new();
    store.ingest_event(&event(
        "session_event_current",
        SessionEventKind::ProviderTextDeltaRecorded,
        r#"{"turn_id":"turn_current","text_delta":"current"}"#,
    ));
    let summary = store.ingest_history_events(&[
        event("session_event_old_1", SessionEventKind::ProviderTextDeltaRecorded, r#"{"turn_id":"t","text_delta":"a"}"#),
        event("session_event_old_2", SessionEventKind::InputQueuedForTurnBoundary, r#"{"input_event_id":"i"}"#),
        event("session_event_current", SessionEventKind::ProviderTextDeltaRecorded, r#"{"turn_id":"t","text_delta":"b"}"#),
    ]);
    assert_eq!(summary.projected + summary.ignored + summary.duplicate, 3);
    assert_eq!((summary.projected, summary.ignored, summary.duplicate), (1, 1, 1));
    assert_eq!(summary.total_items, store.len());
    assert_eq!(texts(&store), vec!["a", "current"]);
}
