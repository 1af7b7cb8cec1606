use narada_agent_tui::json::{JsonNumber, JsonValue};
use narada_agent_tui::mcp_fabric::{McpFabricBoundary, McpFabricPolicy};
use narada_agent_tui::mcp_json_rpc::McpToolRequest;
use narada_agent_tui::provider_dispatch::{ProviderOutputKind, ProviderOutputRecord};
use narada_agent_tui::provider_tool_call_bridge::{
    evidence_written_count, format_tool_follow_up, paged_mcp_output_advisory, paged_mcp_output_reader,
    parse_arguments, provider_output_to_mcp_request, provider_tool_follow_up, resolve_provider_tool_alias,
    McpRuntimeExecutionResult,
};

fn model(value: &serde_json::Value) -> JsonValue {
    match value {
        serde_json::Value::Null => JsonValue::Null,
        serde_json::Value::Bool(b) => JsonValue::Bool(*b),
        serde_json::Value::Number(n) => JsonValue::Number(match (n.as_u64(), n.as_i64()) {
            (Some(u), _) => JsonNumber::Unsigned(u),
            (None, Some(i)) => JsonNumber::Signed(i),
            (None, None) => JsonNumber::Decimal(n.to_string()),
        }),
        serde_json::Value::String(s) => JsonValue::Str(s.clone()),
        serde_json::Value::Array(items) => JsonValue::Array(items.iter().map(model).collect()),
        serde_json::Value::Object(members) => {
            JsonValue::Object(members.iter().map(|(k, v)| (k.clone(), model(v))).collect())
        }
    }
}

fn parse_json(text: &str) -> Option<JsonValue> {
    serde_json::from_str::<serde_json::Value>(text).ok().map(|v| model(&v))
}

fn narada_proper_startup_boundary() -> McpFabricBoundary {
    McpFabricBoundary::admitted(McpFabricPolicy::from_allowed_tools(
        "D:/code/narada/.ai/mcp",
        "fixture.mcp.json:mcpServers",
        &["agent_context_startup_sequence", "mcp_output_show"],
    ))
}

fn tool_output(tool_name: &str, arguments_summary: &str, sequence: u64) -> ProviderOutputRecord {
    let payload = format!(
        r#"{{"turn_id":"turn_1","sequence":{sequence},"tool_name":"{tool_name}","arguments_summary":{},"arguments_ref":null}}"#,
        serde_json::Value::String(arguments_summary.to_string())
    );
    ProviderOutputRecord {
        kind: ProviderOutputKind::ToolCallRequest,
        payload: parse_json(&payload).expect("payload json"),
    }
}

fn result(tool: &str, text: Option<&str>) -> McpRuntimeExecutionResult {
    McpRuntimeExecutionResult {
        tool_name: tool.to_string(),
        server_name: "sonar-site".to_string(),
        status: "ok".to_string(),
        result_summary: "summary".to_string(),
        result_text: text.map(|t| t.to_string()),
        request_evidence_written: true,
        result_evidence_written: true,
        recovery_evidence_written: false,
    }
}

#[test]
fn resolves_generic_startup_sequence_to_visible_site_alias() {
    let request = McpToolRequest {
        tool_name: "startup_sequence".to_string(),
        arguments_summary: "{}".to_string(),
        arguments_ref: None,
        requesting_agent_id: "narada.architect".to_string(),
    };

    let resolved = resolve_provider_tool_alias(request, &narada_proper_startup_boundary());

    assert_eq!(resolved.tool_name, "agent_context_startup_sequence");
}

#[test]
fn resolves_legacy_payload_reader_to_callable_payload_show() {
    let request = McpToolRequest {
        tool_name: "mcp_payload_read".to_string(),
        arguments_summary: r#"{"ref":"mcp_payload:payload_test@v1"}"#.to_string(),
        arguments_ref: None,
        requesting_agent_id: "narada.architect".to_string(),
    };
    let boundary = McpFabricBoundary::admitted(McpFabricPolicy::from_allowed_tools(
        "D:/code/narada/.ai/mcp",
        "fixture.mcp.json:mcpServers",
        &["mcp_payload_show"],
    ));

    let resolved = resolve_provider_tool_alias(request, &boundary);

    assert_eq!(resolved.tool_name, "mcp_payload_show");
}

#[test]
fn admitted_tools_are_not_renamed() {
    let request = McpToolRequest {
        tool_name: "mcp_output_show".to_string(),
        arguments_summary: "{}".to_string(),
        arguments_ref: None,
        requesting_agent_id: "a".to_string(),
    };
    let resolved = resolve_provider_tool_alias(request.clone(), &narada_proper_startup_boundary());
    assert_eq!(resolved, request);
}

#[test]
fn ignores_non_tool_provider_output() {
    let output = ProviderOutputRecord {
        kind: ProviderOutputKind::TextDelta,
        payload: parse_json(r#"{"text_delta":"hello"}"#).expect("json"),
    };
    let request = provider_output_to_mcp_request(&output, "sonar.resident").expect("bridge handles output");

    assert!(request.is_none());
}

#[test]
fn converts_provider_tool_output_to_mcp_request() {
    let output = tool_output("site_loop_run_once", "{}", 2);
    let (request, arguments, sequence) = provider_output_to_mcp_request(&output, "sonar.resident")
        .expect("bridge handles output")
        .expect("tool request extracted");

    assert_eq!(request.tool_name, "site_loop_run_once");
    assert_eq!(request.requesting_agent_id, "sonar.resident");
    assert!(request.arguments_ref.is_none());
    assert_eq!(arguments, JsonValue::Object(Vec::new()));
    assert_eq!(sequence, 2);
}

#[test]
fn rejects_non_json_inline_arguments() {
    let output = tool_output("site_loop_run_once", "not-json", 2);
    let error = provider_output_to_mcp_request(&output, "sonar.resident").expect_err("non-json arguments rejected");

    assert!(error.starts_with("provider_tool_call_arguments_not_json:not-json:"));
}

#[test]
fn missing_tool_fields_are_named() {
    let output = ProviderOutputRecord {
        kind: ProviderOutputKind::ToolCallRequest,
        payload: parse_json(r#"{"arguments_summary":"{}"}"#).expect("json"),
    };
    assert_eq!(
        provider_output_to_mcp_request(&output, "a").expect_err("missing"),
        "provider_tool_call_missing_field:tool_name"
    );
    assert_eq!(parse_arguments("   ").expect("blank"), JsonValue::Object(Vec::new()));
}

#[test]
fn paged_results_point_at_the_reader() {
    let body = r#"{"truncated":true,"reader_tool":"mcp_output_show","output_ref":"mcp_output:o_1"}"#;
    assert_eq!(
        paged_mcp_output_reader(body),
        Some(("mcp_output_show".to_string(), "mcp_output:o_1".to_string()))
    );
    assert_eq!(
        paged_mcp_output_reader(r#"{"truncated":true,"reader_tool":"mcp_output_show","ref":"mcp_output:o_2"}"#),
        Some(("mcp_output_show".to_string(), "mcp_output:o_2".to_string()))
    );
    assert_eq!(paged_mcp_output_reader(r#"{"truncated":false,"reader_tool":"mcp_output_show","ref":"x"}"#), None);
    assert_eq!(paged_mcp_output_reader("plain"), None);
    assert_eq!(
        paged_mcp_output_advisory(body).expect("advisory"),
        "The full output is paged as mcp_output:o_1. To read it, emit exactly this JSON tool-call envelope and no surrounding prose: {\"narada_tool_call\":{\"name\":\"mcp_output_show\",\"arguments\":{\"output_ref\":\"mcp_output:o_1\"}}}"
    );
}

#[test]
fn follow_up_text_names_the_result_and_the_auto_read() {
    let first = result("agent_context_startup_sequence", Some("  started  "));
    assert_eq!(evidence_written_count(&first), 2);
    assert_eq!(
        format_tool_follow_up(&first, None),
        "Tool result for agent_context_startup_sequence from sonar-site: ok.\nstarted"
    );
    let reader = result("mcp_output_show", None);
    assert_eq!(
        format_tool_follow_up(&first, Some(&reader)),
        "Tool result for agent_context_startup_sequence from sonar-site: ok.\nstarted\nAuto-read paged output via mcp_output_show from sonar-site: ok.\nsummary"
    );
    let execution = provider_tool_follow_up(&first, Some(&reader));
    assert_eq!(execution.evidence_written, 4);
}

#[test]
fn sensitive_provider_tool_arguments_remain_executable_inline() {
    let output = tool_output("site_loop_run_once", r#"{"secret":"value"}"#, 2);
    let (request, arguments, _sequence) = provider_output_to_mcp_request(&output, "sonar.resident")
        .expect("bridge handles output")
        .expect("tool request extracted");

    assert_eq!(request.tool_name, "site_loop_run_once");
    assert!(request.arguments_ref.is_none());
    assert_eq!(
        arguments,
        JsonValue::Object(vec![("secret".to_string(), JsonValue::Str("value".to_string()))])
    );
}
