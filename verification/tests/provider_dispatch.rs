use narada_agent_tui::json::JsonNumber;
use narada_agent_tui::mcp_fabric::{
    codex_isolation_config_path, CodexMcpIsolation, McpFabricTransportClient, McpRuntimeAdmissionStatus,
};
use narada_agent_tui::operator_routing_contract::operator_routing_contract;
use narada_agent_tui::provider_dispatch::{
    codex_exec_args, codex_launch_plan, codex_outcome, codex_streaming_text_delta, direct_operator_intent_tool_call,
    is_potential_narada_tool_call_text, is_tool_call_readable, parse_narada_tool_call,
    process_codex_stdout_line, prompt_with_carrier_goal, provider_streaming_contract, reasoning_effort,
    set_runtime_session_goal, CodexOutcome, ProviderAdapterRequest, ProviderDispatchStatus, ProviderOutputKind,
    ProviderRuntimeConfig,
};
use narada_agent_tui::carrier_protocol::{DeliveryMode, InputEvent, SessionEventKind, SourceKind};
use narada_agent_tui::json::JsonValue;

fn model(value: &serde_json::Value) -> JsonValue {
    match value {
        serde_json::Value::Null => JsonValue::Null,
        serde_json::Value::Bool(b) => JsonValue::Bool(*b),
        serde_json::Value::Number(n) => JsonValue::Number(match (n.as_u64(), n.as_i64()) {
            (Some(u), _) => JsonNumber::Unsigned(u),
            (None, Some(i)) => JsonNumber::Signed(i),
            (None, None) => JsonNumber::Decimal(n.to_string()),
        }),
        serde_json::Value::String(s) => JsonValue::Str(s.clone()),
        serde_json::Value::Array(items) => JsonValue::Array(items.iter().map(model).collect()),
        serde_json::Value::Object(members) => {
            JsonValue::Object(members.iter().map(|(k, v)| (k.clone(), model(v))).collect())
        }
    }
}

fn parse_json(text: &str) -> Option<JsonValue> {
    serde_json::from_str::<serde_json::Value>(text).ok().map(|v| model(&v))
}

fn to_serde(value: &JsonValue) -> serde_json::Value {
    match value {
        JsonValue::Null => serde_json::Value::Null,
        JsonValue::Bool(b) => serde_json::Value::Bool(*b),
        JsonValue::Number(JsonNumber::Unsigned(u)) => serde_json::Value::from(*u),
        JsonValue::Number(JsonNumber::Signed(i)) => serde_json::Value::from(*i),
        JsonValue::Number(JsonNumber::Decimal(d)) => serde_json::from_str(d).unwrap_or_default(),
        JsonValue::Str(s) => serde_json::Value::String(s.clone()),
        JsonValue::Array(items) => serde_json::Value::Array(items.iter().map(to_serde).collect()),
        JsonValue::Object(members) => {
            serde_json::Value::Object(members.iter().map(|(k, v)| (k.clone(), to_serde(v))).collect())
        }
    }
}

fn compact(value: &JsonValue) -> String {
    to_serde(value).to_string()
}

fn site_mcp_fabric_config_json() -> &'static str {
    r#"{
  "site_id": "narada-sonar",
  "carrier": "agent-tui",
  "mcpServers": {
    "narada-sonar-agent-context": {
      "transport": "stdio",
      "command": "node",
      "args": [
        "D:/code/mcp-surfaces/packages/agent-context-mcp/dist/src/main.js",
        "--site-root",
        "D:/code/narada.sonar"
      ],
      "tools": ["agent_context_startup_sequence"]
    },
    "narada-sonar-scheduler": {
      "transport": "stdio",
      "command": "node",
      "args": [
        "D:/code/mcp-surfaces/packages/scheduler-mcp/dist/src/main.js"
      ],
      "tools": ["scheduler_list"]
    }
  }
}"#
}

fn request(goal: Option<&str>, goal_status: &str) -> ProviderAdapterRequest {
    ProviderAdapterRequest {
        turn_id: "turn_1".to_string(),
        input_event_id: "input_1".to_string(),
        content_preview: "answer with provider text".to_string(),
        provider_runtime_status: "admitted".to_string(),
        provider: Some("codex-subscription".to_string()),
        model: Some("gpt-5.5".to_string()),
        thinking: None,
        goal: goal.map(|g| g.to_string()),
        goal_status: goal_status.to_string(),
        stream: true,
    }
}

#[test]
fn codex_mcp_isolation_config_contains_only_site_fabric_servers() {
    let client = McpFabricTransportClient::from_json_str(
        "D:/code/narada.sonar/.ai/mcp/agent-tui.json",
        site_mcp_fabric_config_json(),
    )
    .expect("site MCP fabric parses");
    let isolation = CodexMcpIsolation::from_client_with_auth_source(
        "D:/tmp/narada-agent-tui-codex-config-fixture",
        &client,
        None,
    );

    assert!(isolation
        .config_toml
        .contains("[mcp_servers.\"narada-sonar-agent-context\"]"));
    assert!(isolation
        .config_toml
        .contains("[mcp_servers.\"narada-sonar-scheduler\"]"));
    assert!(isolation.config_toml.contains("D:/code/narada.sonar"));
    assert!(isolation
        .config_toml
        .contains("default_tools_approval_mode = \"approve\""));
    assert!(!isolation.config_toml.contains("narada-andrey"));
    assert!(!isolation.config_toml.contains("C:/Users/Andrey/Narada"));
    assert_eq!(isolation.codex_home, "D:/tmp/narada-agent-tui-codex-config-fixture");
    assert_eq!(isolation.codex_config_dir, isolation.codex_home);
}

#[test]
fn codex_config_lines_are_exact() {
    let client = McpFabricTransportClient::from_json_str(
        "fabric.json",
        r#"{"mcpServers":{"ctx":{"command":"C:\\node","args":["a\\b"]}}}"#,
    )
    .expect("fabric parses");
    let isolation = CodexMcpIsolation::from_client_with_auth_source("home", &client, Some("auth".to_string()));
    assert_eq!(
        isolation.config_toml,
        "# Generated by narada-agent-tui for nested Codex subprocesses.\n# Mirrors the target Site MCP fabric; does not import User Site MCP servers.\n\n[mcp_servers.\"ctx\"]\ncommand = \"C:/node\"\nargs = [\"a/b\"]\ndefault_tools_approval_mode = \"approve\"\n"
    );
    assert_eq!(isolation.auth_source_home.as_deref(), Some("auth"));
}

#[test]
fn fabric_configs_without_servers_are_refused() {
    assert_eq!(
        McpFabricTransportClient::from_json_str("f", "not json").expect_err("invalid"),
        "mcp_fabric_config_invalid_json"
    );
    assert_eq!(
        McpFabricTransportClient::from_json_str("f", "{}").expect_err("missing"),
        "mcp_fabric_config_missing_servers"
    );
    assert_eq!(
        McpFabricTransportClient::from_json_str("f", r#"{"mcpServers":{"bad":{"args":[]}}}"#)
            .expect_err("invalid server"),
        "mcp_fabric_server_invalid:bad"
    );
}

#[test]
fn active_carrier_goal_is_added_to_codex_prompt() {
    let request = request(Some("finish parity"), "active");

    assert_eq!(
        prompt_with_carrier_goal(&request),
        "Active carrier session goal: finish parity\nUse this as the persistent task target and completion criterion while it remains active.\n\nanswer with provider text"
    );

    let mut paused = request.clone();
    paused.goal_status = "paused".to_string();
    assert_eq!(prompt_with_carrier_goal(&paused), "answer with provider text");
}

#[test]
fn provider_dispatch_statuses_have_canonical_strings() {
    assert_eq!(
        ProviderDispatchStatus::RecordedNotDispatched.as_str(),
        "recorded_not_dispatched"
    );
    assert_eq!(ProviderDispatchStatus::Dispatched.as_str(), "dispatched");
    assert_eq!(ProviderDispatchStatus::Completed.as_str(), "completed");
    assert_eq!(ProviderDispatchStatus::Failed.as_str(), "failed");
    assert_eq!(ProviderDispatchStatus::Interrupted.as_str(), "interrupted");
    assert_eq!(ProviderOutputKind::TextDelta.as_str(), "text_delta");
    assert_eq!(ProviderOutputKind::ToolCallRequest.as_str(), "tool_call_request");
}

#[test]
fn routes_startup_sequence_intent_directly_to_startup_tool() {
    let contract = operator_routing_contract();
    let route = &contract.direct_tool_routes[0];
    let first_phrase = route.phrases[0].as_str();
    let second_phrase = route.phrases[1].replace(' ', "   ");
    let arguments = compact(&route.arguments);
    assert_eq!(
        direct_operator_intent_tool_call(first_phrase),
        Some((route.tool_name.clone(), arguments.clone()))
    );
    assert_eq!(
        direct_operator_intent_tool_call(&format!("  {second_phrase}.  ")),
        Some((route.tool_name.clone(), arguments))
    );
    assert_eq!(direct_operator_intent_tool_call("check startup docs"), None);
}

#[test]
fn routes_operator_pasted_narada_tool_call_directly() {
    let contract = operator_routing_contract();
    let route = &contract.reader_routes[0];
    let envelope = format!(
        r#"{{"{}":{{"name":"{}","arguments":{{"ref":"mcp_output:o_98b8292361cf4937a6282193","output_limit":10000}}}}}}"#,
        contract.tool_call_envelope.field, route.tool_name
    );
    assert_eq!(
        direct_operator_intent_tool_call(&envelope),
        Some((
            route.tool_name.clone(),
            r#"{"output_limit":10000,"ref":"mcp_output:o_98b8292361cf4937a6282193"}"#.to_string()
        ))
    );
}

#[test]
fn routes_operator_reader_request_with_output_ref_directly() {
    let contract = operator_routing_contract();
    let route = &contract.reader_routes[0];
    let phrase = route
        .phrases
        .iter()
        .find(|phrase| phrase.contains("reader"))
        .expect("reader phrase is present");
    let output_ref = "mcp_output:o_98b8292361cf4937a6282193";
    assert_eq!(
        direct_operator_intent_tool_call(&format!("Call the {phrase} now for {output_ref}.")),
        Some((
            route.tool_name.clone(),
            r#"{"output_limit":10000,"ref":"mcp_output:o_98b8292361cf4937a6282193"}"#.to_string()
        ))
    );
    assert_eq!(
        direct_operator_intent_tool_call(&format!("Discuss {output_ref} generally")),
        None
    );
}

#[test]
fn fenced_tool_call_envelopes_parse_with_default_arguments() {
    assert_eq!(
        parse_narada_tool_call("```json\n{\"narada_tool_call\":{\"name\":\"scheduler_list\"}}\n```"),
        Some(("scheduler_list".to_string(), "{}".to_string()))
    );
    assert_eq!(parse_narada_tool_call("no envelope here"), None);
    assert!(is_tool_call_readable("{\"a\":1}"));
    assert!(!is_tool_call_readable("} then {"));
}

#[test]
fn potential_tool_call_text_is_held_back() {
    assert!(is_potential_narada_tool_call_text("{"));
    assert!(is_potential_narada_tool_call_text("  {\"narada_tool_call\": {"));
    assert!(!is_potential_narada_tool_call_text("hello"));
    assert!(!is_potential_narada_tool_call_text(""));
}

#[test]
fn codex_stdout_lines_stream_deltas_and_completed_messages() {
    let mut content = String::new();
    let delta = process_codex_stdout_line(r#"{"type":"response.output_text.delta","delta":"Hel"}"#, &mut content, false);
    assert_eq!(delta.as_deref(), Some("Hel"));
    assert_eq!(content, "Hel");
    assert_eq!(process_codex_stdout_line("not json", &mut content, true), None);
    assert_eq!(content, "Hel");

    let mut fresh = String::new();
    let done = process_codex_stdout_line(
        r#"{"type":"item.completed","item":{"type":"agent_message","text":"Done."}}"#,
        &mut fresh,
        false,
    );
    assert_eq!(done.as_deref(), Some("Done."));
    assert_eq!(fresh, "Done.");

    let mut streamed = String::from("x");
    let skipped = process_codex_stdout_line(
        r#"{"type":"item.completed","item":{"type":"agent_message","text":"Done."}}"#,
        &mut streamed,
        true,
    );
    assert_eq!(skipped, None);
    assert_eq!(streamed, "x");

    let event = parse_json(r#"{"type":"stream","item":{"text":"from item"}}"#).expect("json");
    assert_eq!(codex_streaming_text_delta(&event).as_deref(), Some("from item"));
}

#[test]
fn codex_outcomes_cover_failure_tool_calls_and_text() {
    assert_eq!(
        codex_outcome(false, Some(2), "  boom  ", "", false),
        CodexOutcome::Failed("codex_exec_failed:2:boom".to_string())
    );
    assert_eq!(
        codex_outcome(false, None, "", "", false),
        CodexOutcome::Failed("codex_exec_failed:-1:".to_string())
    );
    assert_eq!(
        codex_outcome(true, Some(0), "", "   ", false),
        CodexOutcome::Failed("codex_exec_empty_response".to_string())
    );
    assert_eq!(
        codex_outcome(true, Some(0), "", "{\"narada_tool_call\":{\"name\":\"t\",\"arguments\":{\"a\":1}}}", true),
        CodexOutcome::ToolCall("t".to_string(), "{\"a\":1}".to_string())
    );
    assert_eq!(codex_outcome(true, Some(0), "", "hi", true), CodexOutcome::Streamed);
    assert_eq!(
        codex_outcome(true, Some(0), "", "hi", false),
        CodexOutcome::Text("hi".to_string())
    );
}

#[test]
fn codex_exec_arguments_carry_model_effort_and_directory() {
    let mut req = request(None, "none");
    req.thinking = Some("high".to_string());
    assert_eq!(
        codex_exec_args(&req, "D:/site"),
        vec![
            "exec",
            "--json",
            "--dangerously-bypass-approvals-and-sandbox",
            "-m",
            "gpt-5.5",
            "-c",
            "approval_policy=\"never\"",
            "-c",
            "model_reasoning_effort=\"high\"",
            "-C",
            "D:/site",
            "-",
        ]
    );
    assert_eq!(reasoning_effort(Some("none")), None);
    assert_eq!(reasoning_effort(Some("low")).as_deref(), Some("low"));
    assert_eq!(reasoning_effort(Some("bogus")).as_deref(), Some("medium"));
    assert_eq!(reasoning_effort(None).as_deref(), Some("medium"));
}

#[test]
fn streaming_contract_names() {
    assert_eq!(provider_streaming_contract(true, true), "streaming_text_delta_events");
    assert_eq!(provider_streaming_contract(true, false), "single_provider_output_batch");
    assert_eq!(provider_streaming_contract(false, true), "requested_but_not_dispatched");
    assert_eq!(provider_streaming_contract(false, false), "not_requested");
}

#[test]
fn codex_launch_needs_a_prompt_and_a_site_root() {
    let req = request(None, "none");
    let (prompt, args) = codex_launch_plan(&req, Some("D:/site")).expect("plan");
    assert_eq!(prompt, "answer with provider text");
    assert_eq!(args, codex_exec_args(&req, "D:/site"));
    assert_eq!(
        codex_launch_plan(&req, None).expect_err("no root"),
        "codex_subscription_site_root_missing"
    );
    assert_eq!(
        codex_launch_plan(&req, Some("   ")).expect_err("blank root"),
        "codex_subscription_site_root_missing"
    );
    let mut blank = req.clone();
    blank.content_preview = "  ".to_string();
    assert_eq!(
        codex_launch_plan(&blank, Some("D:/site")).expect_err("blank prompt"),
        "codex_subscription_prompt_missing"
    );
}

#[test]
fn requests_carry_input_and_runtime_settings() {
    let mut config = ProviderRuntimeConfig {
        status: "configured".to_string(),
        provider: Some("codex-subscription".to_string()),
        model: Some("gpt-5.5".to_string()),
        thinking: Some("medium".to_string()),
        goal: None,
        goal_status: "unset".to_string(),
        stream: false,
    };
    set_runtime_session_goal(&mut config, Some("ship it".to_string()), "paused".to_string());
    assert_eq!(config.goal.as_deref(), Some("ship it"));
    assert_eq!(config.goal_status, "paused");
    set_runtime_session_goal(&mut config, Some("  ".to_string()), "active".to_string());
    assert_eq!(config.goal, None);
    assert_eq!(config.goal_status, "unset");
    set_runtime_session_goal(&mut config, Some("finish parity".to_string()), "anything".to_string());
    assert_eq!(config.goal_status, "active");

    let input = InputEvent {
        event_id: "input_1".to_string(),
        source_kind: SourceKind::Operator,
        delivery_mode: DeliveryMode::AdmitNow,
        hold_condition: None,
        directive_id: None,
        content: "run startup sequence".to_string(),
        metadata: JsonValue::Object(Vec::new()),
    };
    let request = ProviderAdapterRequest::from_input(&input, "turn_1", &config);
    assert_eq!(request.turn_id, "turn_1");
    assert_eq!(request.input_event_id, "input_1");
    assert_eq!(request.content_preview, "run startup sequence");
    assert_eq!(request.provider_runtime_status, "configured");
    assert_eq!(request.goal.as_deref(), Some("finish parity"));
    assert_eq!(request.goal_status, "active");
    assert!(!request.stream);
    assert_eq!(ProviderOutputKind::TextDelta.session_event_kind(), SessionEventKind::ProviderTextDeltaRecorded);
    assert_eq!(
        ProviderOutputKind::ToolCallRequest.session_event_kind(),
        SessionEventKind::ProviderToolCallRequested
    );
}

#[test]
fn codex_isolation_is_owed_only_when_mcp_is_configured() {
    assert_eq!(codex_isolation_config_path(McpRuntimeAdmissionStatus::Disabled, Some("f.json")), Ok(None));
    assert_eq!(codex_isolation_config_path(McpRuntimeAdmissionStatus::Refused, None), Ok(None));
    assert_eq!(
        codex_isolation_config_path(McpRuntimeAdmissionStatus::Configured, Some("f.json")),
        Ok(Some("f.json".to_string()))
    );
    assert_eq!(
        codex_isolation_config_path(McpRuntimeAdmissionStatus::Configured, None),
        Err("codex_mcp_isolation_missing_mcp_config".to_string())
    );
}
