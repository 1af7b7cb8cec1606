use narada_agent_tui::json::{JsonNumber, JsonValue};
use narada_agent_tui::mcp_json_rpc::{
    JsonRpcError, JsonRpcRequest, JsonRpcResponse, McpJsonRpcExchange, McpToolRequest,
};

fn model(value: &serde_json::Value) -> JsonValue {
    match value {
        serde_json::Value::Null => JsonValue::Null,
        serde_json::Value::Bool(b) => JsonValue::Bool(*b),
        serde_json::Value::Number(n) => JsonValue::Number(match (n.as_u64(), n.as_i64()) {
            (Some(u), _) => JsonNumber::Unsigned(u),
            (None, Some(i)) => JsonNumber::Signed(i),
            (None, None) => JsonNumber::Decimal(n.to_string()),
        }),
        serde_json::Value::String(s) => JsonValue::Str(s.clone()),
        serde_json::Value::Array(items) => JsonValue::Array(items.iter().map(model).collect()),
        serde_json::Value::Object(members) => {
            JsonValue::Object(members.iter().map(|(k, v)| (k.clone(), model(v))).collect())
        }
    }
}

fn parse_json(text: &str) -> Option<JsonValue> {
    serde_json::from_str::<serde_json::Value>(text).ok().map(|v| model(&v))
}

fn tool_request() -> McpToolRequest {
    McpToolRequest {
        tool_name: "site_loop_run_once".to_string(),
        arguments_summary: "{}".to_string(),
        arguments_ref: None,
        requesting_agent_id: "sonar.resident".to_string(),
    }
}

fn success_response() -> JsonRpcResponse {
    JsonRpcResponse {
        jsonrpc: "2.0".to_string(),
        id: 7,
        result: Some(parse_json(r#"{"content":[{"type":"text","text":"ok"}]}"#).expect("result json")),
        error: None,
    }
}

fn error_response() -> JsonRpcResponse {
    JsonRpcResponse {
        jsonrpc: "2.0".to_string(),
        id: 7,
        result: None,
        error: Some(JsonRpcError { code: -32601, message: "missing".to_string(), data: None }),
    }
}

#[test]
fn builds_initialize_and_initialized_json_rpc_lines() {
    let initialize = JsonRpcRequest::mcp_initialize(1, "narada-agent-tui", "0.1.0");
    let initialized = JsonRpcRequest::mcp_initialized_notification();

    assert_eq!(initialize.method, "initialize");
    assert_eq!(initialize.id, 1);
    assert!(initialize.to_jsonl().unwrap().contains("\"protocolVersion\""));
    assert!(initialize.to_jsonl().unwrap().contains("\"clientInfo\":{\"name\":\"narada-agent-tui\",\"version\":\"0.1.0\"}"));
    assert_eq!(initialized.method, "notifications/initialized");
    assert_eq!(initialized.id, 0);
    assert_eq!(initialized.params, Some(JsonValue::Object(Vec::new())));
    let line = initialized.to_jsonl().expect("line");
    assert!(line.ends_with('\n'));
    assert!(line.contains("\"jsonrpc\":\"2.0\""));
}

#[test]
fn builds_mcp_tools_call_json_rpc_line() {
    let exchange = McpJsonRpcExchange::for_tool_call(7, &tool_request(), JsonValue::Object(Vec::new()))
        .expect("exchange builds");

    assert_eq!(exchange.request.method, "tools/call");
    assert_eq!(exchange.request.id, 7);
    assert!(exchange.request_line.ends_with('\n'));
    assert!(exchange.request_line.contains("\"jsonrpc\":\"2.0\""));
    assert!(exchange.request_line.contains("\"name\":\"site_loop_run_once\""));
    assert_eq!(
        exchange.request_line,
        "{\"jsonrpc\":\"2.0\",\"id\":7,\"method\":\"tools/call\",\"params\":{\"arguments\":{},\"name\":\"site_loop_run_once\"}}\n"
    );
    let bare = JsonRpcRequest { jsonrpc: "2.0".to_string(), id: 3, method: "tools/list".to_string(), params: None };
    assert_eq!(bare.to_jsonl().unwrap(), "{\"jsonrpc\":\"2.0\",\"id\":3,\"method\":\"tools/list\"}\n");
}

#[test]
fn parses_success_response_into_tool_result() {
    let response = success_response();
    response.validate().expect("response validates");
    let result = response.into_tool_result("site_loop_run_once", 12);

    assert_eq!(result.status, "ok");
    assert_eq!(result.duration_ms, 12);
    assert_eq!(result.result_summary, "content_items=1");
    assert_eq!(result.result_text.as_deref(), Some("ok"));
}

#[test]
fn parses_error_response_into_tool_result() {
    let response = error_response();
    response.validate().expect("response validates");
    let result = response.into_tool_result("site_loop_run_once", 9);

    assert_eq!(result.status, "error");
    assert_eq!(result.result_summary, "json_rpc_error:-32601:missing");
    assert_eq!(result.result_text, None);
}

#[test]
fn responses_need_the_version_and_one_outcome() {
    let mut wrong_version = success_response();
    wrong_version.jsonrpc = "1.0".to_string();
    assert_eq!(
        wrong_version.validate().expect_err("version"),
        "mcp_json_rpc_response_version_invalid:1.0"
    );
    let mut both = success_response();
    both.error = error_response().error;
    assert_eq!(
        both.validate().expect_err("both"),
        "mcp_json_rpc_response_must_have_exactly_one_result_or_error"
    );
    let mut neither = success_response();
    neither.result = None;
    assert!(neither.validate().is_err());
}

#[test]
fn results_without_content_are_summarized() {
    let mut empty = success_response();
    empty.result = Some(parse_json(r#"{"structuredContent":{"a":1}}"#).expect("json"));
    let result = empty.clone().into_tool_result("t", 1);
    assert_eq!(result.status, "ok");
    assert_eq!(result.duration_ms, 1);
}
