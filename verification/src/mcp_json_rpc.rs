//! MCP JSON-RPC exchanges: request lines for tool calls, the checks a
//! response line must pass, and the tool result a response stands for.
use vstd::prelude::*;
use crate::json::{
    as_text, compact_text, entries_view, field, object_entries, text_field, to_compact_text, Json,
    JsonNumber, JsonValue, NumberView,
};
use crate::mcp_json_rpc_contract::{
    initialize_method, initialized_notification_method, jsonrpc_version, mcp_initialize_method,
    mcp_initialized_notification_method,
    mcp_jsonrpc_version, mcp_tools_call_method, tools_call_method,
};
use crate::text::{concat, decimal, u64_decimal, is_blank, join, join_strings, owned, signed_decimal, strs, str_eq, trim, trim_str};

verus! {

/// A tool call as the MCP fabric receives it.
#[derive(Debug, Clone, PartialEq, Eq)]
pub struct McpToolRequest {
    pub tool_name: String,
    pub arguments_summary: String,
    pub arguments_ref: Option<JsonValue>,
    pub requesting_agent_id: String,
}

/// The result of a tool call.
#[derive(Debug, Clone, PartialEq, Eq)]
pub struct McpToolResult {
    pub tool_name: String,
    pub status: String,
    pub duration_ms: u64,
    pub result_summary: String,
    pub result_text: Option<String>,
    pub result_ref: Option<JsonValue>,
}

/// A JSON-RPC request.
#[derive(Debug, Clone, PartialEq, Eq)]
pub struct JsonRpcRequest {
    pub jsonrpc: String,
    pub id: u64,
    pub method: String,
    pub params: Option<JsonValue>,
}

/// A JSON-RPC error object.
#[derive(Debug, Clone, PartialEq, Eq)]
pub struct JsonRpcError {
    pub code: i64,
    pub message: String,
    pub data: Option<JsonValue>,
}

/// A JSON-RPC response.
#[derive(Debug, Clone, PartialEq, Eq)]
pub struct JsonRpcResponse {
    pub jsonrpc: String,
    pub id: u64,
    pub result: Option<JsonValue>,
    pub error: Option<JsonRpcError>,
}

/// A request and the line that carries it.
#[derive(Debug, Clone, PartialEq, Eq)]
pub struct McpJsonRpcExchange {
    pub request: JsonRpcRequest,
    pub request_line: String,
}

pub open spec fn opt_json(o: Option<JsonValue>) -> Option<Json> {
    match o {
        Some(v) => Some(v@),
        None => None,
    }
}

/// The line that carries a request: its fields in declaration order
/// (`jsonrpc`, `id`, `method`, then `params` when present), each value in
/// compact JSON, followed by a new line.
pub open spec fn request_line_view(r: JsonRpcRequest) -> Seq<char> {
    "{\"jsonrpc\":"@ + compact_text(Json::Str(r.jsonrpc@)) + ",\"id\":"@ + decimal(r.id as nat) + ",\"method\":"@
        + compact_text(Json::Str(r.method@)) + match r.params {
        Some(p) => ",\"params\":"@ + compact_text(p@),
        None => seq![],
    } + "}\n"@
}

/// What a response line must satisfy: the contract's version, and exactly
/// one of a result and an error.
pub open spec fn response_problem(r: JsonRpcResponse) -> Option<Seq<char>> {
    if r.jsonrpc@ != mcp_jsonrpc_version() {
        Some("mcp_json_rpc_response_version_invalid:"@ + r.jsonrpc@)
    } else if r.result is Some == r.error is Some {
        Some("mcp_json_rpc_response_must_have_exactly_one_result_or_error"@)
    } else {
        None
    }
}

/// The texts of the `text` content items that are not blank.
pub open spec fn text_items(items: Seq<Json>) -> Seq<Seq<char>>
    decreases items.len(),
{
    if items.len() == 0 {
        seq![]
    } else {
        let item = items.last();
        text_items(items.drop_last()) + if text_field(item, "type"@) == Some("text"@) && text_field(item, "text"@)
            is Some && !is_blank(text_field(item, "text"@)->Some_0) {
            seq![text_field(item, "text"@)->Some_0]
        } else {
            seq![]
        }
    }
}

/// The text a tool result carries: its text content items, joined by new
/// lines and trimmed, cut to 8000 characters with a marker when longer.
pub open spec fn result_text_view(result: Option<Json>) -> Option<Seq<char>> {
    match result {
        Some(r) => match field(r, "content"@) {
            Some(Json::Array(items)) => {
                let text = trim(join(text_items(items), seq!['\n']));
                if text.len() == 0 {
                    None
                } else if text.len() > 8000 {
                    Some(text.take(8000) + "\n[truncated]"@)
                } else {
                    Some(text)
                }
            },
            _ => None,
        },
        None => None,
    }
}

/// The summary of a tool result: the number of content items, else the
/// object's keys, else the compact JSON; `empty_result` without a result.
pub open spec fn result_summary_view(result: Option<Json>) -> Seq<char> {
    match result {
        None => "empty_result"@,
        Some(r) => match field(r, "content"@) {
            Some(Json::Array(items)) => "content_items="@ + decimal(items.len()),
            _ => match r {
                Json::Object(members) => "keys="@ + join(members.map_values(|m: (Seq<char>, Json)| m.0), seq![',']),
                _ => compact_text(r),
            },
        },
    }
}

/// The mathematical form of a tool result.
pub struct ToolResultView {
    pub tool_name: Seq<char>,
    pub status: Seq<char>,
    pub duration_ms: u64,
    pub result_summary: Seq<char>,
    pub result_text: Option<Seq<char>>,
    pub result_ref: Option<Json>,
}

impl View for McpToolResult {
    type V = ToolResultView;

    open spec fn view(&self) -> ToolResultView {
        ToolResultView {
            tool_name: self.tool_name@,
            status: self.status@,
            duration_ms: self.duration_ms,
            result_summary: self.result_summary@,
            result_text: crate::json::opt_str_view(self.result_text),
            result_ref: opt_json(self.result_ref),
        }
    }
}

/// The tool result a response stands for.
pub open spec fn tool_result_view(r: JsonRpcResponse, tool_name: Seq<char>, duration_ms: u64) -> ToolResultView {
    match r.error {
        Some(e) => ToolResultView {
            tool_name,
            status: "error"@,
            duration_ms,
            result_summary: "json_rpc_error:"@ + signed_decimal(e.code as int) + seq![':'] + e.message@,
            result_text: None,
            result_ref: None,
        },
        None => ToolResultView {
            tool_name,
            status: "ok"@,
            duration_ms,
            result_summary: result_summary_view(opt_json(r.result)),
            result_text: result_text_view(opt_json(r.result)),
            result_ref: None,
        },
    }
}

fn member(key: &str, value: JsonValue) -> (r: (String, JsonValue))
    ensures
        r.0@ == key@,
        r.1@ == value@,
{
    (owned(key), value)
}

impl JsonRpcRequest {
    /// The `initialize` request a client of a name and version opens an MCP
    /// session with.
    pub fn mcp_initialize(id: u64, client_name: &str, client_version: &str) -> (r: Self)
        ensures
            r.jsonrpc@ == mcp_jsonrpc_version(),
            r.id == id,
            r.method@ == mcp_initialize_method(),
            opt_json(r.params) == Some(
                Json::Object(
                    seq![
                        ("protocolVersion"@, Json::Str("2024-11-05"@)),
                        ("capabilities"@, Json::Object(seq![])),
                        (
                            "clientInfo"@,
                            Json::Object(
                                seq![("name"@, Json::Str(client_name@)), ("version"@, Json::Str(client_version@))],
                            ),
                        ),
                    ],
                ),
            ),
    {
        let mut info: Vec<(String, JsonValue)> = Vec::new();
        info.push(member("name", JsonValue::Str(owned(client_name))));
        info.push(member("version", JsonValue::Str(owned(client_version))));
        proof {
            crate::json::lemma_object_view(info);
        }
        assert(entries_view(info@) =~= seq![("name"@, Json::Str(client_name@)), ("version"@, Json::Str(client_version@))]);
        let capabilities: Vec<(String, JsonValue)> = Vec::new();
        proof {
            crate::json::lemma_object_view(capabilities);
        }
        assert(entries_view(capabilities@) =~= seq![]);
        let mut entries: Vec<(String, JsonValue)> = Vec::new();
        entries.push(member("protocolVersion", JsonValue::Str(owned("2024-11-05"))));
        entries.push(member("capabilities", JsonValue::Object(capabilities)));
        entries.push(member("clientInfo", JsonValue::Object(info)));
        proof {
            crate::json::lemma_object_view(entries);
        }
        assert(entries_view(entries@) =~= seq![
            ("protocolVersion"@, Json::Str("2024-11-05"@)),
            ("capabilities"@, Json::Object(seq![])),
            (
                "clientInfo"@,
                Json::Object(seq![("name"@, Json::Str(client_name@)), ("version"@, Json::Str(client_version@))]),
            ),
        ]);
        let params = JsonValue::Object(entries);
        assert(params@ == Json::Object(
            seq![
                ("protocolVersion"@, Json::Str("2024-11-05"@)),
                ("capabilities"@, Json::Object(seq![])),
                (
                    "clientInfo"@,
                    Json::Object(seq![("name"@, Json::Str(client_name@)), ("version"@, Json::Str(client_version@))]),
                ),
            ],
        ));
        JsonRpcRequest { jsonrpc: jsonrpc_version(), id, method: initialize_method(), params: Some(params) }
    }

    /// The `initialized` notification.
    pub fn mcp_initialized_notification() -> (r: Self)
        ensures
            r.jsonrpc@ == mcp_jsonrpc_version(),
            r.id == 0,
            r.method@ == mcp_initialized_notification_method(),
            opt_json(r.params) == Some(Json::Object(seq![])),
    {
        let empty: Vec<(String, JsonValue)> = Vec::new();
        proof {
            crate::json::lemma_object_view(empty);
        }
        assert(entries_view(empty@) =~= seq![]);
        JsonRpcRequest {
            jsonrpc: jsonrpc_version(),
            id: 0,
            method: initialized_notification_method(),
            params: Some(JsonValue::Object(empty)),
        }
    }

    /// The `tools/call` request for a tool with arguments.
    pub fn mcp_tools_call(id: u64, request: &McpToolRequest, arguments: JsonValue) -> (r: Self)
        ensures
            r.jsonrpc@ == mcp_jsonrpc_version(),
            r.id == id,
            r.method@ == mcp_tools_call_method(),
            opt_json(r.params) == Some(
                Json::Object(seq![("name"@, Json::Str(request.tool_name@)), ("arguments"@, arguments@)]),
            ),
    {
        let mut entries: Vec<(String, JsonValue)> = Vec::new();
        entries.push(member("name", JsonValue::Str(request.tool_name.clone())));
        entries.push(member("arguments", arguments));
        proof {
            crate::json::lemma_object_view(entries);
        }
        assert(entries_view(entries@) =~= seq![("name"@, Json::Str(request.tool_name@)), ("arguments"@, arguments@)]);
        JsonRpcRequest {
            jsonrpc: jsonrpc_version(),
            id,
            method: tools_call_method(),
            params: Some(JsonValue::Object(entries)),
        }
    }

    /// The request as one JSON line.
    pub fn to_jsonl(&self) -> (r: Result<String, String>)
        ensures
            r matches Ok(line) && line@ == request_line_view(*self),
    {
        let a = concat("{\"jsonrpc\":", to_compact_text(&JsonValue::Str(self.jsonrpc.clone())).as_str());
        let b = concat(a.as_str(), ",\"id\":");
        let c = concat(b.as_str(), u64_decimal(self.id).as_str());
        let d = concat(c.as_str(), ",\"method\":");
        let e = concat(d.as_str(), to_compact_text(&JsonValue::Str(self.method.clone())).as_str());
        let f = match &self.params {
            Some(p) => {
                let g = concat(e.as_str(), ",\"params\":");
                concat(g.as_str(), to_compact_text(p).as_str())
            },
            None => e,
        };
        let line = concat(f.as_str(), "}\n");
        assert(line@ =~= request_line_view(*self));
        Ok(line)
    }
}

impl McpJsonRpcExchange {
    /// The exchange for a tool call: its request and request line.
    pub fn for_tool_call(id: u64, request: &McpToolRequest, arguments: JsonValue) -> (r: Result<Self, String>)
        ensures
            r matches Ok(x) && x.request.id == id && x.request.method@ == mcp_tools_call_method()
                && opt_json(x.request.params) == Some(
                Json::Object(seq![("name"@, Json::Str(request.tool_name@)), ("arguments"@, arguments@)]),
            ) && x.request_line@ == request_line_view(x.request),
    {
        let request = JsonRpcRequest::mcp_tools_call(id, request, arguments);
        let request_line = match request.to_jsonl() {
            Ok(line) => line,
            Err(e) => {
                return Err(e);
            },
        };
        Ok(McpJsonRpcExchange { request, request_line })
    }
}

fn summarize_result(result: Option<&JsonValue>) -> (r: String)
    ensures
        r@ == result_summary_view(
            match result {
                Some(v) => Some(v@),
                None => None,
            },
        ),
{
    let v = match result {
        Some(v) => v,
        None => {
            return owned("empty_result");
        },
    };
    if let Some(c) = crate::json::get(v, "content") {
        if let Some(items) = crate::json::array_items(c) {
            return concat("content_items=", crate::text::u64_decimal(items.len() as u64).as_str());
        }
    }
    match object_entries(v) {
        Some(members) => {
            let mut keys: Vec<String> = Vec::new();
            let mut i: usize = 0;
            while i < members.len()
                invariant
                    i <= members.len(),
                    strs(keys@) == entries_view(members@).map_values(|m: (Seq<char>, Json)| m.0).take(i as int),
                decreases members.len() - i,
            {
                let ghost before = keys@;
                keys.push(members[i].0.clone());
                assert(strs(keys@) =~= strs(before).push(members@[i as int].0@));
                assert(strs(keys@) =~= entries_view(members@).map_values(|m: (Seq<char>, Json)| m.0).take(i + 1));
                i = i + 1;
            }
            assert(entries_view(members@).map_values(|m: (Seq<char>, Json)| m.0).take(i as int) =~= entries_view(
                members@,
            ).map_values(|m: (Seq<char>, Json)| m.0));
            proof {
                reveal_strlit(",");
            }
            let joined = join_strings(&keys, ",");
            assert(","@ =~= seq![',']);
            concat("keys=", joined.as_str())
        },
        None => to_compact_text(v),
    }
}

fn extract_text_result(result: Option<&JsonValue>) -> (r: Option<String>)
    ensures
        crate::json::opt_str_view(r) == result_text_view(
            match result {
                Some(v) => Some(v@),
                None => None,
            },
        ),
{
    let v = match result {
        Some(v) => v,
        None => {
            return None;
        },
    };
    let items = match crate::json::get(v, "content") {
        Some(c) => match crate::json::array_items(c) {
            Some(items) => items,
            None => {
                return None;
            },
        },
        None => {
            return None;
        },
    };
    let ghost iv = crate::json::values_view(items@);
    let mut texts: Vec<String> = Vec::new();
    let mut i: usize = 0;
    while i < items.len()
        invariant
            i <= items.len(),
            iv.len() == items@.len(),
            forall|k: int| 0 <= k < iv.len() ==> #[trigger] iv[k] == items@[k]@,
            strs(texts@) == text_items(iv.take(i as int)),
        decreases items.len() - i,
    {
        assert(iv.take(i + 1).drop_last() =~= iv.take(i as int));
        assert(iv.take(i + 1).last() == items@[i as int]@);
        let item = &items[i];
        let is_text = match crate::json::text_of(item, "type") {
            Some(t) => str_eq(t.as_str(), "text"),
            None => false,
        };
        let ghost before = texts@;
        if is_text {
            if let Some(text) = crate::json::text_of(item, "text") {
                if !crate::text::is_blank_str(text.as_str()) {
                    texts.push(text);
                    assert(strs(texts@) =~= strs(before).push(texts@.last()@));
                }
            }
        }
        assert(strs(texts@) =~= text_items(iv.take(i + 1)));
        i = i + 1;
    }
    assert(iv.take(i as int) =~= iv);
    proof {
        reveal_strlit("\n");
    }
    let joined = join_strings(&texts, "\n");
    assert("\n"@ =~= seq!['\n']);
    let text = trim_str(joined.as_str());
    let cs = crate::text::chars_of(text);
    if cs.len() == 0 {
        return None;
    }
    if cs.len() > 8000 {
        let head = crate::text::substring(&cs, 0, 8000);
        Some(concat(head.as_str(), "\n[truncated]"))
    } else {
        Some(owned(text))
    }
}

impl JsonRpcResponse {
    /// Checks a parsed response line: the contract's version, and exactly
    /// one of a result and an error.
    pub fn validate(&self) -> (r: Result<(), String>)
        ensures
            match r {
                Ok(()) => response_problem(*self) is None,
                Err(e) => response_problem(*self) == Some(e@),
            },
    {
        let version = jsonrpc_version();
        if !str_eq(self.jsonrpc.as_str(), version.as_str()) {
            return Err(concat("mcp_json_rpc_response_version_invalid:", self.jsonrpc.as_str()));
        }
        if self.result.is_some() == self.error.is_some() {
            return Err(owned("mcp_json_rpc_response_must_have_exactly_one_result_or_error"));
        }
        Ok(())
    }

    /// The tool result a response stands for.
    pub fn into_tool_result(self, tool_name: &str, duration_ms: u64) -> (r: McpToolResult)
        ensures
            r@ == tool_result_view(self, tool_name@, duration_ms),
    {
        match &self.error {
            Some(error) => {
                let a = concat("json_rpc_error:", crate::text::i64_decimal(error.code).as_str());
                proof {
                    reveal_strlit(":");
                }
                let b = concat(a.as_str(), ":");
                let summary = concat(b.as_str(), error.message.as_str());
                assert(summary@ =~= "json_rpc_error:"@ + signed_decimal(error.code as int) + seq![':'] + error.message@);
                McpToolResult {
                    tool_name: owned(tool_name),
                    status: owned("error"),
                    duration_ms,
                    result_summary: summary,
                    result_text: None,
                    result_ref: None,
                }
            },
            None => {
                let result = match &self.result {
                    Some(v) => Some(v),
                    None => None,
                };
                McpToolResult {
                    tool_name: owned(tool_name),
                    status: owned("ok"),
                    duration_ms,
                    result_summary: summarize_result(result),
                    result_text: extract_text_result(result),
                    result_ref: None,
                }
            },
        }
    }
}

} // verus!
