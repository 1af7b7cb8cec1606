//! The MCP JSON-RPC contract: the protocol version and method names.
use vstd::prelude::*;
use crate::text::{owned, str_eq};

verus! {

/// The method names of the contract.
#[derive(Debug)]
pub struct McpJsonRpcMethods {
    pub initialize: String,
    pub initialized_notification: String,
    pub tools_list: String,
    pub tools_call: String,
}

/// The MCP JSON-RPC contract.
#[derive(Debug)]
pub struct McpJsonRpcContract {
    pub schema: String,
    pub jsonrpc_version: String,
    pub methods: McpJsonRpcMethods,
}

pub open spec fn mcp_contract_schema() -> Seq<char> {
    "narada.mcp.json_rpc_contract.v1"@
}

pub open spec fn mcp_jsonrpc_version() -> Seq<char> {
    "2.0"@
}

pub open spec fn mcp_initialize_method() -> Seq<char> {
    "initialize"@
}

pub open spec fn mcp_initialized_notification_method() -> Seq<char> {
    "notifications/initialized"@
}

pub open spec fn mcp_tools_list_method() -> Seq<char> {
    "tools/list"@
}

pub open spec fn mcp_tools_call_method() -> Seq<char> {
    "tools/call"@
}

/// The first failed check of a contract read from JSON, if any.
pub open spec fn mcp_contract_problem(c: McpJsonRpcContract) -> Option<Seq<char>> {
    if c.schema@ != mcp_contract_schema() {
        Some("mcp_json_rpc_contract_invalid:schema"@)
    } else if c.jsonrpc_version@.len() == 0 || c.methods.initialize@.len() == 0
        || c.methods.initialized_notification@.len() == 0 || c.methods.tools_list@.len() == 0
        || c.methods.tools_call@.len() == 0 {
        Some("mcp_json_rpc_contract_invalid:methods"@)
    } else {
        None
    }
}

/// The bundled MCP JSON-RPC contract.
pub fn mcp_json_rpc_contract() -> (c: McpJsonRpcContract)
    ensures
        c.schema@ == mcp_contract_schema(),
        c.jsonrpc_version@ == mcp_jsonrpc_version(),
        c.methods.initialize@ == mcp_initialize_method(),
        c.methods.initialized_notification@ == mcp_initialized_notification_method(),
        c.methods.tools_list@ == mcp_tools_list_method(),
        c.methods.tools_call@ == mcp_tools_call_method(),
{
    McpJsonRpcContract {
        schema: owned("narada.mcp.json_rpc_contract.v1"),
        jsonrpc_version: owned("2.0"),
        methods: McpJsonRpcMethods {
            initialize: owned("initialize"),
            initialized_notification: owned("notifications/initialized"),
            tools_list: owned("tools/list"),
            tools_call: owned("tools/call"),
        },
    }
}

/// The JSON-RPC version requests carry.
pub fn jsonrpc_version() -> (r: String)
    ensures
        r@ == mcp_jsonrpc_version(),
{
    mcp_json_rpc_contract().jsonrpc_version
}

/// The initialize method name.
pub fn initialize_method() -> (r: String)
    ensures
        r@ == mcp_initialize_method(),
{
    mcp_json_rpc_contract().methods.initialize
}

/// The initialized notification method name.
pub fn initialized_notification_method() -> (r: String)
    ensures
        r@ == mcp_initialized_notification_method(),
{
    mcp_json_rpc_contract().methods.initialized_notification
}

/// The tool call method name.
pub fn tools_call_method() -> (r: String)
    ensures
        r@ == mcp_tools_call_method(),
{
    mcp_json_rpc_contract().methods.tools_call
}

fn nonempty(s: &String) -> (r: bool)
    ensures
        r == (s@.len() != 0),
{
    !s.as_str().is_empty()
}

/// Checks a contract read from JSON, reporting the first failed check.
pub fn validate_mcp_json_rpc_contract(c: &McpJsonRpcContract) -> (r: Result<(), String>)
    ensures
        match r {
            Ok(()) => mcp_contract_problem(*c) is None,
            Err(e) => mcp_contract_problem(*c) == Some(e@),
        },
{
    if !str_eq(c.schema.as_str(), "narada.mcp.json_rpc_contract.v1") {
        return Err(owned("mcp_json_rpc_contract_invalid:schema"));
    }
    if !nonempty(&c.jsonrpc_version) || !nonempty(&c.methods.initialize) || !nonempty(
        &c.methods.initialized_notification,
    ) || !nonempty(&c.methods.tools_list) || !nonempty(&c.methods.tools_call) {
        return Err(owned("mcp_json_rpc_contract_invalid:methods"));
    }
    Ok(())
}

} // verus!
