//! The bridge from provider tool-call output to MCP tool calls: the request
//! a tool-call output stands for, tool alias resolution at the fabric
//! boundary, detection of paged output that should be read next, and the
//! follow-up text a tool result gives the provider.
use vstd::prelude::*;
use crate::json::{
    as_text, copy_json, field, parse_json, parse_json_or_error, parsed_json, json_error_text,
    text_field, Json, JsonValue,
};
use crate::mcp_fabric::McpFabricBoundary;
use crate::mcp_json_rpc::McpToolRequest;
use crate::provider_dispatch::{ProviderOutputKind, ProviderOutputRecord};
use crate::text::{concat, is_blank, is_blank_str, owned, str_eq, trim, trim_str};

verus! {

/// Whether a provider output led to a tool call.
#[derive(Debug, Clone, Copy, PartialEq, Eq, Structural)]
pub enum ProviderToolCallBridgeStatus {
    IgnoredNonToolOutput,
    Executed,
}

/// What the runtime reports of one executed tool call.
#[derive(Debug, Clone, PartialEq, Eq)]
pub struct McpRuntimeExecutionResult {
    pub tool_name: String,
    pub server_name: String,
    pub status: String,
    pub result_summary: String,
    pub result_text: Option<String>,
    pub request_evidence_written: bool,
    pub result_evidence_written: bool,
    pub recovery_evidence_written: bool,
}

/// What the bridge did with a provider output.
#[derive(Debug, Clone, PartialEq, Eq)]
pub struct ProviderToolCallBridgeResult {
    pub status: ProviderToolCallBridgeStatus,
    pub tool_name: Option<String>,
    pub mcp_result: Option<McpRuntimeExecutionResult>,
    pub auto_reader_result: Option<McpRuntimeExecutionResult>,
}

/// What a tool call gives back to the turn: evidence written and the text
/// to follow up with.
#[derive(Debug, Clone, PartialEq, Eq)]
pub struct ProviderToolCallExecution {
    pub evidence_written: usize,
    pub follow_up_text: Option<String>,
}

/// How many evidence records a tool call wrote.
pub open spec fn evidence_count(r: McpRuntimeExecutionResult) -> nat {
    (if r.request_evidence_written { 1nat } else { 0nat }) + (if r.result_evidence_written { 1nat } else { 0nat }) + (
    if r.recovery_evidence_written { 1nat } else { 0nat })
}

/// How many evidence records a tool call wrote.
pub fn evidence_written_count(result: &McpRuntimeExecutionResult) -> (r: usize)
    ensures
        r == evidence_count(*result),
{
    let a: usize = if result.request_evidence_written { 1 } else { 0 };
    let b: usize = if result.result_evidence_written { 1 } else { 0 };
    let c: usize = if result.recovery_evidence_written { 1 } else { 0 };
    a + b + c
}

/// The body of a result: its trimmed text when not blank, else its summary.
pub open spec fn result_body(r: McpRuntimeExecutionResult) -> Seq<char> {
    match r.result_text {
        Some(t) => if trim(t@).len() > 0 {
            trim(t@)
        } else {
            r.result_summary@
        },
        None => r.result_summary@,
    }
}

fn body_of(r: &McpRuntimeExecutionResult) -> (b: String)
    ensures
        b@ == result_body(*r),
{
    match &r.result_text {
        Some(t) => {
            let trimmed = trim_str(t.as_str());
            if trimmed.is_empty() {
                r.result_summary.clone()
            } else {
                owned(trimmed)
            }
        },
        None => r.result_summary.clone(),
    }
}

/// The paged output a result body points at: when the body is JSON marked
/// truncated whose reader tool is `mcp_output_show`, that tool and the
/// output reference (`output_ref`, else `ref`).
pub open spec fn paged_reader_view(body: Seq<char>) -> Option<(Seq<char>, Seq<char>)> {
    match parsed_json(body) {
        Some(v) => paged_reader_value_view(v),
        None => None,
    }
}

/// The paged output a parsed result body points at (see `paged_reader_view`).
pub open spec fn paged_reader_value_view(v: Json) -> Option<(Seq<char>, Seq<char>)> {
    if field(v, "truncated"@) != Some(Json::Bool(true)) {
        None
    } else {
        match text_field(v, "reader_tool"@) {
            Some(tool) => if tool != "mcp_output_show"@ {
                None
            } else {
                let r = match field(v, "output_ref"@) {
                    Some(x) => as_text(x),
                    None => text_field(v, "ref"@),
                };
                match r {
                    Some(output_ref) => Some((tool, output_ref)),
                    None => None,
                }
            },
            None => None,
        }
    }
}

/// The paged output a result body points at.
pub fn paged_mcp_output_reader(body: &str) -> (r: Option<(String, String)>)
    ensures
        crate::provider_dispatch::pair_view(r) == paged_reader_view(body@),
{
    match parse_json(body) {
        Some(v) => paged_output_reader_in_value(&v),
        None => None,
    }
}

/// The paged output a parsed result body points at.
pub fn paged_output_reader_in_value(v: &JsonValue) -> (r: Option<(String, String)>)
    ensures
        crate::provider_dispatch::pair_view(r) == paged_reader_value_view(v@),
{
    let truncated = match crate::json::get(v, "truncated") {
        Some(t) => match crate::json::get_bool(t) {
            Some(b) => b,
            None => false,
        },
        None => false,
    };
    if !truncated {
        return None;
    }
    let tool = match crate::json::text_of(v, "reader_tool") {
        Some(t) => t,
        None => {
            return None;
        },
    };
    if !str_eq(tool.as_str(), "mcp_output_show") {
        return None;
    }
    let output_ref = match crate::json::get(v, "output_ref") {
        Some(x) => match crate::json::get_text(x) {
            Some(s) => Some(s.clone()),
            None => None,
        },
        None => crate::json::text_of(v, "ref"),
    };
    match output_ref {
        Some(r) => Some((tool, r)),
        None => None,
    }
}

/// The advice given with a paged result: how to read the full output.
pub open spec fn advisory_view(reader_tool: Seq<char>, output_ref: Seq<char>) -> Seq<char> {
    "The full output is paged as "@ + output_ref
        + ". To read it, emit exactly this JSON tool-call envelope and no surrounding prose: {\"narada_tool_call\":{\"name\":\""@
        + reader_tool + "\",\"arguments\":{\"output_ref\":\""@ + output_ref + "\"}}}"@
}

/// The advice given with a paged result, if the body is one.
pub fn paged_mcp_output_advisory(body: &str) -> (r: Option<String>)
    ensures
        crate::json::opt_str_view(r) == match paged_reader_view(body@) {
            Some((tool, output_ref)) => Some(advisory_view(tool, output_ref)),
            None => None,
        },
{
    let (tool, output_ref) = match paged_mcp_output_reader(body) {
        Some(p) => p,
        None => {
            return None;
        },
    };
    let a = concat("The full output is paged as ", output_ref.as_str());
    let b = concat(
        a.as_str(),
        ". To read it, emit exactly this JSON tool-call envelope and no surrounding prose: {\"narada_tool_call\":{\"name\":\"",
    );
    let c = concat(b.as_str(), tool.as_str());
    let d = concat(c.as_str(), "\",\"arguments\":{\"output_ref\":\"");
    let e = concat(d.as_str(), output_ref.as_str());
    let f = concat(e.as_str(), "\"}}}");
    Some(f)
}

/// The follow-up text a tool result gives the provider.
pub open spec fn follow_up_view(r: McpRuntimeExecutionResult, auto: Option<McpRuntimeExecutionResult>) -> Seq<char> {
    let head = "Tool result for "@ + r.tool_name@ + " from "@ + r.server_name@ + ": "@ + r.status@ + ".\n"@
        + result_body(r);
    match auto {
        Some(reader) => head + "\nAuto-read paged output via "@ + reader.tool_name@ + " from "@ + reader.server_name@
            + ": "@ + reader.status@ + ".\n"@ + result_body(reader),
        None => match paged_reader_view(result_body(r)) {
            Some((tool, output_ref)) => head + seq!['\n'] + advisory_view(tool, output_ref),
            None => head,
        },
    }
}

/// The first part of every follow-up: which tool answered, from which
/// server, with what status, then the result body.
pub open spec fn follow_up_head(r: McpRuntimeExecutionResult) -> Seq<char> {
    "Tool result for "@ + r.tool_name@ + " from "@ + r.server_name@ + ": "@ + r.status@ + ".\n"@ + result_body(r)
}

/// Without an auto-read, a result whose body is a truncated page for the
/// `mcp_output_show` reader ends, after the head and a newline, with the
/// instruction naming that reader and output reference; any other result
/// is the head alone. With an auto-read, the follow-up starts with the same
/// head and goes on with the reader's answer instead of the instruction.
pub proof fn lemma_follow_up_tells_how_to_read_paged_output(
    r: McpRuntimeExecutionResult,
    reader: McpRuntimeExecutionResult,
)
    ensures
        paged_reader_view(result_body(r)) matches Some((tool, output_ref)) ==> follow_up_view(r, None)
            == follow_up_head(r) + "\nThe full output is paged as "@ + output_ref
            + ". To read it, emit exactly this JSON tool-call envelope and no surrounding prose: {\"narada_tool_call\":{\"name\":\""@
            + tool + "\",\"arguments\":{\"output_ref\":\""@ + output_ref + "\"}}}"@,
        paged_reader_view(result_body(r)) is None ==> follow_up_view(r, None) == follow_up_head(r),
        follow_up_head(r).is_prefix_of(follow_up_view(r, Some(reader))),
        follow_up_view(r, Some(reader)) == follow_up_head(r) + "\nAuto-read paged output via "@ + reader.tool_name@
            + " from "@ + reader.server_name@ + ": "@ + reader.status@ + ".\n"@ + result_body(reader),
{
    reveal_strlit("\n");
    reveal_strlit("\nThe full output is paged as ");
    reveal_strlit("The full output is paged as ");
    let head = follow_up_head(r);
    match paged_reader_view(result_body(r)) {
        Some((tool, output_ref)) => {
            assert(seq!['\n'] + "The full output is paged as "@ =~= "\nThe full output is paged as "@);
            assert(follow_up_view(r, None) =~= head + "\nThe full output is paged as "@ + output_ref
                + ". To read it, emit exactly this JSON tool-call envelope and no surrounding prose: {\"narada_tool_call\":{\"name\":\""@
                + tool + "\",\"arguments\":{\"output_ref\":\""@ + output_ref + "\"}}}"@);
        },
        None => {},
    }
    let tail = "\nAuto-read paged output via "@ + reader.tool_name@ + " from "@ + reader.server_name@ + ": "@
        + reader.status@ + ".\n"@ + result_body(reader);
    assert(follow_up_view(r, Some(reader)) =~= head + tail);
    assert(head.is_prefix_of(head + tail)) by {
        assert((head + tail).subrange(0, head.len() as int) =~= head);
    }
}

fn head_text(r: &McpRuntimeExecutionResult) -> (s: String)
    ensures
        s@ == "Tool result for "@ + r.tool_name@ + " from "@ + r.server_name@ + ": "@ + r.status@ + ".\n"@
            + result_body(*r),
{
    let a = concat("Tool result for ", r.tool_name.as_str());
    let b = concat(a.as_str(), " from ");
    let c = concat(b.as_str(), r.server_name.as_str());
    let d = concat(c.as_str(), ": ");
    let e = concat(d.as_str(), r.status.as_str());
    let f = concat(e.as_str(), ".\n");
    concat(f.as_str(), body_of(r).as_str())
}

/// The follow-up text a tool result gives the provider.
pub fn format_tool_follow_up(result: &McpRuntimeExecutionResult, auto_reader_result: Option<&McpRuntimeExecutionResult>) -> (r:
    String)
    ensures
        r@ == follow_up_view(
            *result,
            match auto_reader_result {
                Some(a) => Some(*a),
                None => None,
            },
        ),
{
    let head = head_text(result);
    match auto_reader_result {
        Some(reader) => {
            let a = concat(head.as_str(), "\nAuto-read paged output via ");
            let b = concat(a.as_str(), reader.tool_name.as_str());
            let c = concat(b.as_str(), " from ");
            let d = concat(c.as_str(), reader.server_name.as_str());
            let e = concat(d.as_str(), ": ");
            let f = concat(e.as_str(), reader.status.as_str());
            let g = concat(f.as_str(), ".\n");
            concat(g.as_str(), body_of(reader).as_str())
        },
        None => {
            let body = body_of(result);
            match paged_mcp_output_advisory(body.as_str()) {
                Some(advisory) => {
                    proof {
                        reveal_strlit("\n");
                    }
                    let a = concat(head.as_str(), "\n");
                    let r = concat(a.as_str(), advisory.as_str());
                    assert(r@ =~= head@ + seq!['\n'] + advisory@);
                    r
                },
                None => head,
            }
        },
    }
}

/// What a tool call gives back to the turn.
pub fn provider_tool_follow_up(mcp_result: &McpRuntimeExecutionResult, auto_reader_result: Option<&McpRuntimeExecutionResult>) -> (r:
    ProviderToolCallExecution)
    ensures
        r.evidence_written == evidence_count(*mcp_result) + match auto_reader_result {
            Some(a) => evidence_count(*a),
            None => 0,
        },
        crate::json::opt_str_view(r.follow_up_text) == Some(
            follow_up_view(
                *mcp_result,
                match auto_reader_result {
                    Some(a) => Some(*a),
                    None => None,
                },
            ),
        ),
{
    let extra: usize = match auto_reader_result {
        Some(a) => evidence_written_count(a),
        None => 0,
    };
    ProviderToolCallExecution {
        evidence_written: evidence_written_count(mcp_result) + extra,
        follow_up_text: Some(format_tool_follow_up(mcp_result, auto_reader_result)),
    }
}

/// The tools a requested tool may stand for at a boundary that does not
/// admit it: the startup sequence and payload reader aliases.
pub open spec fn alias_candidates(tool: Seq<char>) -> Seq<Seq<char>> {
    if tool == "startup_sequence"@ || tool == "agent_context_startup_sequence"@ {
        seq!["agent_context_startup_sequence"@, "startup_sequence"@]
    } else if tool == "mcp_payload_read"@ || tool == "mcp_payload_show"@ {
        seq!["mcp_payload_show"@, "mcp_payload_read"@]
    } else {
        seq![]
    }
}

/// The first candidate a boundary admits.
pub open spec fn first_admitted(b: McpFabricBoundary, candidates: Seq<Seq<char>>) -> Option<Seq<char>>
    decreases candidates.len(),
{
    if candidates.len() == 0 {
        None
    } else if b.admits(candidates[0]) {
        Some(candidates[0])
    } else {
        first_admitted(b, candidates.drop_first())
    }
}

/// The tool name a request resolves to at a boundary: its own when
/// admitted, else the first admitted alias, else its own.
pub open spec fn resolved_tool(b: McpFabricBoundary, tool: Seq<char>) -> Seq<char> {
    if b.admits(tool) {
        tool
    } else {
        match first_admitted(b, alias_candidates(tool)) {
            Some(alias) => alias,
            None => tool,
        }
    }
}

/// Resolves a requested tool to one the boundary admits, keeping the rest
/// of the request.
pub fn resolve_provider_tool_alias(request: McpToolRequest, boundary: &McpFabricBoundary) -> (r: McpToolRequest)
    ensures
        r.tool_name@ == resolved_tool(*boundary, request.tool_name@),
        r.arguments_summary@ == request.arguments_summary@,
        r.arguments_ref == request.arguments_ref,
        r.requesting_agent_id@ == request.requesting_agent_id@,
{
    if boundary.assert_tool_access(request.tool_name.as_str()).is_ok() {
        return request;
    }
    let t = request.tool_name.as_str();
    let aliases: Vec<String> = if str_eq(t, "startup_sequence") || str_eq(t, "agent_context_startup_sequence") {
        crate::text::string_list(&["agent_context_startup_sequence", "startup_sequence"])
    } else if str_eq(t, "mcp_payload_read") || str_eq(t, "mcp_payload_show") {
        crate::text::string_list(&["mcp_payload_show", "mcp_payload_read"])
    } else {
        Vec::new()
    };
    let ghost cands = alias_candidates(request.tool_name@);
    assert(crate::text::strs(aliases@) =~= cands);
    assert(cands.skip(0) =~= cands);
    let mut i: usize = 0;
    while i < aliases.len()
        invariant
            i <= aliases.len(),
            crate::text::strs(aliases@) == cands,
            cands == alias_candidates(request.tool_name@),
            !boundary.admits(request.tool_name@),
            first_admitted(*boundary, cands) == first_admitted(*boundary, cands.skip(i as int)),
        decreases aliases.len() - i,
    {
        assert(cands.skip(i as int).drop_first() =~= cands.skip(i + 1));
        assert(cands.skip(i as int)[0] == aliases@[i as int]@);
        if boundary.assert_tool_access(aliases[i].as_str()).is_ok() {
            return McpToolRequest {
                tool_name: aliases[i].clone(),
                arguments_summary: request.arguments_summary,
                arguments_ref: request.arguments_ref,
                requesting_agent_id: request.requesting_agent_id,
            };
        }
        i = i + 1;
    }
    assert(cands.skip(i as int) =~= Seq::<Seq<char>>::empty());
    request
}

/// The text under a required payload field, or the error naming it.
pub fn required_string(payload: &JsonValue, field_name: &str) -> (r: Result<String, String>)
    ensures
        match r {
            Ok(s) => text_field(payload@, field_name@) == Some(s@),
            Err(e) => text_field(payload@, field_name@) is None && e@ == "provider_tool_call_missing_field:"@
                + field_name@,
        },
{
    match crate::json::text_of(payload, field_name) {
        Some(s) => Ok(s),
        None => Err(concat("provider_tool_call_missing_field:", field_name)),
    }
}

/// The arguments of a tool call: an empty object for a blank summary, else
/// the summary's JSON; the error quotes the summary and the parse error.
pub open spec fn arguments_view(summary: Seq<char>) -> Result<Json, Seq<char>> {
    if is_blank(summary) {
        Ok(Json::Object(seq![]))
    } else {
        match parsed_json(summary) {
            Some(v) => Ok(v),
            None => Err("provider_tool_call_arguments_not_json:"@ + summary + seq![':'] + json_error_text(summary)),
        }
    }
}

/// The arguments of a tool call.
pub fn parse_arguments(arguments_summary: &str) -> (r: Result<JsonValue, String>)
    ensures
        match r {
            Ok(v) => arguments_view(arguments_summary@) == Ok::<Json, Seq<char>>(v@),
            Err(e) => arguments_view(arguments_summary@) == Err::<Json, Seq<char>>(e@),
        },
{
    if is_blank_str(arguments_summary) {
        let empty: Vec<(String, JsonValue)> = Vec::new();
        proof {
            crate::json::lemma_object_view(empty);
        }
        assert(crate::json::entries_view(empty@) =~= seq![]);
        return Ok(JsonValue::Object(empty));
    }
    match parse_json_or_error(arguments_summary) {
        Ok(v) => Ok(v),
        Err(error) => {
            proof {
                reveal_strlit(":");
            }
            let a = concat("provider_tool_call_arguments_not_json:", arguments_summary);
            let b = concat(a.as_str(), ":");
            let e = concat(b.as_str(), error.as_str());
            assert(e@ =~= "provider_tool_call_arguments_not_json:"@ + arguments_summary@ + seq![':'] + json_error_text(
                arguments_summary@,
            ));
            Err(e)
        },
    }
}

/// The arguments reference a payload carries: absent or null is none.
pub open spec fn arguments_ref_view(payload: Json) -> Option<Json> {
    match field(payload, "arguments_ref"@) {
        Some(Json::Null) => None,
        Some(v) => Some(v),
        None => None,
    }
}

/// The sequence a payload carries, 1 when absent.
pub open spec fn sequence_view(payload: Json) -> u64 {
    match field(payload, "sequence"@) {
        Some(x) => match crate::json::as_unsigned(x) {
            Some(n) => n,
            None => 1,
        },
        None => 1,
    }
}

/// The MCP request a provider output stands for: none for text output;
/// for a tool call, the tool, its arguments summary and reference, the
/// requesting agent, the parsed arguments and the sequence.
pub fn provider_output_to_mcp_request(output: &ProviderOutputRecord, requesting_agent_id: &str) -> (r: Result<
    Option<(McpToolRequest, JsonValue, u64)>,
    String,
>)
    ensures
        output.kind == ProviderOutputKind::TextDelta ==> r matches Ok(None),
        output.kind == ProviderOutputKind::ToolCallRequest ==> match r {
            Ok(Some((request, arguments, sequence))) => {
                &&& text_field(output.payload@, "tool_name"@) == Some(request.tool_name@)
                &&& text_field(output.payload@, "arguments_summary"@) == Some(request.arguments_summary@)
                &&& crate::mcp_json_rpc::opt_json(request.arguments_ref) == arguments_ref_view(output.payload@)
                &&& request.requesting_agent_id@ == requesting_agent_id@
                &&& arguments_view(request.arguments_summary@) == Ok::<Json, Seq<char>>(arguments@)
                &&& sequence == sequence_view(output.payload@)
            },
            Ok(None) => false,
            Err(e) => {
                ||| (text_field(output.payload@, "tool_name"@) is None && e@ == "provider_tool_call_missing_field:"@ + "tool_name"@)
                ||| (text_field(output.payload@, "tool_name"@) is Some && text_field(
                    output.payload@,
                    "arguments_summary"@,
                ) is None && e@ == "provider_tool_call_missing_field:"@
                    + "arguments_summary"@)
                ||| (text_field(output.payload@, "tool_name"@) is Some && text_field(
                    output.payload@,
                    "arguments_summary"@,
                ) is Some && arguments_view(text_field(output.payload@, "arguments_summary"@)->Some_0) == Err::<
                    Json,
                    Seq<char>,
                >(e@))
            },
        },
{
    if output.kind != ProviderOutputKind::ToolCallRequest {
        return Ok(None);
    }
    let tool_name = match required_string(&output.payload, "tool_name") {
        Ok(s) => s,
        Err(e) => {
            return Err(e);
        },
    };
    let arguments_summary = match required_string(&output.payload, "arguments_summary") {
        Ok(s) => s,
        Err(e) => {
            return Err(e);
        },
    };
    let arguments_ref = match crate::json::get(&output.payload, "arguments_ref") {
        Some(JsonValue::Null) => None,
        Some(v) => Some(copy_json(v)),
        None => None,
    };
    let sequence = match crate::json::get(&output.payload, "sequence") {
        Some(x) => match crate::json::get_unsigned(x) {
            Some(n) => n,
            None => 1,
        },
        None => 1,
    };
    let arguments = match parse_arguments(arguments_summary.as_str()) {
        Ok(a) => a,
        Err(e) => {
            return Err(e);
        },
    };
    Ok(
        Some(
            (
                McpToolRequest {
                    tool_name,
                    arguments_summary,
                    arguments_ref,
                    requesting_agent_id: owned(requesting_agent_id),
                },
                arguments,
                sequence,
            ),
        ),
    )
}

} // verus!
