//! Provider dispatch logic the carrier keeps: the canonical status and
//! output kind names, the dispatch request record, session goal handling,
//! direct operator-intent routing, Narada tool-call envelopes in provider
//! text, and the handling of Codex JSON output lines.
use vstd::prelude::*;
use crate::carrier_protocol::{InputEvent, SessionEventKind};
use crate::json::{
    as_text, compact_text, entries_get, entries_view, field, parse_json, parsed_json, text_field,
    to_compact_text, Json, JsonValue,
};
use crate::operator_routing_contract::{
    bundled_direct_routes, bundled_reader_routes, envelope_field, operator_routing_contract,
    DirectRouteView, ReaderRouteView,
};
use crate::text::{find_text, first_index, last_index, non_ws, trim_start};
use crate::text::{
    ascii_lower, concat, is_blank, is_blank_str, join, join_strings, owned, split_words,
    str_eq, strip_trailing, strip_trailing_char, to_ascii_lower, trim, trim_str, words,
};

verus! {

/// How far a provider request got.
#[derive(Debug, Clone, Copy, PartialEq, Eq, Structural)]
pub enum ProviderDispatchStatus {
    RecordedNotDispatched,
    Dispatched,
    Completed,
    Failed,
    Interrupted,
}

impl ProviderDispatchStatus {
    /// The canonical name of a status.
    pub open spec fn name(self) -> Seq<char> {
        match self {
            ProviderDispatchStatus::RecordedNotDispatched => "recorded_not_dispatched"@,
            ProviderDispatchStatus::Dispatched => "dispatched"@,
            ProviderDispatchStatus::Completed => "completed"@,
            ProviderDispatchStatus::Failed => "failed"@,
            ProviderDispatchStatus::Interrupted => "interrupted"@,
        }
    }

    /// The canonical name of the status.
    pub fn as_str(&self) -> (r: String)
        ensures
            r@ == self.name(),
    {
        match self {
            ProviderDispatchStatus::RecordedNotDispatched => owned("recorded_not_dispatched"),
            ProviderDispatchStatus::Dispatched => owned("dispatched"),
            ProviderDispatchStatus::Completed => owned("completed"),
            ProviderDispatchStatus::Failed => owned("failed"),
            ProviderDispatchStatus::Interrupted => owned("interrupted"),
        }
    }
}

/// What a provider output record carries.
#[derive(Debug, Clone, Copy, PartialEq, Eq, Structural)]
pub enum ProviderOutputKind {
    TextDelta,
    ToolCallRequest,
}

impl ProviderOutputKind {
    /// The canonical name of an output kind.
    pub open spec fn name(self) -> Seq<char> {
        match self {
            ProviderOutputKind::TextDelta => "text_delta"@,
            ProviderOutputKind::ToolCallRequest => "tool_call_request"@,
        }
    }

    /// The session event kind that records this output.
    pub fn session_event_kind(&self) -> (r: SessionEventKind)
        ensures
            r == match *self {
                ProviderOutputKind::TextDelta => SessionEventKind::ProviderTextDeltaRecorded,
                ProviderOutputKind::ToolCallRequest => SessionEventKind::ProviderToolCallRequested,
            },
    {
        match self {
            ProviderOutputKind::TextDelta => SessionEventKind::ProviderTextDeltaRecorded,
            ProviderOutputKind::ToolCallRequest => SessionEventKind::ProviderToolCallRequested,
        }
    }

    /// The canonical name of the output kind.
    pub fn as_str(&self) -> (r: String)
        ensures
            r@ == self.name(),
    {
        match self {
            ProviderOutputKind::TextDelta => owned("text_delta"),
            ProviderOutputKind::ToolCallRequest => owned("tool_call_request"),
        }
    }
}

/// The provider runtime settings a request is made with.
#[derive(Debug, Clone, PartialEq, Eq)]
pub struct ProviderRuntimeConfig {
    pub status: String,
    pub provider: Option<String>,
    pub model: Option<String>,
    pub thinking: Option<String>,
    pub goal: Option<String>,
    pub goal_status: String,
    pub stream: bool,
}

/// A provider request: the turn, its input, and the runtime settings.
#[derive(Debug, Clone, PartialEq, Eq)]
pub struct ProviderAdapterRequest {
    pub turn_id: String,
    pub input_event_id: String,
    pub content_preview: String,
    pub provider_runtime_status: String,
    pub provider: Option<String>,
    pub model: Option<String>,
    pub thinking: Option<String>,
    pub goal: Option<String>,
    pub goal_status: String,
    pub stream: bool,
}

pub open spec fn opt_view(o: Option<String>) -> Option<Seq<char>> {
    crate::json::opt_str_view(o)
}

fn copy_opt(o: &Option<String>) -> (r: Option<String>)
    ensures
        opt_view(r) == opt_view(*o),
{
    match o {
        Some(s) => Some(s.clone()),
        None => None,
    }
}

impl ProviderAdapterRequest {
    /// The request for an input in a turn under the given runtime settings.
    pub fn from_input(input: &InputEvent, turn_id: &str, runtime_config: &ProviderRuntimeConfig) -> (r: Self)
        ensures
            r.turn_id@ == turn_id@,
            r.input_event_id@ == input.event_id@,
            r.content_preview@ == input.content@,
            r.provider_runtime_status@ == runtime_config.status@,
            opt_view(r.provider) == opt_view(runtime_config.provider),
            opt_view(r.model) == opt_view(runtime_config.model),
            opt_view(r.thinking) == opt_view(runtime_config.thinking),
            opt_view(r.goal) == opt_view(runtime_config.goal),
            r.goal_status@ == runtime_config.goal_status@,
            r.stream == runtime_config.stream,
    {
        ProviderAdapterRequest {
            turn_id: owned(turn_id),
            input_event_id: input.event_id.clone(),
            content_preview: input.content.clone(),
            provider_runtime_status: runtime_config.status.clone(),
            provider: copy_opt(&runtime_config.provider),
            model: copy_opt(&runtime_config.model),
            thinking: copy_opt(&runtime_config.thinking),
            goal: copy_opt(&runtime_config.goal),
            goal_status: runtime_config.goal_status.clone(),
            stream: runtime_config.stream,
        }
    }
}

/// The goal status a session goal is recorded with: `unset` without a goal;
/// `paused` when asked for; otherwise `active`.
pub open spec fn goal_status_for(goal: Option<Seq<char>>, status: Seq<char>) -> Seq<char> {
    if goal is Some {
        if status == "paused"@ {
            "paused"@
        } else {
            "active"@
        }
    } else {
        "unset"@
    }
}

/// The goal kept from a requested goal: blank goals are dropped.
pub open spec fn kept_goal(goal: Option<Seq<char>>) -> Option<Seq<char>> {
    match goal {
        Some(g) => if is_blank(g) {
            None
        } else {
            Some(g)
        },
        None => None,
    }
}

/// Sets the session goal of the runtime settings.
pub fn set_runtime_session_goal(runtime_config: &mut ProviderRuntimeConfig, goal: Option<String>, status: String)
    ensures
        opt_view(final(runtime_config).goal) == kept_goal(opt_view(goal)),
        final(runtime_config).goal_status@ == goal_status_for(kept_goal(opt_view(goal)), status@),
        final(runtime_config).status@ == old(runtime_config).status@,
        opt_view(final(runtime_config).provider) == opt_view(old(runtime_config).provider),
        opt_view(final(runtime_config).model) == opt_view(old(runtime_config).model),
        opt_view(final(runtime_config).thinking) == opt_view(old(runtime_config).thinking),
        final(runtime_config).stream == old(runtime_config).stream,
{
    runtime_config.goal = match goal {
        Some(g) => if is_blank_str(g.as_str()) {
            None
        } else {
            Some(g)
        },
        None => None,
    };
    runtime_config.goal_status = if runtime_config.goal.is_some() {
        if str_eq(status.as_str(), "paused") {
            owned("paused")
        } else {
            owned("active")
        }
    } else {
        owned("unset")
    };
}

/// How provider output reaches the carrier for an execution and streaming setting.
pub open spec fn streaming_contract_name(enabled: bool, stream: bool) -> Seq<char> {
    if enabled && stream {
        "streaming_text_delta_events"@
    } else if enabled {
        "single_provider_output_batch"@
    } else if stream {
        "requested_but_not_dispatched"@
    } else {
        "not_requested"@
    }
}

/// How provider output reaches the carrier.
pub fn provider_streaming_contract(provider_execution_enabled: bool, stream: bool) -> (r: String)
    ensures
        r@ == streaming_contract_name(provider_execution_enabled, stream),
{
    match (provider_execution_enabled, stream) {
        (true, true) => owned("streaming_text_delta_events"),
        (true, false) => owned("single_provider_output_batch"),
        (false, true) => owned("requested_but_not_dispatched"),
        (false, false) => owned("not_requested"),
    }
}

/// The Codex reasoning effort for a thinking level: none for `none`, the
/// level for `low` and `high`, and `medium` otherwise or when unset.
pub open spec fn effort_for(thinking: Option<Seq<char>>) -> Option<Seq<char>> {
    let t = match thinking {
        Some(t) => t,
        None => "medium"@,
    };
    if t == "none"@ {
        None
    } else if t == "low"@ {
        Some("low"@)
    } else if t == "high"@ {
        Some("high"@)
    } else {
        Some("medium"@)
    }
}

/// The Codex reasoning effort for a thinking level.
pub fn reasoning_effort(thinking: Option<&str>) -> (r: Option<String>)
    ensures
        opt_view(r) == effort_for(
            match thinking {
                Some(t) => Some(t@),
                None => None,
            },
        ),
{
    let t = match thinking {
        Some(t) => t,
        None => "medium",
    };
    if str_eq(t, "none") {
        None
    } else if str_eq(t, "low") {
        Some(owned("low"))
    } else if str_eq(t, "high") {
        Some(owned("high"))
    } else {
        Some(owned("medium"))
    }
}

/// The prompt for a request: the content, preceded by the session goal
/// while a non-blank goal is active.
pub open spec fn prompt_view(content: Seq<char>, goal: Option<Seq<char>>, goal_status: Seq<char>) -> Seq<char> {
    match goal {
        Some(g) => if trim(g).len() > 0 && goal_status == "active"@ {
            "Active carrier session goal: "@ + trim(g)
                + "\nUse this as the persistent task target and completion criterion while it remains active.\n\n"@
                + content
        } else {
            content
        },
        None => content,
    }
}

/// The prompt sent to the provider for a request.
pub fn prompt_with_carrier_goal(request: &ProviderAdapterRequest) -> (r: String)
    ensures
        r@ == prompt_view(request.content_preview@, opt_view(request.goal), request.goal_status@),
{
    let goal = match &request.goal {
        Some(g) => trim_str(g.as_str()),
        None => {
            return request.content_preview.clone();
        },
    };
    if goal.is_empty() || !str_eq(request.goal_status.as_str(), "active") {
        return request.content_preview.clone();
    }
    let a = concat("Active carrier session goal: ", goal);
    let b = concat(
        a.as_str(),
        "\nUse this as the persistent task target and completion criterion while it remains active.\n\n",
    );
    concat(b.as_str(), request.content_preview.as_str())
}

/// An operator phrase as routes compare it: trimmed, without trailing
/// periods, whitespace collapsed, lower-cased.
pub open spec fn phrase_form(content: Seq<char>) -> Seq<char> {
    ascii_lower(join(words(strip_trailing(trim(content), '.')), seq![' ']))
}

/// An operator phrase as routes compare it.
pub fn normalized_operator_phrase(content: &str) -> (r: String)
    ensures
        r@ == phrase_form(content@),
{
    let stripped = strip_trailing_char(trim_str(content), '.');
    let parts = split_words(stripped.as_str());
    let joined = join_strings(&parts, " ");
    proof {
        reveal_strlit(" ");
    }
    assert(seq![' '] =~= " "@);
    to_ascii_lower(joined.as_str())
}

/// A character an output reference id may hold.
pub open spec fn ref_char(c: char) -> bool {
    ('a' <= c && c <= 'z') || ('A' <= c && c <= 'Z') || ('0' <= c && c <= '9') || c == '_' || c == '-'
}

/// The length of the run of reference characters at the front.
pub open spec fn ref_run(s: Seq<char>) -> nat
    decreases s.len(),
{
    if s.len() > 0 && ref_char(s[0]) {
        1 + ref_run(s.drop_first())
    } else {
        0
    }
}

/// The output reference with a prefix that the text names first, with its
/// id: `None` when the prefix is absent or no id follows it.
pub open spec fn ref_with_prefix(content: Seq<char>, prefix: Seq<char>) -> Option<Seq<char>> {
    match crate::text::find_text(content, prefix) {
        Some(start) => {
            let after = content.skip(start + prefix.len());
            let id = after.take(ref_run(after) as int);
            if id.len() > 0 {
                Some(prefix + id)
            } else {
                None
            }
        },
        None => None,
    }
}

proof fn lemma_ref_run(s: Seq<char>, i: int)
    requires
        0 <= i <= s.len(),
        forall|k: int| 0 <= k < i ==> ref_char(#[trigger] s[k]),
        i == s.len() || !ref_char(s[i]),
    ensures
        ref_run(s) == i,
    decreases i,
{
    if i > 0 {
        lemma_ref_run(s.drop_first(), i - 1);
    }
}

/// The output reference with a prefix that the text names first.
pub fn extract_ref_with_prefix(content: &str, prefix: &str) -> (r: Option<String>)
    ensures
        opt_view(r) == ref_with_prefix(content@, prefix@),
{
    let cs = crate::text::chars_of(content);
    let ps = crate::text::chars_of(prefix);
    let start = match crate::text::find_text_in(&cs, &ps) {
        Some(s) => s,
        None => {
            return None;
        },
    };
    let from = start + ps.len();
    let mut end = from;
    while end < cs.len() && (('a' <= cs[end] && cs[end] <= 'z') || ('A' <= cs[end] && cs[end] <= 'Z') || ('0'
        <= cs[end] && cs[end] <= '9') || cs[end] == '_' || cs[end] == '-')
        invariant
            from <= end <= cs.len(),
            cs@ == content@,
            forall|k: int| from <= k < end ==> ref_char(#[trigger] cs@[k]),
        decreases cs.len() - end,
    {
        end = end + 1;
    }
    let ghost after = content@.skip(from as int);
    proof {
        assert forall|k: int| 0 <= k < end - from implies ref_char(#[trigger] after[k]) by {
            assert(after[k] == cs@[from + k]);
        }
        if end < cs.len() {
            assert(after[end - from] == cs@[end as int]);
        }
        lemma_ref_run(after, end - from);
    }
    if end == from {
        return None;
    }
    let id = crate::text::substring(&cs, from, end);
    assert(id@ =~= after.take(ref_run(after) as int));
    Some(concat(prefix, id.as_str()))
}

/// The text between any code fence around a provider reply.
pub open spec fn unfenced(trimmed: Seq<char>) -> Seq<char> {
    let p = if "```json"@.is_prefix_of(trimmed) {
        trimmed.skip(7)
    } else if "```"@.is_prefix_of(trimmed) {
        trimmed.skip(3)
    } else {
        trimmed
    };
    let p2 = trim(p);
    let s = if 3 <= p2.len() && p2.skip(p2.len() - 3) == "```"@ {
        p2.take(p2.len() - 3)
    } else {
        p2
    };
    trim(s)
}

/// Where the candidate JSON starts: the first `{`, or the start.
pub open spec fn candidate_start(s: Seq<char>) -> int {
    match first_index(s, '{') {
        Some(i) => i,
        None => 0,
    }
}

/// Where the candidate JSON ends: after the last `}`, or the end.
pub open spec fn candidate_end(s: Seq<char>) -> int {
    match last_index(s, '}') {
        Some(i) => i + 1,
        None => s.len() as int,
    }
}

/// The text a tool-call envelope is read from (fences are admitted by the
/// bundled contract).
pub open spec fn envelope_text(content: Seq<char>) -> Seq<char> {
    unfenced(trim(content))
}

/// Replies in which no `}` follows the first `{` but some `}` precedes it
/// by more than one character are not read: the candidate range would run
/// backwards.
pub open spec fn tool_call_readable(content: Seq<char>) -> bool {
    candidate_start(envelope_text(content)) <= candidate_end(envelope_text(content))
}

/// The Narada tool call a reply carries: the named tool and its compact
/// arguments (an empty object when absent).
pub open spec fn tool_call_view(content: Seq<char>) -> Option<(Seq<char>, Seq<char>)> {
    match parsed_json(tool_call_candidate(content)) {
        Some(parsed) => envelope_call_view(parsed),
        None => None,
    }
}

/// The trimmed text between the first `{` and the last `}` of a reply.
pub open spec fn tool_call_candidate(content: Seq<char>) -> Seq<char> {
    let s = envelope_text(content);
    trim(s.subrange(candidate_start(s), candidate_end(s)))
}

/// The tool call an envelope value names: the tool and its compact
/// arguments (an empty object when absent).
pub open spec fn envelope_call_view(parsed: Json) -> Option<(Seq<char>, Seq<char>)> {
    match field(parsed, envelope_field()) {
        Some(call) => match text_field(call, "name"@) {
            Some(name) => Some(
                (
                    name,
                    compact_text(
                        match field(call, "arguments"@) {
                            Some(a) => a,
                            None => Json::Object(seq![]),
                        },
                    ),
                ),
            ),
            None => None,
        },
        None => None,
    }
}

pub open spec fn pair_view(r: Option<(String, String)>) -> Option<(Seq<char>, Seq<char>)> {
    match r {
        Some((a, b)) => Some((a@, b@)),
        None => None,
    }
}

fn unfence(trimmed: &str) -> (r: String)
    ensures
        r@ == unfenced(trimmed@),
{
    proof {
        reveal_strlit("```json");
        reveal_strlit("```");
    }
    let p: String = match crate::text::strip_prefix(trimmed, "```json") {
        Some(rest) => rest,
        None => match crate::text::strip_prefix(trimmed, "```") {
            Some(rest) => rest,
            None => owned(trimmed),
        },
    };
    let p2 = trim_str(p.as_str());
    let s: String = if crate::text::ends_with(p2, "```") {
        let cs = crate::text::chars_of(p2);
        crate::text::substring(&cs, 0, cs.len() - 3)
    } else {
        owned(p2)
    };
    owned(trim_str(s.as_str()))
}

/// The Narada tool call a provider reply carries, if any.
pub fn parse_narada_tool_call(content: &str) -> (r: Option<(String, String)>)
    requires
        tool_call_readable(content@),
    ensures
        pair_view(r) == tool_call_view(content@),
{
    let contract = operator_routing_contract();
    let trimmed = trim_str(content);
    let without_fence: String = if contract.tool_call_envelope.fenced_json_admitted {
        unfence(trimmed)
    } else {
        owned(trimmed)
    };
    let cs = crate::text::chars_of(without_fence.as_str());
    let start = match crate::text::find_char(&cs, '{') {
        Some(i) => i,
        None => 0,
    };
    let end = match crate::text::rfind_char(&cs, '}') {
        Some(i) => i + 1,
        None => cs.len(),
    };
    let slice = crate::text::substring(&cs, start, end);
    let candidate = trim_str(slice.as_str());
    match parse_json(candidate) {
        Some(parsed) => narada_tool_call_in_value(&parsed),
        None => None,
    }
}

/// Whether a reply can be read for a tool call (see `tool_call_readable`).
pub fn is_tool_call_readable(content: &str) -> (r: bool)
    ensures
        r == tool_call_readable(content@),
{
    let trimmed = trim_str(content);
    let without_fence = unfence(trimmed);
    let cs = crate::text::chars_of(without_fence.as_str());
    let start: usize = match crate::text::find_char(&cs, '{') {
        Some(i) => i,
        None => 0,
    };
    match crate::text::rfind_char(&cs, '}') {
        Some(i) => start <= i + 1,
        None => true,
    }
}

/// The tool call a parsed envelope names, if any.
pub fn narada_tool_call_in_value(parsed: &JsonValue) -> (r: Option<(String, String)>)
    ensures
        pair_view(r) == envelope_call_view(parsed@),
{
    let contract = operator_routing_contract();
    let call = match crate::json::get(parsed, contract.tool_call_envelope.field.as_str()) {
        Some(c) => c,
        None => {
            return None;
        },
    };
    let name = match crate::json::text_of(call, "name") {
        Some(n) => n,
        None => {
            return None;
        },
    };
    let arguments = match crate::json::get(call, "arguments") {
        Some(a) => to_compact_text(a),
        None => {
            let empty: Vec<(String, JsonValue)> = Vec::new();
            proof {
                crate::json::lemma_object_view(empty);
            }
            assert(entries_view(empty@) =~= seq![]);
            to_compact_text(&JsonValue::Object(empty))
        },
    };
    Some((name, arguments))
}

/// Whether a reply so far may be the start of a tool-call envelope, in
/// which case it is not streamed as text.
pub open spec fn potential_tool_call(content: Seq<char>) -> bool {
    let text = trim_start(content);
    let compact = non_ws(text).take(if non_ws(text).len() < 48 { non_ws(text).len() as int } else { 48 });
    let envelope = "{\""@ + envelope_field() + "\""@;
    if text.len() == 0 {
        false
    } else if "```"@.is_prefix_of(text) {
        "```json"@.is_prefix_of(ascii_lower(text)) || "```{"@.is_prefix_of(text)
    } else if !seq!['{'].is_prefix_of(text) {
        false
    } else {
        compact.is_prefix_of(envelope) || envelope.is_prefix_of(compact)
    }
}

fn non_ws_prefix(s: &str, limit: usize) -> (r: String)
    ensures
        r@ == non_ws(s@).take(if non_ws(s@).len() < limit { non_ws(s@).len() as int } else { limit as int }),
{
    let cs = crate::text::chars_of(s);
    let mut out: Vec<char> = Vec::new();
    let mut i: usize = 0;
    assert(cs@.skip(0) =~= cs@);
    while i < cs.len() && out.len() < limit
        invariant
            i <= cs.len(),
            cs@ == s@,
            out.len() <= limit,
            out@ + non_ws(cs@.skip(i as int)) == non_ws(s@),
        decreases cs.len() - i,
    {
        assert(cs@.skip(i as int).drop_first() =~= cs@.skip(i + 1));
        assert(cs@.skip(i as int)[0] == cs@[i as int]);
        let c = cs[i];
        if !crate::text::char_is_ws(c) {
            let ghost before = out@;
            out.push(c);
            assert(before + non_ws(cs@.skip(i as int)) =~= out@ + non_ws(cs@.skip(i + 1)));
        }
        i = i + 1;
    }
    proof {
        if i == cs.len() {
            assert(cs@.skip(i as int) =~= Seq::<char>::empty());
            assert(out@ + Seq::<char>::empty() =~= out@);
        }
        assert(out@ =~= non_ws(s@).take(out@.len() as int));
    }
    crate::text::string_of(out.as_slice())
}

/// Whether a reply so far may be the start of a tool-call envelope.
pub fn is_potential_narada_tool_call_text(content: &str) -> (r: bool)
    ensures
        r == potential_tool_call(content@),
{
    let text = crate::text::trim_start_str(content);
    if text.is_empty() {
        return false;
    }
    proof {
        reveal_strlit("```");
        reveal_strlit("```json");
        reveal_strlit("```{");
        reveal_strlit("{");
        reveal_strlit("{\"");
        reveal_strlit("\"");
    }
    let contract = operator_routing_contract();
    if crate::text::starts_with(text, "```") {
        let lower = to_ascii_lower(text);
        return contract.tool_call_envelope.fenced_json_admitted && (crate::text::starts_with(
            lower.as_str(),
            "```json",
        ) || crate::text::starts_with(text, "```{"));
    }
    assert("{"@ =~= seq!['{']);
    if !crate::text::starts_with(text, "{") {
        return false;
    }
    let compact_prefix = non_ws_prefix(text, 48);
    let a = concat("{\"", contract.tool_call_envelope.field.as_str());
    let envelope_prefix = concat(a.as_str(), "\"");
    crate::text::starts_with(envelope_prefix.as_str(), compact_prefix.as_str()) || crate::text::starts_with(
        compact_prefix.as_str(),
        envelope_prefix.as_str(),
    )
}

/// The first non-empty text among the members `keys` of a value.
pub open spec fn first_nonempty_text(v: Json, keys: Seq<Seq<char>>) -> Option<Seq<char>>
    decreases keys.len(),
{
    if keys.len() == 0 {
        None
    } else {
        match text_field(v, keys[0]) {
            Some(s) => if s.len() > 0 {
                Some(s)
            } else {
                first_nonempty_text(v, keys.drop_first())
            },
            None => first_nonempty_text(v, keys.drop_first()),
        }
    }
}

/// The streamed text a Codex event carries: for `delta` and `stream` event
/// types, the first non-empty `delta`, `text_delta` or `text` of the event,
/// else of its item.
pub open spec fn streaming_delta_view(event: Json) -> Option<Seq<char>> {
    let t = match text_field(event, "type"@) {
        Some(t) => t,
        None => seq![],
    };
    let keys = seq!["delta"@, "text_delta"@, "text"@];
    if find_text(t, "delta"@) is None && find_text(t, "stream"@) is None {
        None
    } else {
        match first_nonempty_text(event, keys) {
            Some(s) => Some(s),
            None => match field(event, "item"@) {
                Some(item) => first_nonempty_text(item, keys),
                None => None,
            },
        }
    }
}

fn first_nonempty_text_of(v: &JsonValue) -> (r: Option<String>)
    ensures
        opt_view(r) == first_nonempty_text(v@, seq!["delta"@, "text_delta"@, "text"@]),
{
    let ghost keys = seq!["delta"@, "text_delta"@, "text"@];
    proof {
        reveal_with_fuel(first_nonempty_text, 4);
        assert(keys.drop_first() =~= seq!["text_delta"@, "text"@]);
        assert(keys.drop_first().drop_first() =~= seq!["text"@]);
        assert(keys.drop_first().drop_first().drop_first() =~= Seq::<Seq<char>>::empty());
    }
    if let Some(s) = crate::json::text_of(v, "delta") {
        if !s.as_str().is_empty() {
            return Some(s);
        }
    }
    if let Some(s) = crate::json::text_of(v, "text_delta") {
        if !s.as_str().is_empty() {
            return Some(s);
        }
    }
    if let Some(s) = crate::json::text_of(v, "text") {
        if !s.as_str().is_empty() {
            return Some(s);
        }
    }
    None
}

/// The streamed text a Codex event carries, if any.
pub fn codex_streaming_text_delta(event: &JsonValue) -> (r: Option<String>)
    ensures
        opt_view(r) == streaming_delta_view(event@),
{
    let t: String = match crate::json::text_of(event, "type") {
        Some(t) => t,
        None => String::new(),
    };
    if !crate::text::contains_str(t.as_str(), "delta") && !crate::text::contains_str(t.as_str(), "stream") {
        return None;
    }
    match first_nonempty_text_of(event) {
        Some(s) => Some(s),
        None => match crate::json::get(event, "item") {
            Some(item) => first_nonempty_text_of(item),
            None => None,
        },
    }
}

/// What one Codex stdout line does to the reply gathered so far: the new
/// reply, and the text to stream, if any.
pub open spec fn codex_line_view(line: Seq<char>, content: Seq<char>, streamed_any: bool) -> (Seq<char>, Option<Seq<char>>) {
    match parsed_json(line) {
        None => (content, None),
        Some(event) => codex_event_view(event, content, streamed_any),
    }
}

/// What one parsed Codex event does to the reply gathered so far: a
/// streamed delta is appended and streamed; a completed agent message is
/// appended when nothing was streamed before, and streamed unless the reply
/// may be a tool-call envelope.
pub open spec fn codex_event_view(event: Json, content: Seq<char>, streamed_any: bool) -> (Seq<char>, Option<Seq<char>>) {
    match streaming_delta_view(event) {
        Some(d) => (content + d, Some(d)),
        None => if text_field(event, "type"@) != Some("item.completed"@) {
            (content, None)
        } else {
            match field(event, "item"@) {
                Some(item) => if text_field(item, "type"@) == Some("agent_message"@) && text_field(
                    item,
                    "text"@,
                ) is Some && !streamed_any {
                    let c = content + text_field(item, "text"@)->Some_0;
                    (c, if potential_tool_call(c) { None } else { text_field(item, "text"@) })
                } else {
                    (content, None)
                },
                None => (content, None),
            }
        },
    }
}

/// Handles one Codex stdout line: appends what it adds to the reply and
/// returns the text to stream as a delta, if any.
pub fn process_codex_stdout_line(line: &str, content: &mut String, streamed_any: bool) -> (r: Option<String>)
    ensures
        (final(content)@, opt_view(r)) == codex_line_view(line@, old(content)@, streamed_any),
{
    match parse_json(line) {
        Some(event) => process_codex_event(&event, content, streamed_any),
        None => None,
    }
}

/// Handles one parsed Codex event: appends what it adds to the reply and
/// returns the text to stream as a delta, if any.
pub fn process_codex_event(event: &JsonValue, content: &mut String, streamed_any: bool) -> (r: Option<String>)
    ensures
        (final(content)@, opt_view(r)) == codex_event_view(event@, old(content)@, streamed_any),
{
    if let Some(delta) = codex_streaming_text_delta(event) {
        content.append(delta.as_str());
        return Some(delta);
    }
    let completed = match crate::json::text_of(event, "type") {
        Some(t) => str_eq(t.as_str(), "item.completed"),
        None => false,
    };
    if !completed {
        return None;
    }
    let item = match crate::json::get(event, "item") {
        Some(i) => i,
        None => {
            return None;
        },
    };
    let is_message = match crate::json::text_of(item, "type") {
        Some(t) => str_eq(t.as_str(), "agent_message"),
        None => false,
    };
    if !is_message {
        return None;
    }
    match crate::json::text_of(item, "text") {
        Some(text) => {
            if streamed_any {
                return None;
            }
            content.append(text.as_str());
            if !is_potential_narada_tool_call_text(content.as_str()) {
                Some(text)
            } else {
                None
            }
        },
        None => None,
    }
}

/// Whether one of a reader route's phrases occurs in the text, case-insensitively.
pub open spec fn reader_phrase_in(route: ReaderRouteView, content: Seq<char>) -> bool {
    exists|k: int| 0 <= k < route.phrases.len() && find_text(ascii_lower(content), ascii_lower(#[trigger] route.phrases[k])) is Some
}

/// The first reader route a text mentions.
pub open spec fn reader_route_for(routes: Seq<ReaderRouteView>, content: Seq<char>) -> Option<ReaderRouteView>
    decreases routes.len(),
{
    if routes.len() == 0 {
        None
    } else if reader_phrase_in(routes[0], content) {
        Some(routes[0])
    } else {
        reader_route_for(routes.drop_first(), content)
    }
}

/// Whether one of a direct route's phrases is the text, as phrases compare.
pub open spec fn direct_phrase_is(route: DirectRouteView, content: Seq<char>) -> bool {
    exists|k: int| 0 <= k < route.phrases.len() && phrase_form(#[trigger] route.phrases[k]) == phrase_form(content)
}

/// The first direct route whose phrase the text is.
pub open spec fn direct_route_for(routes: Seq<DirectRouteView>, content: Seq<char>) -> Option<DirectRouteView>
    decreases routes.len(),
{
    if routes.len() == 0 {
        None
    } else if direct_phrase_is(routes[0], content) {
        Some(routes[0])
    } else {
        direct_route_for(routes.drop_first(), content)
    }
}

/// Object members with a key set: replaced where it occurs first, else added.
pub open spec fn set_member(es: Seq<(Seq<char>, Json)>, key: Seq<char>, value: Json) -> Seq<(Seq<char>, Json)>
    decreases es.len(),
{
    if es.len() == 0 {
        seq![(key, value)]
    } else if es[0].0 == key {
        seq![(key, value)] + es.drop_first()
    } else {
        seq![es[0]] + set_member(es.drop_first(), key, value)
    }
}

pub open spec fn direct_intent(content: Seq<char>) -> Option<(Seq<char>, Seq<char>)> {
    match direct_route_for(bundled_direct_routes(), content) {
        Some(route) => Some((route.tool_name, compact_text(route.arguments))),
        None => None,
    }
}

/// The tool call an operator's text asks for directly, without the
/// provider: a pasted tool-call envelope; a reader phrase with an output
/// reference; or a direct route phrase.
pub open spec fn intent_view(content: Seq<char>) -> Option<(Seq<char>, Seq<char>)> {
    match tool_call_view(content) {
        Some(c) => Some(c),
        None => match reader_route_for(bundled_reader_routes(), content) {
            Some(route) => match ref_with_prefix(content, route.ref_prefix) {
                Some(r) => match route.arguments {
                    Json::Object(m) => Some((route.tool_name, compact_text(Json::Object(set_member(m, "ref"@, Json::Str(r)))))),
                    _ => None,
                },
                None => direct_intent(content),
            },
            None => direct_intent(content),
        },
    }
}

fn set_member_exec(es: &Vec<(String, JsonValue)>, key: &str, value: JsonValue) -> (r: Vec<(String, JsonValue)>)
    ensures
        entries_view(r@) == set_member(entries_view(es@), key@, value@),
{
    let ghost ev = entries_view(es@);
    let mut out: Vec<(String, JsonValue)> = Vec::new();
    let mut i: usize = 0;
    assert(ev.skip(0) =~= ev);
    while i < es.len()
        invariant
            i <= es.len(),
            ev == entries_view(es@),
            forall|k: int| 0 <= k < i ==> ev[k].0 != key@,
            entries_view(out@) == ev.take(i as int),
            set_member(ev, key@, value@) == ev.take(i as int) + set_member(ev.skip(i as int), key@, value@),
        decreases es.len() - i,
    {
        assert(ev.skip(i as int).drop_first() =~= ev.skip(i + 1));
        assert(ev.skip(i as int)[0] == ev[i as int]);
        if str_eq(es[i].0.as_str(), key) {
            let ghost before = out@;
            out.push((owned(key), value));
            let mut j = i + 1;
            assert(entries_view(out@) =~= ev.take(i as int).push((key@, value@)));
            while j < es.len()
                invariant
                    i < j <= es.len(),
                    ev == entries_view(es@),
                    entries_view(out@) == ev.take(i as int).push((key@, value@)) + ev.subrange(i + 1, j as int),
                decreases es.len() - j,
            {
                let ghost mid = out@;
                let k = es[j].0.clone();
                let c = crate::json::copy_json(&es[j].1);
                out.push((k, c));
                assert(entries_view(out@) =~= entries_view(mid).push(ev[j as int]));
                assert(entries_view(out@) =~= ev.take(i as int).push((key@, value@)) + ev.subrange(i + 1, j + 1));
                j = j + 1;
            }
            assert(set_member(ev.skip(i as int), key@, value@) =~= seq![(key@, value@)] + ev.skip(i + 1));
            assert(entries_view(out@) =~= set_member(ev, key@, value@));
            return out;
        }
        let ghost before = out@;
        let k = es[i].0.clone();
        let c = crate::json::copy_json(&es[i].1);
        out.push((k, c));
        assert(entries_view(out@) =~= entries_view(before).push(ev[i as int]));
        assert(entries_view(out@) =~= ev.take(i + 1));
        assert(ev.take(i as int) + (seq![ev[i as int]] + set_member(ev.skip(i + 1), key@, value@)) =~= ev.take(
            i + 1,
        ) + set_member(ev.skip(i + 1), key@, value@));
        i = i + 1;
    }
    let ghost before = out@;
    out.push((owned(key), value));
    assert(ev.skip(i as int) =~= Seq::<(Seq<char>, Json)>::empty());
    assert(entries_view(out@) =~= ev.take(i as int) + seq![(key@, value@)]);
    assert(ev.take(i as int) =~= ev);
    out
}

fn reader_mentions(route: &crate::operator_routing_contract::ReaderRoute, lower: &str) -> (r: bool)
    ensures
        r == exists|k: int| 0 <= k < route@.phrases.len() && find_text(lower@, ascii_lower(#[trigger] route@.phrases[k])) is Some,
{
    let mut k: usize = 0;
    while k < route.phrases.len()
        invariant
            k <= route.phrases.len(),
            forall|j: int| 0 <= j < k ==> find_text(lower@, ascii_lower(#[trigger] route@.phrases[j])) is None,
        decreases route.phrases.len() - k,
    {
        let phrase = to_ascii_lower(route.phrases[k].as_str());
        assert(route@.phrases[k as int] == route.phrases@[k as int]@);
        if crate::text::contains_str(lower, phrase.as_str()) {
            return true;
        }
        k = k + 1;
    }
    false
}

fn direct_matches(route: &crate::operator_routing_contract::DirectToolRoute, normalized: &str) -> (r: bool)
    ensures
        r == exists|k: int| 0 <= k < route@.phrases.len() && phrase_form(#[trigger] route@.phrases[k]) == normalized@,
{
    let mut k: usize = 0;
    while k < route.phrases.len()
        invariant
            k <= route.phrases.len(),
            forall|j: int| 0 <= j < k ==> phrase_form(#[trigger] route@.phrases[j]) != normalized@,
        decreases route.phrases.len() - k,
    {
        let phrase = normalized_operator_phrase(route.phrases[k].as_str());
        assert(route@.phrases[k as int] == route.phrases@[k as int]@);
        if str_eq(phrase.as_str(), normalized) {
            return true;
        }
        k = k + 1;
    }
    false
}

fn find_reader_route(routes: &Vec<crate::operator_routing_contract::ReaderRoute>, content: &str, lower: &str) -> (r:
    Option<usize>)
    requires
        lower@ == ascii_lower(content@),
    ensures
        match r {
            Some(i) => i < routes.len() && reader_route_for(
                crate::operator_routing_contract::reader_routes_view(routes@),
                content@,
            ) == Some(routes@[i as int]@),
            None => reader_route_for(crate::operator_routing_contract::reader_routes_view(routes@), content@) is None,
        },
{
    let ghost readers = crate::operator_routing_contract::reader_routes_view(routes@);
    let mut i: usize = 0;
    assert(readers.skip(0) =~= readers);
    while i < routes.len()
        invariant
            i <= routes.len(),
            readers == crate::operator_routing_contract::reader_routes_view(routes@),
            lower@ == ascii_lower(content@),
            reader_route_for(readers, content@) == reader_route_for(readers.skip(i as int), content@),
        decreases routes.len() - i,
    {
        assert(readers.skip(i as int).drop_first() =~= readers.skip(i + 1));
        assert(readers.skip(i as int)[0] == routes@[i as int]@);
        if reader_mentions(&routes[i], lower) {
            return Some(i);
        }
        i = i + 1;
    }
    assert(readers.skip(i as int) =~= Seq::<ReaderRouteView>::empty());
    None
}

/// The tool call an operator's text asks for directly, without the provider.
pub fn direct_operator_intent_tool_call(content: &str) -> (r: Option<(String, String)>)
    requires
        tool_call_readable(content@),
    ensures
        pair_view(r) == intent_view(content@),
{
    if let Some(call) = parse_narada_tool_call(content) {
        return Some(call);
    }
    let contract = operator_routing_contract();
    let lower = to_ascii_lower(content);
    if let Some(i) = find_reader_route(&contract.reader_routes, content, lower.as_str()) {
        let route = &contract.reader_routes[i];
        if let Some(output_ref) = extract_ref_with_prefix(content, route.ref_prefix.as_str()) {
            return match crate::json::object_entries(&route.arguments) {
                Some(members) => {
                    let updated = set_member_exec(members, "ref", JsonValue::Str(output_ref));
                    proof {
                        crate::json::lemma_object_view(updated);
                    }
                    let text = to_compact_text(&JsonValue::Object(updated));
                    Some((route.tool_name.clone(), text))
                },
                None => None,
            };
        }
    }
    let normalized = normalized_operator_phrase(content);
    let ghost directs = crate::operator_routing_contract::direct_routes_view(contract.direct_tool_routes@);
    let mut j: usize = 0;
    assert(directs.skip(0) =~= directs);
    assert(intent_view(content@) == direct_intent(content@));
    while j < contract.direct_tool_routes.len()
        invariant
            j <= contract.direct_tool_routes.len(),
            directs == crate::operator_routing_contract::direct_routes_view(contract.direct_tool_routes@),
            normalized@ == phrase_form(content@),
            directs == bundled_direct_routes(),
            intent_view(content@) == direct_intent(content@),
            direct_route_for(directs, content@) == direct_route_for(directs.skip(j as int), content@),
        decreases contract.direct_tool_routes.len() - j,
    {
        assert(directs.skip(j as int).drop_first() =~= directs.skip(j + 1));
        assert(directs.skip(j as int)[0] == contract.direct_tool_routes@[j as int]@);
        let route = &contract.direct_tool_routes[j];
        if direct_matches(route, normalized.as_str()) {
            return Some((route.tool_name.clone(), to_compact_text(&route.arguments)));
        }
        j = j + 1;
    }
    assert(directs.skip(j as int) =~= Seq::<DirectRouteView>::empty());
    None
}

/// How a Codex run ends, from its exit and the reply it gave.
#[derive(Debug, Clone, PartialEq, Eq)]
pub enum CodexOutcome {
    /// The run failed; the reason.
    Failed(String),
    /// The reply is a tool call: the tool and its compact arguments.
    ToolCall(String, String),
    /// The reply was already streamed as deltas.
    Streamed,
    /// The reply, as one text output.
    Text(String),
}

/// The mathematical form of an outcome.
pub enum CodexOutcomeView {
    Failed(Seq<char>),
    ToolCall(Seq<char>, Seq<char>),
    Streamed,
    Text(Seq<char>),
}

impl View for CodexOutcome {
    type V = CodexOutcomeView;

    open spec fn view(&self) -> CodexOutcomeView {
        match self {
            CodexOutcome::Failed(m) => CodexOutcomeView::Failed(m@),
            CodexOutcome::ToolCall(a, b) => CodexOutcomeView::ToolCall(a@, b@),
            CodexOutcome::Streamed => CodexOutcomeView::Streamed,
            CodexOutcome::Text(t) => CodexOutcomeView::Text(t@),
        }
    }
}

/// How a Codex run ends: a failed exit reports its code (or -1) and up to
/// 500 characters of trimmed stderr; a blank reply is an error; a tool-call
/// reply becomes that call; a streamed reply needs nothing more; otherwise
/// the reply is one text output.
pub open spec fn codex_outcome_view(
    success: bool,
    code: Option<i32>,
    stderr: Seq<char>,
    content: Seq<char>,
    streamed_any: bool,
) -> CodexOutcomeView {
    if !success {
        CodexOutcomeView::Failed(
            "codex_exec_failed:"@ + crate::text::signed_decimal(
                match code {
                    Some(c) => c as int,
                    None => -1,
                },
            ) + seq![':'] + crate::text::take_chars(trim(stderr), 500),
        )
    } else if is_blank(content) {
        CodexOutcomeView::Failed("codex_exec_empty_response"@)
    } else {
        match tool_call_view(content) {
            Some((name, args)) => CodexOutcomeView::ToolCall(name, args),
            None => if streamed_any {
                CodexOutcomeView::Streamed
            } else {
                CodexOutcomeView::Text(content)
            },
        }
    }
}

/// How a Codex run ends, from its exit and the reply it gave.
pub fn codex_outcome(success: bool, code: Option<i32>, stderr: &str, content: &str, streamed_any: bool) -> (r:
    CodexOutcome)
    requires
        success && !is_blank(content@) ==> tool_call_readable(content@),
    ensures
        r@ == codex_outcome_view(success, code, stderr@, content@, streamed_any),
{
    if !success {
        let c: i64 = match code {
            Some(c) => c as i64,
            None => -1,
        };
        let a = concat("codex_exec_failed:", crate::text::i64_decimal(c).as_str());
        proof {
            reveal_strlit(":");
        }
        let b = concat(a.as_str(), ":");
        let tail = crate::text::take_chars_exec(trim_str(stderr), 500);
        let m = concat(b.as_str(), tail.as_str());
        assert(m@ =~= "codex_exec_failed:"@ + crate::text::signed_decimal(
            match code {
                Some(c) => c as int,
                None => -1,
            },
        ) + seq![':'] + crate::text::take_chars(trim(stderr@), 500));
        return CodexOutcome::Failed(m);
    }
    if is_blank_str(content) {
        return CodexOutcome::Failed(owned("codex_exec_empty_response"));
    }
    match parse_narada_tool_call(content) {
        Some((name, args)) => CodexOutcome::ToolCall(name, args),
        None => if streamed_any {
            CodexOutcome::Streamed
        } else {
            CodexOutcome::Text(owned(content))
        },
    }
}

/// The arguments of `codex exec` for a request run in a directory.
pub open spec fn codex_args_view(model: Option<Seq<char>>, thinking: Option<Seq<char>>, cwd: Seq<char>) -> Seq<Seq<char>> {
    let base = seq![
        "exec"@,
        "--json"@,
        "--dangerously-bypass-approvals-and-sandbox"@,
        "-m"@,
        match model {
            Some(m) => m,
            None => "gpt-5.5"@,
        },
        "-c"@,
        "approval_policy=\"never\""@,
    ];
    let with_effort = match effort_for(thinking) {
        Some(e) => base + seq!["-c"@, "model_reasoning_effort=\""@ + e + "\""@],
        None => base,
    };
    with_effort + seq!["-C"@, cwd, "-"@]
}

/// The arguments of `codex exec` for a request run in a directory.
pub fn codex_exec_args(request: &ProviderAdapterRequest, cwd: &str) -> (r: Vec<String>)
    ensures
        crate::text::strs(r@) == codex_args_view(opt_view(request.model), opt_view(request.thinking), cwd@),
{
    let mut args = crate::text::string_list(
        &["exec", "--json", "--dangerously-bypass-approvals-and-sandbox", "-m"],
    );
    let model = match &request.model {
        Some(m) => m.clone(),
        None => owned("gpt-5.5"),
    };
    let ghost before = args@;
    assert(crate::text::strs(before) =~= seq![
        "exec"@,
        "--json"@,
        "--dangerously-bypass-approvals-and-sandbox"@,
        "-m"@,
    ]);
    let c = owned("-c");
    let policy = owned("approval_policy=\"never\"");
    args.push(model);
    args.push(c);
    args.push(policy);
    assert(args@ == before.push(model).push(c).push(policy));
    assert(crate::text::strs(args@) =~= crate::text::strs(before).push(model@).push(c@).push(policy@));
    let thinking: Option<&str> = match &request.thinking {
        Some(t) => Some(t.as_str()),
        None => None,
    };
    let ghost mid = args@;
    assert(crate::text::strs(mid) =~= seq![
        "exec"@,
        "--json"@,
        "--dangerously-bypass-approvals-and-sandbox"@,
        "-m"@,
        match opt_view(request.model) {
            Some(m) => m,
            None => "gpt-5.5"@,
        },
        "-c"@,
        "approval_policy=\"never\""@,
    ]);
    if let Some(effort) = reasoning_effort(thinking) {
        args.push(owned("-c"));
        let a = concat("model_reasoning_effort=\"", effort.as_str());
        args.push(concat(a.as_str(), "\""));
    }
    args.push(owned("-C"));
    args.push(owned(cwd));
    args.push(owned("-"));
    assert(crate::text::strs(args@) =~= codex_args_view(opt_view(request.model), opt_view(request.thinking), cwd@));
    args
}

/// Why a Codex run cannot start, if it cannot: a blank prompt, or no
/// non-blank site root to run in.
pub open spec fn codex_launch_problem(prompt: Seq<char>, site_root: Option<Seq<char>>) -> Option<Seq<char>> {
    if is_blank(prompt) {
        Some("codex_subscription_prompt_missing"@)
    } else if site_root is None || is_blank(site_root->Some_0) {
        Some("codex_subscription_site_root_missing"@)
    } else {
        None
    }
}

/// What a Codex run for a request is started with, given the site root
/// from the environment: the prompt written to its input and its
/// arguments; or why it cannot start.
pub fn codex_launch_plan(request: &ProviderAdapterRequest, site_root: Option<&str>) -> (r: Result<
    (String, Vec<String>),
    String,
>)
    ensures
        ({
            let prompt = prompt_view(request.content_preview@, opt_view(request.goal), request.goal_status@);
            let root = match site_root {
                Some(s) => Some(s@),
                None => None,
            };
            match r {
                Ok((p, args)) => codex_launch_problem(prompt, root) is None && p@ == prompt
                    && crate::text::strs(args@) == codex_args_view(
                    opt_view(request.model),
                    opt_view(request.thinking),
                    root->Some_0,
                ),
                Err(e) => codex_launch_problem(prompt, root) == Some(e@),
            }
        }),
{
    let prompt = prompt_with_carrier_goal(request);
    if is_blank_str(prompt.as_str()) {
        return Err(owned("codex_subscription_prompt_missing"));
    }
    let cwd = match site_root {
        Some(s) => if is_blank_str(s) {
            return Err(owned("codex_subscription_site_root_missing"));
        } else {
            s
        },
        None => {
            return Err(owned("codex_subscription_site_root_missing"));
        },
    };
    let args = codex_exec_args(request, cwd);
    Ok((prompt, args))
}

/// One provider output: a text delta or a tool call request, with its payload.
#[derive(Debug, Clone, PartialEq, Eq)]
pub struct ProviderOutputRecord {
    pub kind: ProviderOutputKind,
    pub payload: JsonValue,
}

} // verus!
