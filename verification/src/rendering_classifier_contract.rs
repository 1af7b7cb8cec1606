//! The transcript rendering classifiers contract: which turn states,
//! statuses, tool results and diagnostics render as positive, negative,
//! warning or muted.
use vstd::prelude::*;
use crate::text::{
    any_prefix, ascii_lower, is_blank, is_ws, lower_char, is_blank_str, list_any_prefix, list_contains, owned,
    replace_char, replace_char_exec, starts_with, str_eq, string_list, strs, to_ascii_lower, trim,
    trim_str, concat,
};

verus! {

/// How a value renders.
#[derive(Debug, Clone, Copy, PartialEq, Eq, Structural)]
pub enum RenderClassification {
    Positive,
    Negative,
    Warning,
    Muted,
}

/// How a diagnostic severity renders.
#[derive(Debug, Clone, Copy, PartialEq, Eq, Structural)]
pub enum DiagnosticSeverityClass {
    Warning,
    Negative,
    Positive,
    Muted,
}

/// The `turn_state` classifiers.
#[derive(Debug)]
pub struct TurnStateClassifiers {
    pub active: String,
    pub active_display: String,
    pub thinking_prefix: String,
    pub calling_prefix: String,
    pub suppressed_markers: Vec<String>,
    pub positive_values: Vec<String>,
    pub positive_prefixes: Vec<String>,
    pub negative_values: Vec<String>,
    pub duration_phases: Vec<String>,
    pub operator_activity_actions: Vec<String>,
    pub operator_activity_actor: String,
}

/// The `terminal_status` classifiers.
#[derive(Debug)]
pub struct TerminalStatusClassifiers {
    pub positive: Vec<String>,
}

/// The `tool_result` classifiers.
#[derive(Debug)]
pub struct ToolResultClassifiers {
    pub positive_prefixes: Vec<String>,
    pub negative_prefixes: Vec<String>,
    pub positive_summaries: Vec<String>,
    pub negative_summaries: Vec<String>,
}

/// The `semantic_status_value` classifiers.
#[derive(Debug)]
pub struct SemanticStatusValueClassifiers {
    pub positive: Vec<String>,
    pub negative: Vec<String>,
    pub warning: Vec<String>,
    pub muted: Vec<String>,
}

/// The `runtime_status` classifiers.
#[derive(Debug)]
pub struct RuntimeStatusClassifiers {
    pub positive: Vec<String>,
    pub warning_prefixes: Vec<String>,
    pub negative_prefixes: Vec<String>,
    pub muted: Vec<String>,
}

/// The `diagnostic` classifiers.
#[derive(Debug)]
pub struct DiagnosticClassifiers {
    pub prefix: String,
    pub warning_severities: Vec<String>,
    pub negative_severities: Vec<String>,
    pub positive_severities: Vec<String>,
}

/// The transcript rendering classifiers contract.
#[derive(Debug)]
pub struct TranscriptClassifiersContract {
    pub schema: String,
    pub turn_state: TurnStateClassifiers,
    pub terminal_status: TerminalStatusClassifiers,
    pub tool_result: ToolResultClassifiers,
    pub semantic_status_value: SemanticStatusValueClassifiers,
    pub runtime_status: RuntimeStatusClassifiers,
    pub diagnostic: DiagnosticClassifiers,
}

pub open spec fn classifiers_schema() -> Seq<char> {
    "narada.carrier.transcript_rendering_classifiers.v1"@
}

/// The bundled `turn_state.active`.
pub open spec fn render_turn_state_active() -> Seq<char> {
    "active"@
}

/// The bundled `turn_state.active_display`.
pub open spec fn render_turn_state_active_display() -> Seq<char> {
    "thinking"@
}

/// The bundled `turn_state.thinking_prefix`.
pub open spec fn render_turn_state_thinking_prefix() -> Seq<char> {
    "thinking "@
}

/// The bundled `turn_state.calling_prefix`.
pub open spec fn render_turn_state_calling_prefix() -> Seq<char> {
    "calling "@
}

/// The bundled `turn_state.suppressed_markers`.
pub open spec fn render_turn_state_suppressed_markers() -> Seq<Seq<char>> {
    seq!["idle"@, "none"@]
}

/// The bundled `turn_state.positive_values`.
pub open spec fn render_turn_state_positive_values() -> Seq<Seq<char>> {
    seq!["active"@, "thinking"@, "calling"@]
}

/// The bundled `turn_state.positive_prefixes`.
pub open spec fn render_turn_state_positive_prefixes() -> Seq<Seq<char>> {
    seq!["thinking "@, "calling "@]
}

/// The bundled `turn_state.negative_values`.
pub open spec fn render_turn_state_negative_values() -> Seq<Seq<char>> {
    seq!["failed"@, "interrupted"@]
}

/// The bundled `turn_state.duration_phases`.
pub open spec fn render_turn_state_duration_phases() -> Seq<Seq<char>> {
    seq!["thinking"@, "calling"@]
}

/// The bundled `turn_state.operator_activity_actions`.
pub open spec fn render_turn_state_operator_activity_actions() -> Seq<Seq<char>> {
    seq!["submitted"@, "queued"@, "steered"@]
}

/// The bundled `turn_state.operator_activity_actor`.
pub open spec fn render_turn_state_operator_activity_actor() -> Seq<char> {
    "operator"@
}

/// The bundled `terminal_status.positive`.
pub open spec fn render_terminal_status_positive() -> Seq<Seq<char>> {
    seq!["completed"@, "completed_without_provider"@]
}

/// The bundled `tool_result.positive_prefixes`.
pub open spec fn render_tool_result_positive_prefixes() -> Seq<Seq<char>> {
    seq!["ok"@]
}

/// The bundled `tool_result.negative_prefixes`.
pub open spec fn render_tool_result_negative_prefixes() -> Seq<Seq<char>> {
    seq!["error"@, "denied"@]
}

/// The bundled `tool_result.positive_summaries`.
pub open spec fn render_tool_result_positive_summaries() -> Seq<Seq<char>> {
    seq!["completed"@, "ok"@]
}

/// The bundled `tool_result.negative_summaries`.
pub open spec fn render_tool_result_negative_summaries() -> Seq<Seq<char>> {
    seq!["failed"@, "interrupted"@, "denied"@]
}

/// The bundled `semantic_status_value.positive`.
pub open spec fn render_semantic_status_value_positive() -> Seq<Seq<char>> {
    seq!["ready"@, "ok"@, "enabled"@, "admitted"@, "configured"@]
}

/// The bundled `semantic_status_value.negative`.
pub open spec fn render_semantic_status_value_negative() -> Seq<Seq<char>> {
    seq!["failed"@, "refused"@, "error"@, "blocked"@]
}

/// The bundled `semantic_status_value.warning`.
pub open spec fn render_semantic_status_value_warning() -> Seq<Seq<char>> {
    seq!["configured-without-provider"@, "pending"@, "degraded"@]
}

/// The bundled `semantic_status_value.muted`.
pub open spec fn render_semantic_status_value_muted() -> Seq<Seq<char>> {
    seq!["disabled"@, "idle"@, "unset"@, "none"@]
}

/// The bundled `runtime_status.positive`.
pub open spec fn render_runtime_status_positive() -> Seq<Seq<char>> {
    seq!["ready"@, "admitted"@]
}

/// The bundled `runtime_status.warning_prefixes`.
pub open spec fn render_runtime_status_warning_prefixes() -> Seq<Seq<char>> {
    seq!["configured_without"@]
}

/// The bundled `runtime_status.negative_prefixes`.
pub open spec fn render_runtime_status_negative_prefixes() -> Seq<Seq<char>> {
    seq!["refused"@, "failed"@]
}

/// The bundled `runtime_status.muted`.
pub open spec fn render_runtime_status_muted() -> Seq<Seq<char>> {
    seq!["disabled"@]
}

/// The bundled `diagnostic.prefix`.
pub open spec fn render_diagnostic_prefix() -> Seq<char> {
    "diagnostic"@
}

/// The bundled `diagnostic.warning_severities`.
pub open spec fn render_diagnostic_warning_severities() -> Seq<Seq<char>> {
    seq!["warn"@, "warning"@]
}

/// The bundled `diagnostic.negative_severities`.
pub open spec fn render_diagnostic_negative_severities() -> Seq<Seq<char>> {
    seq!["error"@, "failed"@]
}

/// The bundled `diagnostic.positive_severities`.
pub open spec fn render_diagnostic_positive_severities() -> Seq<Seq<char>> {
    seq!["ok"@, "info"@]
}

/// Whether a contract holds exactly the bundled classifiers.
pub open spec fn is_bundled_classifiers(c: TranscriptClassifiersContract) -> bool {
    &&& c.schema@ == classifiers_schema()
    &&& c.turn_state.active@ == render_turn_state_active()
    &&& c.turn_state.active_display@ == render_turn_state_active_display()
    &&& c.turn_state.thinking_prefix@ == render_turn_state_thinking_prefix()
    &&& c.turn_state.calling_prefix@ == render_turn_state_calling_prefix()
    &&& strs(c.turn_state.suppressed_markers@) == render_turn_state_suppressed_markers()
    &&& strs(c.turn_state.positive_values@) == render_turn_state_positive_values()
    &&& strs(c.turn_state.positive_prefixes@) == render_turn_state_positive_prefixes()
    &&& strs(c.turn_state.negative_values@) == render_turn_state_negative_values()
    &&& strs(c.turn_state.duration_phases@) == render_turn_state_duration_phases()
    &&& strs(c.turn_state.operator_activity_actions@) == render_turn_state_operator_activity_actions()
    &&& c.turn_state.operator_activity_actor@ == render_turn_state_operator_activity_actor()
    &&& strs(c.terminal_status.positive@) == render_terminal_status_positive()
    &&& strs(c.tool_result.positive_prefixes@) == render_tool_result_positive_prefixes()
    &&& strs(c.tool_result.negative_prefixes@) == render_tool_result_negative_prefixes()
    &&& strs(c.tool_result.positive_summaries@) == render_tool_result_positive_summaries()
    &&& strs(c.tool_result.negative_summaries@) == render_tool_result_negative_summaries()
    &&& strs(c.semantic_status_value.positive@) == render_semantic_status_value_positive()
    &&& strs(c.semantic_status_value.negative@) == render_semantic_status_value_negative()
    &&& strs(c.semantic_status_value.warning@) == render_semantic_status_value_warning()
    &&& strs(c.semantic_status_value.muted@) == render_semantic_status_value_muted()
    &&& strs(c.runtime_status.positive@) == render_runtime_status_positive()
    &&& strs(c.runtime_status.warning_prefixes@) == render_runtime_status_warning_prefixes()
    &&& strs(c.runtime_status.negative_prefixes@) == render_runtime_status_negative_prefixes()
    &&& strs(c.runtime_status.muted@) == render_runtime_status_muted()
    &&& c.diagnostic.prefix@ == render_diagnostic_prefix()
    &&& strs(c.diagnostic.warning_severities@) == render_diagnostic_warning_severities()
    &&& strs(c.diagnostic.negative_severities@) == render_diagnostic_negative_severities()
    &&& strs(c.diagnostic.positive_severities@) == render_diagnostic_positive_severities()
}

/// The first failed check of a contract read from JSON, if any.
pub open spec fn classifiers_problem(c: TranscriptClassifiersContract) -> Option<Seq<char>> {
    if c.schema@ != classifiers_schema() {
        Some("transcript_classifiers_contract_invalid:schema"@)
    } else if c.turn_state.active@.len() == 0 || c.turn_state.active_display@.len() == 0 || c.turn_state.thinking_prefix@.len() == 0 || c.turn_state.calling_prefix@.len() == 0 || c.turn_state.positive_values@.len() == 0 || c.turn_state.negative_values@.len() == 0 || c.turn_state.duration_phases@.len() == 0 || c.turn_state.operator_activity_actions@.len() == 0 || c.turn_state.operator_activity_actor@.len() == 0 {
        Some("transcript_classifiers_contract_invalid:turn_state"@)
    } else if c.terminal_status.positive@.len() == 0 {
        Some("transcript_classifiers_contract_invalid:terminal_status"@)
    } else if c.tool_result.positive_prefixes@.len() == 0 || c.tool_result.negative_prefixes@.len() == 0 || c.tool_result.positive_summaries@.len() == 0 || c.tool_result.negative_summaries@.len() == 0 {
        Some("transcript_classifiers_contract_invalid:tool_result"@)
    } else if c.semantic_status_value.positive@.len() == 0 || c.semantic_status_value.negative@.len() == 0 || c.semantic_status_value.warning@.len() == 0 || c.semantic_status_value.muted@.len() == 0 {
        Some("transcript_classifiers_contract_invalid:semantic_status_value"@)
    } else if c.runtime_status.positive@.len() == 0 || c.runtime_status.warning_prefixes@.len() == 0 || c.runtime_status.negative_prefixes@.len() == 0 || c.runtime_status.muted@.len() == 0 {
        Some("transcript_classifiers_contract_invalid:runtime_status"@)
    } else if c.diagnostic.prefix@.len() == 0 {
        Some("transcript_classifiers_contract_invalid:diagnostic_prefix"@)
    } else {
        None
    }
}

/// The bundled transcript classifiers contract.
pub fn transcript_classifiers_contract() -> (c: TranscriptClassifiersContract)
    ensures
        is_bundled_classifiers(c),
{
    let turn_state = TurnStateClassifiers {
        active: owned("active"),
        active_display: owned("thinking"),
        thinking_prefix: owned("thinking "),
        calling_prefix: owned("calling "),
        suppressed_markers: string_list(&["idle", "none"]),
        positive_values: string_list(&["active", "thinking", "calling"]),
        positive_prefixes: string_list(&["thinking ", "calling "]),
        negative_values: string_list(&["failed", "interrupted"]),
        duration_phases: string_list(&["thinking", "calling"]),
        operator_activity_actions: string_list(&["submitted", "queued", "steered"]),
        operator_activity_actor: owned("operator"),
    };
    assert(strs(turn_state.suppressed_markers@) =~= render_turn_state_suppressed_markers());
    assert(strs(turn_state.positive_values@) =~= render_turn_state_positive_values());
    assert(strs(turn_state.positive_prefixes@) =~= render_turn_state_positive_prefixes());
    assert(strs(turn_state.negative_values@) =~= render_turn_state_negative_values());
    assert(strs(turn_state.duration_phases@) =~= render_turn_state_duration_phases());
    assert(strs(turn_state.operator_activity_actions@) =~= render_turn_state_operator_activity_actions());
    let terminal_status = TerminalStatusClassifiers {
        positive: string_list(&["completed", "completed_without_provider"]),
    };
    assert(strs(terminal_status.positive@) =~= render_terminal_status_positive());
    let tool_result = ToolResultClassifiers {
        positive_prefixes: string_list(&["ok"]),
        negative_prefixes: string_list(&["error", "denied"]),
        positive_summaries: string_list(&["completed", "ok"]),
        negative_summaries: string_list(&["failed", "interrupted", "denied"]),
    };
    assert(strs(tool_result.positive_prefixes@) =~= render_tool_result_positive_prefixes());
    assert(strs(tool_result.negative_prefixes@) =~= render_tool_result_negative_prefixes());
    assert(strs(tool_result.positive_summaries@) =~= render_tool_result_positive_summaries());
    assert(strs(tool_result.negative_summaries@) =~= render_tool_result_negative_summaries());
    let semantic_status_value = SemanticStatusValueClassifiers {
        positive: string_list(&["ready", "ok", "enabled", "admitted", "configured"]),
        negative: string_list(&["failed", "refused", "error", "blocked"]),
        warning: string_list(&["configured-without-provider", "pending", "degraded"]),
        muted: string_list(&["disabled", "idle", "unset", "none"]),
    };
    assert(strs(semantic_status_value.positive@) =~= render_semantic_status_value_positive());
    assert(strs(semantic_status_value.negative@) =~= render_semantic_status_value_negative());
    assert(strs(semantic_status_value.warning@) =~= render_semantic_status_value_warning());
    assert(strs(semantic_status_value.muted@) =~= render_semantic_status_value_muted());
    let runtime_status = RuntimeStatusClassifiers {
        positive: string_list(&["ready", "admitted"]),
        warning_prefixes: string_list(&["configured_without"]),
        negative_prefixes: string_list(&["refused", "failed"]),
        muted: string_list(&["disabled"]),
    };
    assert(strs(runtime_status.positive@) =~= render_runtime_status_positive());
    assert(strs(runtime_status.warning_prefixes@) =~= render_runtime_status_warning_prefixes());
    assert(strs(runtime_status.negative_prefixes@) =~= render_runtime_status_negative_prefixes());
    assert(strs(runtime_status.muted@) =~= render_runtime_status_muted());
    let diagnostic = DiagnosticClassifiers {
        prefix: owned("diagnostic"),
        warning_severities: string_list(&["warn", "warning"]),
        negative_severities: string_list(&["error", "failed"]),
        positive_severities: string_list(&["ok", "info"]),
    };
    assert(strs(diagnostic.warning_severities@) =~= render_diagnostic_warning_severities());
    assert(strs(diagnostic.negative_severities@) =~= render_diagnostic_negative_severities());
    assert(strs(diagnostic.positive_severities@) =~= render_diagnostic_positive_severities());
    TranscriptClassifiersContract {
        schema: owned("narada.carrier.transcript_rendering_classifiers.v1"),
        turn_state,
        terminal_status,
        tool_result,
        semantic_status_value,
        runtime_status,
        diagnostic,
    }
}

/// The bundled `turn_state.active`.
pub fn active_turn_state() -> (r: String)
    ensures
        r@ == render_turn_state_active(),
{
    transcript_classifiers_contract().turn_state.active
}

/// The bundled `turn_state.active_display`.
pub fn active_turn_display() -> (r: String)
    ensures
        r@ == render_turn_state_active_display(),
{
    transcript_classifiers_contract().turn_state.active_display
}

/// The bundled `turn_state.thinking_prefix`.
pub fn thinking_prefix() -> (r: String)
    ensures
        r@ == render_turn_state_thinking_prefix(),
{
    transcript_classifiers_contract().turn_state.thinking_prefix
}

/// The bundled `turn_state.calling_prefix`.
pub fn calling_prefix() -> (r: String)
    ensures
        r@ == render_turn_state_calling_prefix(),
{
    transcript_classifiers_contract().turn_state.calling_prefix
}

/// The bundled `turn_state.operator_activity_actor`.
pub fn operator_activity_actor() -> (r: String)
    ensures
        r@ == render_turn_state_operator_activity_actor(),
{
    transcript_classifiers_contract().turn_state.operator_activity_actor
}

/// The bundled `diagnostic.prefix`.
pub fn diagnostic_prefix() -> (r: String)
    ensures
        r@ == render_diagnostic_prefix(),
{
    transcript_classifiers_contract().diagnostic.prefix
}

/// The bundled `turn_state.thinking_prefix` without surrounding whitespace.
pub fn thinking_phase() -> (r: String)
    ensures
        r@ == trim(render_turn_state_thinking_prefix()),
{
    let c = transcript_classifiers_contract();
    owned(trim_str(c.turn_state.thinking_prefix.as_str()))
}

/// The bundled `turn_state.calling_prefix` without surrounding whitespace.
pub fn calling_phase() -> (r: String)
    ensures
        r@ == trim(render_turn_state_calling_prefix()),
{
    let c = transcript_classifiers_contract();
    owned(trim_str(c.turn_state.calling_prefix.as_str()))
}

/// Whether `value` is one of the bundled `turn_state.negative_values`.
pub fn turn_state_is_negative(value: &str) -> (r: bool)
    ensures
        r == render_turn_state_negative_values().contains(value@),
{
    let c = transcript_classifiers_contract();
    list_contains(&c.turn_state.negative_values, value)
}

/// Whether `value` is one of the bundled `turn_state.duration_phases`.
pub fn turn_state_duration_phase_is_known(value: &str) -> (r: bool)
    ensures
        r == render_turn_state_duration_phases().contains(value@),
{
    let c = transcript_classifiers_contract();
    list_contains(&c.turn_state.duration_phases, value)
}

/// Whether `value` is one of the bundled `turn_state.operator_activity_actions`.
pub fn operator_activity_action_is_known(value: &str) -> (r: bool)
    ensures
        r == render_turn_state_operator_activity_actions().contains(value@),
{
    let c = transcript_classifiers_contract();
    list_contains(&c.turn_state.operator_activity_actions, value)
}

/// Whether `value` is one of the bundled `terminal_status.positive`.
pub fn terminal_status_is_positive(value: &str) -> (r: bool)
    ensures
        r == render_terminal_status_positive().contains(value@),
{
    let c = transcript_classifiers_contract();
    list_contains(&c.terminal_status.positive, value)
}

/// Whether a turn marker is hidden: blank, or one of the suppressed markers.
pub fn turn_marker_is_suppressed(value: &str) -> (r: bool)
    ensures
        r == (is_blank(value@) || render_turn_state_suppressed_markers().contains(value@)),
{
    if is_blank_str(value) {
        return true;
    }
    let c = transcript_classifiers_contract();
    list_contains(&c.turn_state.suppressed_markers, value)
}

/// Whether a turn state renders as positive: a positive value, or a value
/// starting with a positive prefix.
pub fn turn_state_is_positive(value: &str) -> (r: bool)
    ensures
        r == (render_turn_state_positive_values().contains(value@) || any_prefix(
            render_turn_state_positive_prefixes(),
            value@,
        )),
{
    let c = transcript_classifiers_contract();
    list_contains(&c.turn_state.positive_values, value) || list_any_prefix(&c.turn_state.positive_prefixes, value)
}

/// Whether a tool result text starts with a candidate: equal to it, or the
/// candidate followed by a space.
pub open spec fn result_has_prefix(text: Seq<char>, candidate: Seq<char>) -> bool {
    text == candidate || (candidate + seq![' ']).is_prefix_of(text)
}

/// The first candidate of a list that a tool result text starts with.
pub open spec fn first_result_prefix(list: Seq<Seq<char>>, text: Seq<char>) -> Option<Seq<char>>
    decreases list.len(),
{
    if list.len() == 0 {
        None
    } else if result_has_prefix(text, list[0]) {
        Some(list[0])
    } else {
        first_result_prefix(list.drop_first(), text)
    }
}

/// The class of a tool result text by its leading status word.
pub open spec fn tool_result_prefix_view(text: Seq<char>) -> Option<(Seq<char>, RenderClassification)> {
    match first_result_prefix(render_tool_result_positive_prefixes(), text) {
        Some(c) => Some((c, RenderClassification::Positive)),
        None => match first_result_prefix(render_tool_result_negative_prefixes(), text) {
            Some(c) => Some((c, RenderClassification::Negative)),
            None => None,
        },
    }
}

fn first_prefix_in(list: &Vec<String>, text: &str) -> (r: Option<String>)
    ensures
        crate::json::opt_str_view(r) == first_result_prefix(strs(list@), text@),
{
    let ghost l = strs(list@);
    assert(l.skip(0) =~= l);
    let mut i: usize = 0;
    while i < list.len()
        invariant
            i <= list.len(),
            l == strs(list@),
            first_result_prefix(l, text@) == first_result_prefix(l.skip(i as int), text@),
        decreases list.len() - i,
    {
        assert(l.skip(i as int).drop_first() =~= l.skip(i + 1));
        assert(l.skip(i as int)[0] == list@[i as int]@);
        let candidate = list[i].as_str();
        let spaced = concat(candidate, " ");
        proof {
            reveal_strlit(" ");
        }
        assert(spaced@ =~= candidate@ + seq![' ']);
        if str_eq(text, candidate) || starts_with(text, spaced.as_str()) {
            return Some(list[i].clone());
        }
        i = i + 1;
    }
    None
}

/// The class of a tool result text by its leading status word, and that word.
pub fn tool_result_prefix_class(text: &str) -> (r: Option<(String, RenderClassification)>)
    ensures
        match r {
            Some((c, k)) => tool_result_prefix_view(text@) == Some((c@, k)),
            None => tool_result_prefix_view(text@) is None,
        },
{
    let c = transcript_classifiers_contract();
    match first_prefix_in(&c.tool_result.positive_prefixes, text) {
        Some(p) => Some((p, RenderClassification::Positive)),
        None => match first_prefix_in(&c.tool_result.negative_prefixes, text) {
            Some(p) => Some((p, RenderClassification::Negative)),
            None => None,
        },
    }
}

/// The class of a tool result summary.
pub fn tool_result_summary_class(value: &str) -> (r: Option<RenderClassification>)
    ensures
        r == (if render_tool_result_positive_summaries().contains(value@) {
            Some(RenderClassification::Positive)
        } else if render_tool_result_negative_summaries().contains(value@) {
            Some(RenderClassification::Negative)
        } else {
            None
        }),
{
    let c = transcript_classifiers_contract();
    if list_contains(&c.tool_result.positive_summaries, value) {
        Some(RenderClassification::Positive)
    } else if list_contains(&c.tool_result.negative_summaries, value) {
        Some(RenderClassification::Negative)
    } else {
        None
    }
}

/// A status value as the semantic classifiers read it: trimmed, lower-cased,
/// with `_` read as `-`.
pub open spec fn semantic_form(value: Seq<char>) -> Seq<char> {
    replace_char(ascii_lower(trim(value)), '_', '-')
}

/// The class of a semantic status value, read in its semantic form.
pub open spec fn semantic_class(value: Seq<char>) -> Option<RenderClassification> {
    let form = semantic_form(value);
    if render_semantic_status_value_positive().contains(form) {
        Some(RenderClassification::Positive)
    } else if render_semantic_status_value_negative().contains(form) {
        Some(RenderClassification::Negative)
    } else if render_semantic_status_value_warning().contains(form) {
        Some(RenderClassification::Warning)
    } else if render_semantic_status_value_muted().contains(form) {
        Some(RenderClassification::Muted)
    } else {
        None
    }
}

/// The semantic form of a semantic form is itself, so a value and its
/// semantic form are classed alike.
pub proof fn lemma_semantic_form_idempotent(value: Seq<char>)
    ensures
        semantic_form(semantic_form(value)) == semantic_form(value),
        semantic_class(semantic_form(value)) == semantic_class(value),
{
    let t = trim(value);
    crate::text::lemma_trim_ends(value);
    let x = semantic_form(value);
    assert(x.len() == t.len());
    assert forall|i: int| 0 <= i < x.len() implies (is_ws(x[i]) == is_ws(#[trigger] t[i])) && lower_char(x[i]) == x[i]
        && x[i] != '_' by {
        crate::text::lemma_lower_char(t[i]);
        assert(x[i] == (if lower_char(t[i]) == '_' { '-' } else { lower_char(t[i]) }));
    }
    if x.len() > 0 {
        assert(is_ws(x[0]) == is_ws(t[0]));
        assert(is_ws(x[x.len() - 1]) == is_ws(t[t.len() - 1]));
    }
    crate::text::lemma_trim_fixed(x);
    assert(ascii_lower(x) =~= x);
    assert(replace_char(x, '_', '-') =~= x);
}

/// The class of a semantic status value.
pub fn semantic_status_value_class(value: &str) -> (r: Option<RenderClassification>)
    ensures
        r == semantic_class(value@),
{
    let lower = to_ascii_lower(trim_str(value));
    let normalized = replace_char_exec(lower.as_str(), '_', '-');
    let n = normalized.as_str();
    let c = transcript_classifiers_contract();
    if list_contains(&c.semantic_status_value.positive, n) {
        Some(RenderClassification::Positive)
    } else if list_contains(&c.semantic_status_value.negative, n) {
        Some(RenderClassification::Negative)
    } else if list_contains(&c.semantic_status_value.warning, n) {
        Some(RenderClassification::Warning)
    } else if list_contains(&c.semantic_status_value.muted, n) {
        Some(RenderClassification::Muted)
    } else {
        None
    }
}

/// The class of a runtime status.
pub fn runtime_status_class(value: &str) -> (r: Option<RenderClassification>)
    ensures
        r == (if render_runtime_status_positive().contains(value@) {
            Some(RenderClassification::Positive)
        } else if any_prefix(render_runtime_status_warning_prefixes(), value@) {
            Some(RenderClassification::Warning)
        } else if any_prefix(render_runtime_status_negative_prefixes(), value@) {
            Some(RenderClassification::Negative)
        } else if render_runtime_status_muted().contains(value@) {
            Some(RenderClassification::Muted)
        } else {
            None
        }),
{
    let c = transcript_classifiers_contract();
    if list_contains(&c.runtime_status.positive, value) {
        Some(RenderClassification::Positive)
    } else if list_any_prefix(&c.runtime_status.warning_prefixes, value) {
        Some(RenderClassification::Warning)
    } else if list_any_prefix(&c.runtime_status.negative_prefixes, value) {
        Some(RenderClassification::Negative)
    } else if list_contains(&c.runtime_status.muted, value) {
        Some(RenderClassification::Muted)
    } else {
        None
    }
}

/// The class of a diagnostic severity; unknown severities are muted.
pub fn diagnostic_severity_class(value: &str) -> (r: DiagnosticSeverityClass)
    ensures
        r == (if render_diagnostic_warning_severities().contains(value@) {
            DiagnosticSeverityClass::Warning
        } else if render_diagnostic_negative_severities().contains(value@) {
            DiagnosticSeverityClass::Negative
        } else if render_diagnostic_positive_severities().contains(value@) {
            DiagnosticSeverityClass::Positive
        } else {
            DiagnosticSeverityClass::Muted
        }),
{
    let c = transcript_classifiers_contract();
    if list_contains(&c.diagnostic.warning_severities, value) {
        DiagnosticSeverityClass::Warning
    } else if list_contains(&c.diagnostic.negative_severities, value) {
        DiagnosticSeverityClass::Negative
    } else if list_contains(&c.diagnostic.positive_severities, value) {
        DiagnosticSeverityClass::Positive
    } else {
        DiagnosticSeverityClass::Muted
    }
}

fn list_nonempty(v: &Vec<String>) -> (r: bool)
    ensures
        r == (v@.len() != 0),
{
    v.len() != 0
}

fn text_nonempty(s: &String) -> (r: bool)
    ensures
        r == (s@.len() != 0),
{
    !s.as_str().is_empty()
}

/// Checks a contract read from JSON, reporting the first failed check.
pub fn validate_transcript_classifiers_contract(c: &TranscriptClassifiersContract) -> (r: Result<(), String>)
    ensures
        match r {
            Ok(()) => classifiers_problem(*c) is None,
            Err(e) => classifiers_problem(*c) == Some(e@),
        },
{
    if !str_eq(c.schema.as_str(), "narada.carrier.transcript_rendering_classifiers.v1") {
        return Err(owned("transcript_classifiers_contract_invalid:schema"));
    }
    if !text_nonempty(&c.turn_state.active) || !text_nonempty(&c.turn_state.active_display) || !text_nonempty(&c.turn_state.thinking_prefix) || !text_nonempty(&c.turn_state.calling_prefix) || !list_nonempty(&c.turn_state.positive_values) || !list_nonempty(&c.turn_state.negative_values) || !list_nonempty(&c.turn_state.duration_phases) || !list_nonempty(&c.turn_state.operator_activity_actions) || !text_nonempty(&c.turn_state.operator_activity_actor) {
        return Err(owned("transcript_classifiers_contract_invalid:turn_state"));
    }
    if !list_nonempty(&c.terminal_status.positive) {
        return Err(owned("transcript_classifiers_contract_invalid:terminal_status"));
    }
    if !list_nonempty(&c.tool_result.positive_prefixes) || !list_nonempty(&c.tool_result.negative_prefixes) || !list_nonempty(&c.tool_result.positive_summaries) || !list_nonempty(&c.tool_result.negative_summaries) {
        return Err(owned("transcript_classifiers_contract_invalid:tool_result"));
    }
    if !list_nonempty(&c.semantic_status_value.positive) || !list_nonempty(&c.semantic_status_value.negative) || !list_nonempty(&c.semantic_status_value.warning) || !list_nonempty(&c.semantic_status_value.muted) {
        return Err(owned("transcript_classifiers_contract_invalid:semantic_status_value"));
    }
    if !list_nonempty(&c.runtime_status.positive) || !list_nonempty(&c.runtime_status.warning_prefixes) || !list_nonempty(&c.runtime_status.negative_prefixes) || !list_nonempty(&c.runtime_status.muted) {
        return Err(owned("transcript_classifiers_contract_invalid:runtime_status"));
    }
    if !text_nonempty(&c.diagnostic.prefix) {
        return Err(owned("transcript_classifiers_contract_invalid:diagnostic_prefix"));
    }
    Ok(())
}

} // verus!
