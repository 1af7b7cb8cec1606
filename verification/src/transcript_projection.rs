//! Transcript items: what the transcript shows of a session event.
use vstd::prelude::*;
use crate::carrier_protocol::{SessionEvent, SessionEventKind, SessionEventView};
use crate::json::{as_unsigned, field, text_field, text_of, get, get_unsigned, Json};
use crate::text::{concat, decimal, owned, u64_decimal};

verus! {

/// Who a transcript row speaks for.
#[derive(Debug, Clone, Copy, PartialEq, Eq, Structural)]
pub enum TranscriptActor {
    Operator,
    Agent,
    Tool,
    System,
}

/// What kind of row a transcript item is.
#[derive(Debug, Clone, Copy, PartialEq, Eq, Structural)]
pub enum TranscriptItemKind {
    OperatorInput,
    ProviderTextDelta,
    ToolCallRequest,
    ToolResult,
    TurnTerminal,
}

/// One transcript row.
#[derive(Debug, Clone, PartialEq, Eq)]
pub struct TranscriptItem {
    pub kind: TranscriptItemKind,
    pub actor: TranscriptActor,
    pub turn_id: String,
    pub text: String,
    pub sequence: Option<u64>,
    pub projection_key: Option<String>,
}

/// The mathematical form of a transcript row.
pub struct ItemView {
    pub kind: TranscriptItemKind,
    pub actor: TranscriptActor,
    pub turn_id: Seq<char>,
    pub text: Seq<char>,
    pub sequence: Option<u64>,
    pub projection_key: Option<Seq<char>>,
}

impl View for TranscriptItem {
    type V = ItemView;

    open spec fn view(&self) -> ItemView {
        ItemView {
            kind: self.kind,
            actor: self.actor,
            turn_id: self.turn_id@,
            text: self.text@,
            sequence: self.sequence,
            projection_key: crate::json::opt_str_view(self.projection_key),
        }
    }
}

pub open spec fn opt_item_view(o: Option<TranscriptItem>) -> Option<ItemView> {
    match o {
        Some(i) => Some(i@),
        None => None,
    }
}

/// A copy of a transcript row.
pub fn copy_item(item: &TranscriptItem) -> (r: TranscriptItem)
    ensures
        r@ == item@,
{
    TranscriptItem {
        kind: item.kind,
        actor: item.actor,
        turn_id: item.turn_id.clone(),
        text: item.text.clone(),
        sequence: item.sequence,
        projection_key: match &item.projection_key {
            Some(k) => Some(k.clone()),
            None => None,
        },
    }
}

pub open spec fn text_or_spec(o: Option<Seq<char>>, fallback: Seq<char>) -> Seq<char> {
    match o {
        Some(s) => s,
        None => fallback,
    }
}

pub open spec fn unsigned_at(v: Json, key: Seq<char>) -> Option<u64> {
    match field(v, key) {
        Some(x) => as_unsigned(x),
        None => None,
    }
}

/// The row text of a tool result: status, tool, then the duration and the
/// summary when the payload has them.
pub open spec fn tool_result_text(p: Json) -> Seq<char> {
    let head = text_or_spec(text_field(p, "status"@), "completed"@) + seq![' '] + text_or_spec(
        text_field(p, "tool_name"@),
        "tool"@,
    );
    let with_duration = match unsigned_at(p, "duration_ms"@) {
        Some(d) => head + " in "@ + decimal(d as nat) + "ms"@,
        None => head,
    };
    match text_field(p, "result_summary"@) {
        Some(s) => with_duration + " · "@ + s,
        None => with_duration,
    }
}

/// The transcript row a session event projects to, if any.
pub open spec fn project_view(e: SessionEventView) -> Option<ItemView> {
    let p = e.payload;
    let turn_id = text_or_spec(text_field(p, "turn_id"@), Seq::empty());
    let sequence = unsigned_at(p, "sequence"@);
    match e.event_kind {
        SessionEventKind::InputAdmittedToTurn | SessionEventKind::TurnStarted => match text_field(p, "content_preview"@) {
            Some(text) => Some(
                ItemView {
                    kind: TranscriptItemKind::OperatorInput,
                    actor: TranscriptActor::Operator,
                    turn_id,
                    text,
                    sequence,
                    projection_key: Some("input:"@ + text_or_spec(text_field(p, "input_event_id"@), e.event_id)),
                },
            ),
            None => None,
        },
        SessionEventKind::ProviderTextDeltaRecorded => Some(
            ItemView {
                kind: TranscriptItemKind::ProviderTextDelta,
                actor: TranscriptActor::Agent,
                turn_id,
                text: text_or_spec(text_field(p, "text_delta"@), Seq::empty()),
                sequence,
                projection_key: None,
            },
        ),
        SessionEventKind::ProviderToolCallRequested => Some(
            ItemView {
                kind: TranscriptItemKind::ToolCallRequest,
                actor: TranscriptActor::Agent,
                turn_id,
                text: text_or_spec(text_field(p, "tool_name"@), "tool"@) + seq!['('] + text_or_spec(
                    text_field(p, "arguments_summary"@),
                    Seq::empty(),
                ) + seq![')'],
                sequence,
                projection_key: None,
            },
        ),
        SessionEventKind::ToolResultReceived => Some(
            ItemView {
                kind: TranscriptItemKind::ToolResult,
                actor: TranscriptActor::Tool,
                turn_id,
                text: tool_result_text(p),
                sequence,
                projection_key: None,
            },
        ),
        SessionEventKind::TurnCompleted | SessionEventKind::TurnFailed | SessionEventKind::TurnInterrupted => Some(
            ItemView {
                kind: TranscriptItemKind::TurnTerminal,
                actor: TranscriptActor::System,
                turn_id,
                text: text_or_spec(
                    text_field(p, "terminal_status"@),
                    if e.event_kind == SessionEventKind::TurnCompleted {
                        "completed"@
                    } else if e.event_kind == SessionEventKind::TurnFailed {
                        "failed"@
                    } else {
                        "interrupted"@
                    },
                ),
                sequence,
                projection_key: None,
            },
        ),
        _ => None,
    }
}

fn text_or_default(o: Option<String>, fallback: &str) -> (r: String)
    ensures
        r@ == text_or_spec(crate::json::opt_str_view(o), fallback@),
{
    match o {
        Some(s) => s,
        None => owned(fallback),
    }
}

fn unsigned_of(v: &crate::json::JsonValue, key: &str) -> (r: Option<u64>)
    ensures
        r == unsigned_at(v@, key@),
{
    match get(v, key) {
        Some(x) => get_unsigned(x),
        None => None,
    }
}

fn tool_result_line(p: &crate::json::JsonValue) -> (r: String)
    ensures
        r@ == tool_result_text(p@),
{
    let status = text_or_default(text_of(p, "status"), "completed");
    let tool = text_or_default(text_of(p, "tool_name"), "tool");
    let with_space = concat(status.as_str(), " ");
    proof {
        reveal_strlit(" ");
    }
    let head = concat(with_space.as_str(), tool.as_str());
    assert(head@ =~= status@ + seq![' '] + tool@);
    let with_duration = match unsigned_of(p, "duration_ms") {
        Some(d) => {
            let a = concat(head.as_str(), " in ");
            let b = concat(a.as_str(), u64_decimal(d).as_str());
            concat(b.as_str(), "ms")
        },
        None => head,
    };
    match text_of(p, "result_summary") {
        Some(s) => {
            let a = concat(with_duration.as_str(), " · ");
            concat(a.as_str(), s.as_str())
        },
        None => with_duration,
    }
}

/// The transcript row a session event projects to, if any.
pub fn project_session_event(event: &SessionEvent) -> (r: Option<TranscriptItem>)
    ensures
        opt_item_view(r) == project_view(event@),
{
    let p = &event.payload;
    proof {
        reveal_strlit("");
    }
    assert(""@ =~= Seq::<char>::empty());
    let turn_id = text_or_default(text_of(p, "turn_id"), "");
    let sequence = unsigned_of(p, "sequence");
    match event.event_kind {
        SessionEventKind::InputAdmittedToTurn | SessionEventKind::TurnStarted => match text_of(p, "content_preview") {
            Some(text) => {
                let input_id = match text_of(p, "input_event_id") {
                    Some(i) => i,
                    None => event.event_id.clone(),
                };
                Some(
                    TranscriptItem {
                        kind: TranscriptItemKind::OperatorInput,
                        actor: TranscriptActor::Operator,
                        turn_id,
                        text,
                        sequence,
                        projection_key: Some(concat("input:", input_id.as_str())),
                    },
                )
            },
            None => None,
        },
        SessionEventKind::ProviderTextDeltaRecorded => Some(
            TranscriptItem {
                kind: TranscriptItemKind::ProviderTextDelta,
                actor: TranscriptActor::Agent,
                turn_id,
                text: text_or_default(text_of(p, "text_delta"), ""),
                sequence,
                projection_key: None,
            },
        ),
        SessionEventKind::ProviderToolCallRequested => {
            let tool = text_or_default(text_of(p, "tool_name"), "tool");
            let args = text_or_default(text_of(p, "arguments_summary"), "");
            let a = concat(tool.as_str(), "(");
            let b = concat(a.as_str(), args.as_str());
            let text = concat(b.as_str(), ")");
            proof {
                reveal_strlit("(");
                reveal_strlit(")");
            }
            assert(text@ =~= tool@ + seq!['('] + args@ + seq![')']);
            Some(
                TranscriptItem {
                    kind: TranscriptItemKind::ToolCallRequest,
                    actor: TranscriptActor::Agent,
                    turn_id,
                    text,
                    sequence,
                    projection_key: None,
                },
            )
        },
        SessionEventKind::ToolResultReceived => Some(
            TranscriptItem {
                kind: TranscriptItemKind::ToolResult,
                actor: TranscriptActor::Tool,
                turn_id,
                text: tool_result_line(p),
                sequence,
                projection_key: None,
            },
        ),
        SessionEventKind::TurnCompleted | SessionEventKind::TurnFailed | SessionEventKind::TurnInterrupted => {
            let fallback = if event.event_kind == SessionEventKind::TurnCompleted {
                "completed"
            } else if event.event_kind == SessionEventKind::TurnFailed {
                "failed"
            } else {
                "interrupted"
            };
            Some(
                TranscriptItem {
                    kind: TranscriptItemKind::TurnTerminal,
                    actor: TranscriptActor::System,
                    turn_id,
                    text: text_or_default(text_of(p, "terminal_status"), fallback),
                    sequence,
                    projection_key: None,
                },
            )
        },
        _ => None,
    }
}

} // verus!
