//! Carrier protocol records that the projection reads: input events with
//! their delivery and hold metadata, and session events.
use vstd::prelude::*;
use crate::json::{Json, JsonValue};

verus! {

/// Who produced an input event.
#[derive(Debug, Clone, Copy, PartialEq, Eq, Structural)]
pub enum SourceKind {
    Operator,
    System,
    Observer,
    Agent,
}

/// When an input event asks to be admitted.
#[derive(Debug, Clone, Copy, PartialEq, Eq, Structural)]
pub enum DeliveryMode {
    AdmitNow,
    AdmitForCurrentTurn,
    AdmitAfterActiveTurn,
}

/// What must hold before a held input is released.
#[derive(Debug, Clone, Copy, PartialEq, Eq, Structural)]
pub enum HoldCondition {
    ComposerClearRequired,
}

/// An input event offered to the carrier.
#[derive(Debug)]
pub struct InputEvent {
    pub event_id: String,
    pub source_kind: SourceKind,
    pub delivery_mode: DeliveryMode,
    pub hold_condition: Option<HoldCondition>,
    pub directive_id: Option<String>,
    pub content: String,
    pub metadata: JsonValue,
}

/// The kinds of session events in the carrier vocabulary.
#[derive(Debug, Clone, Copy, PartialEq, Eq, Structural)]
pub enum SessionEventKind {
    CarrierSessionStarted,
    InputQueuedForTurnBoundary,
    InputAdmittedToTurn,
    InputCompleted,
    InputDroppedByOperator,
    InputAbandonedOnSessionEnd,
    SystemDirectiveHeld,
    SystemDirectiveReleased,
    TurnStarted,
    ProviderRequestRecorded,
    ProviderTextDeltaRecorded,
    ProviderToolCallRequested,
    ToolCallRequested,
    ToolResultReceived,
    TurnCompleted,
    TurnFailed,
    TurnInterrupted,
    CarrierSessionClosed,
    CarrierDiagnosticRecorded,
}

/// A session event as the projection receives it.
#[derive(Debug)]
pub struct SessionEvent {
    pub schema: String,
    pub event_kind: SessionEventKind,
    pub event_id: String,
    pub occurred_at: String,
    pub carrier_session_id: String,
    pub agent_id: String,
    pub site_id: String,
    pub site_root: String,
    pub payload: JsonValue,
}

/// The mathematical form of a session event.
pub struct SessionEventView {
    pub schema: Seq<char>,
    pub event_kind: SessionEventKind,
    pub event_id: Seq<char>,
    pub occurred_at: Seq<char>,
    pub carrier_session_id: Seq<char>,
    pub agent_id: Seq<char>,
    pub site_id: Seq<char>,
    pub site_root: Seq<char>,
    pub payload: Json,
}

impl View for SessionEvent {
    type V = SessionEventView;

    open spec fn view(&self) -> SessionEventView {
        SessionEventView {
            schema: self.schema@,
            event_kind: self.event_kind,
            event_id: self.event_id@,
            occurred_at: self.occurred_at@,
            carrier_session_id: self.carrier_session_id@,
            agent_id: self.agent_id@,
            site_id: self.site_id@,
            site_root: self.site_root@,
            payload: self.payload@,
        }
    }
}

} // verus!
