//! Classification of an input event against the carrier input pipeline:
//! whether it is admitted, queued, rejected or held, what it dispatches,
//! and which pipeline events it records.
use vstd::prelude::*;
use crate::carrier_protocol::{DeliveryMode, HoldCondition, InputEvent, SourceKind};
use crate::carrier_protocol_contract::{
    observer_visibility_default, observer_visibility_is_valid, protocol_observer_visibility_default,
    protocol_observer_visibility_values,
};
use crate::json::{field, get, is_object_value, nested_text, nested_text_of, opt_str_view, text_field, text_of, Json};
use crate::text::{owned, str_eq, strs};

verus! {

/// What the classifier needs to know of the carrier's state.
#[derive(Debug, Clone, Copy, PartialEq, Eq)]
pub struct CarrierInputPipelineState {
    pub active_turn: bool,
    pub composer_has_draft: bool,
    pub observer_muted: bool,
}

/// The classifier's decision for one input event.
#[derive(Debug, Clone, PartialEq, Eq)]
pub struct CarrierInputPipelineAdmission {
    pub admission_action: String,
    pub queue_state: Option<String>,
    pub creates_turn: bool,
    pub complete_without_provider: bool,
    pub dispatch_to_provider: bool,
    pub directive_visibility: Option<String>,
    pub visible_to_operator: bool,
    pub suppression_reason: Option<String>,
    pub queue_event_kinds: Vec<String>,
    pub admission_event_kinds: Vec<String>,
    pub visible_event_kinds: Vec<String>,
    pub hold_action: String,
    pub hold_event_kinds: Vec<String>,
    pub should_defer: bool,
}

/// The mathematical form of a decision.
pub struct AdmissionView {
    pub admission_action: Seq<char>,
    pub queue_state: Option<Seq<char>>,
    pub creates_turn: bool,
    pub complete_without_provider: bool,
    pub dispatch_to_provider: bool,
    pub directive_visibility: Option<Seq<char>>,
    pub visible_to_operator: bool,
    pub suppression_reason: Option<Seq<char>>,
    pub queue_event_kinds: Seq<Seq<char>>,
    pub admission_event_kinds: Seq<Seq<char>>,
    pub visible_event_kinds: Seq<Seq<char>>,
    pub hold_action: Seq<char>,
    pub hold_event_kinds: Seq<Seq<char>>,
    pub should_defer: bool,
}

impl View for CarrierInputPipelineAdmission {
    type V = AdmissionView;

    open spec fn view(&self) -> AdmissionView {
        AdmissionView {
            admission_action: self.admission_action@,
            queue_state: opt_str_view(self.queue_state),
            creates_turn: self.creates_turn,
            complete_without_provider: self.complete_without_provider,
            dispatch_to_provider: self.dispatch_to_provider,
            directive_visibility: opt_str_view(self.directive_visibility),
            visible_to_operator: self.visible_to_operator,
            suppression_reason: opt_str_view(self.suppression_reason),
            queue_event_kinds: strs(self.queue_event_kinds@),
            admission_event_kinds: strs(self.admission_event_kinds@),
            visible_event_kinds: strs(self.visible_event_kinds@),
            hold_action: self.hold_action@,
            hold_event_kinds: strs(self.hold_event_kinds@),
            should_defer: self.should_defer,
        }
    }
}

/// Whether the input is a directive: it has a directive id or an object
/// under `metadata.directive`.
pub open spec fn is_directive(input: InputEvent) -> bool {
    input.directive_id is Some || (field(input.metadata@, "directive"@) matches Some(Json::Object(_)))
}

/// The visibility a directive asks for; unknown values fall back to agent-visible.
pub open spec fn directive_visibility_of(input: InputEvent) -> Option<Seq<char>> {
    if !is_directive(input) {
        None
    } else {
        let v = nested_text(input.metadata@, "directive"@, "visibility"@);
        if v == Some("record_only"@) || v == Some("operator_visible"@) || v == Some(
            "conversation_visible"@,
        ) || v == Some("agent_visible"@) {
            v
        } else {
            Some("agent_visible"@)
        }
    }
}

/// Whether the input comes from the system directive channel.
pub open spec fn is_system_directive(input: InputEvent) -> bool {
    input.source_kind == SourceKind::System
        || text_field(input.metadata@, "legacy_source"@) == Some("system_directive"@)
        || nested_text(input.metadata@, "directive_provenance"@, "kind"@) == Some("system_directive"@)
}

/// Whether the input comes from an observer.
pub open spec fn is_observer_input(input: InputEvent) -> bool {
    nested_text(input.metadata@, "observer"@, "role"@) == Some("observer"@)
}

/// The observer's visibility when the contract admits it, else the contract default.
pub open spec fn observer_visibility_of(input: InputEvent) -> Seq<char> {
    match nested_text(input.metadata@, "observer"@, "visibility"@) {
        Some(v) => if protocol_observer_visibility_values().contains(v) {
            v
        } else {
            protocol_observer_visibility_default()
        },
        None => protocol_observer_visibility_default(),
    }
}

pub open spec fn kinds_if(c: bool, k: Seq<char>) -> Seq<Seq<char>> {
    if c {
        seq![k]
    } else {
        seq![]
    }
}

/// The classification of an input event in a carrier state.
pub open spec fn classify_view(input: InputEvent, state: CarrierInputPipelineState) -> AdmissionView {
    let is_observer = is_observer_input(input);
    let visibility = observer_visibility_of(input);
    let dv = directive_visibility_of(input);
    let record_only = dv == Some("record_only"@);
    let interjection = is_observer && visibility != "record_only"@;
    let suppressed = interjection && state.observer_muted;
    let observer_dispatch = is_observer && (visibility == "agent_visible"@ || visibility
        == "conversation_visible"@) && !suppressed;
    let visible = is_observer && (visibility == "operator_visible"@ || visibility
        == "conversation_visible"@) && !suppressed;
    let should_hold = !record_only && is_system_directive(input) && state.composer_has_draft
        && input.hold_condition == Some(HoldCondition::ComposerClearRequired);
    let action: Seq<char> = if should_hold {
        "hold"@
    } else if record_only {
        "admit"@
    } else if input.delivery_mode == DeliveryMode::AdmitForCurrentTurn && state.active_turn {
        "reject"@
    } else if input.delivery_mode == DeliveryMode::AdmitAfterActiveTurn && state.active_turn {
        "queue"@
    } else {
        "admit"@
    };
    let admitted = action == "admit"@;
    let creates_turn = !record_only && admitted && (!is_observer || observer_dispatch);
    let base: Seq<Seq<char>> = if record_only && admitted {
        seq!["directive_receipt_recorded"@, "directive_carrier_accepted_recorded"@]
    } else if is_observer {
        seq!["observer_observation_recorded"@]
            + kinds_if(visibility != "record_only"@, "observer_interjection_proposed"@)
            + kinds_if(admitted && suppressed, "observer_interjection_suppressed"@)
            + kinds_if(admitted && !suppressed && visibility != "record_only"@, "observer_interjection_admitted"@)
    } else {
        seq![]
    };
    AdmissionView {
        admission_action: action,
        queue_state: if input.delivery_mode == DeliveryMode::AdmitAfterActiveTurn {
            Some("queued_for_turn_boundary"@)
        } else {
            None
        },
        creates_turn,
        complete_without_provider: record_only || (admitted && is_observer && (!observer_dispatch
            || suppressed)),
        dispatch_to_provider: !record_only && observer_dispatch,
        directive_visibility: dv,
        visible_to_operator: !record_only && visible,
        suppression_reason: if suppressed {
            Some("observer_muted"@)
        } else {
            None
        },
        queue_event_kinds: kinds_if(
            input.delivery_mode == DeliveryMode::AdmitAfterActiveTurn && !record_only,
            "input_queued_for_turn_boundary"@,
        ),
        admission_event_kinds: base + kinds_if(creates_turn, "input_admitted_to_turn"@),
        visible_event_kinds: kinds_if(
            !(record_only && admitted) && is_observer && admitted && visible,
            "observer_interjection_visible"@,
        ),
        hold_action: if should_hold {
            "hold"@
        } else {
            "none"@
        },
        hold_event_kinds: kinds_if(should_hold, "system_directive_held"@),
        should_defer: should_hold,
    }
}

fn text_is(value: &Option<String>, expected: &str) -> (r: bool)
    ensures
        r == (opt_str_view(*value) == Some(expected@)),
{
    match value {
        Some(v) => str_eq(v.as_str(), expected),
        None => false,
    }
}

fn directive_visibility(input: &InputEvent) -> (r: Option<String>)
    ensures
        opt_str_view(r) == directive_visibility_of(*input),
{
    let directive_object = match get(&input.metadata, "directive") {
        Some(d) => is_object_value(d),
        None => false,
    };
    if !(input.directive_id.is_some() || directive_object) {
        return None;
    }
    let v = nested_text_of(&input.metadata, "directive", "visibility");
    if text_is(&v, "record_only") || text_is(&v, "operator_visible") || text_is(&v, "conversation_visible")
        || text_is(&v, "agent_visible") {
        v
    } else {
        Some(owned("agent_visible"))
    }
}

fn is_system_directive_input(input: &InputEvent) -> (r: bool)
    ensures
        r == is_system_directive(*input),
{
    input.source_kind == SourceKind::System || text_is(
        &text_of(&input.metadata, "legacy_source"),
        "system_directive",
    ) || text_is(&nested_text_of(&input.metadata, "directive_provenance", "kind"), "system_directive")
}

fn is_observer_input_event(input: &InputEvent) -> (r: bool)
    ensures
        r == is_observer_input(*input),
{
    text_is(&nested_text_of(&input.metadata, "observer", "role"), "observer")
}

fn observer_visibility(input: &InputEvent) -> (r: String)
    ensures
        r@ == observer_visibility_of(*input),
{
    match nested_text_of(&input.metadata, "observer", "visibility") {
        Some(v) => if observer_visibility_is_valid(v.as_str()) {
            v
        } else {
            observer_visibility_default()
        },
        None => observer_visibility_default(),
    }
}

fn kinds_when(c: bool, k: &str) -> (r: Vec<String>)
    ensures
        strs(r@) == kinds_if(c, k@),
{
    let mut v: Vec<String> = Vec::new();
    if c {
        v.push(owned(k));
        assert(strs(v@) =~= seq![k@]);
    } else {
        assert(strs(v@) =~= Seq::<Seq<char>>::empty());
    }
    v
}

fn push_str(v: &mut Vec<String>, k: &str)
    ensures
        strs(final(v)@) == strs(old(v)@).push(k@),
{
    v.push(owned(k));
    assert(strs(v@) =~= strs(old(v)@).push(k@));
}

/// Classifies an input event against the carrier input pipeline.
pub fn classify_carrier_input_pipeline(
    input: &InputEvent,
    state: CarrierInputPipelineState,
) -> (r: CarrierInputPipelineAdmission)
    ensures
        r@ == classify_view(*input, state),
{
    let is_observer = is_observer_input_event(input);
    let visibility = observer_visibility(input);
    let directive_visibility = directive_visibility(input);
    let vis = visibility.as_str();
    let record_only = text_is(&directive_visibility, "record_only");
    let interjection = is_observer && !str_eq(vis, "record_only");
    let suppressed = interjection && state.observer_muted;
    let observer_dispatch = is_observer && (str_eq(vis, "agent_visible") || str_eq(
        vis,
        "conversation_visible",
    )) && !suppressed;
    let visible = is_observer && (str_eq(vis, "operator_visible") || str_eq(vis, "conversation_visible"))
        && !suppressed;
    let should_hold = !record_only && is_system_directive_input(input) && state.composer_has_draft
        && input.hold_condition == Some(HoldCondition::ComposerClearRequired);
    let action: &str = if should_hold {
        "hold"
    } else if record_only {
        "admit"
    } else if input.delivery_mode == DeliveryMode::AdmitForCurrentTurn && state.active_turn {
        "reject"
    } else if input.delivery_mode == DeliveryMode::AdmitAfterActiveTurn && state.active_turn {
        "queue"
    } else {
        "admit"
    };
    let admitted = str_eq(action, "admit");
    proof {
        reveal_strlit("hold");
        reveal_strlit("admit");
        reveal_strlit("reject");
        reveal_strlit("queue");
    }
    let creates_turn = !record_only && admitted && (!is_observer || observer_dispatch);
    let mut admission_event_kinds: Vec<String> = Vec::new();
    if record_only && admitted {
        push_str(&mut admission_event_kinds, "directive_receipt_recorded");
        push_str(&mut admission_event_kinds, "directive_carrier_accepted_recorded");
    } else if is_observer {
        push_str(&mut admission_event_kinds, "observer_observation_recorded");
        if !str_eq(vis, "record_only") {
            push_str(&mut admission_event_kinds, "observer_interjection_proposed");
        }
        if admitted {
            if suppressed {
                push_str(&mut admission_event_kinds, "observer_interjection_suppressed");
            } else if !str_eq(vis, "record_only") {
                push_str(&mut admission_event_kinds, "observer_interjection_admitted");
            }
        }
    }
    if creates_turn {
        push_str(&mut admission_event_kinds, "input_admitted_to_turn");
    }
    let ghost view = classify_view(*input, state);
    assert(strs(admission_event_kinds@) =~= view.admission_event_kinds);
    CarrierInputPipelineAdmission {
        admission_action: owned(action),
        queue_state: if input.delivery_mode == DeliveryMode::AdmitAfterActiveTurn {
            Some(owned("queued_for_turn_boundary"))
        } else {
            None
        },
        creates_turn,
        complete_without_provider: record_only || (admitted && is_observer && (!observer_dispatch
            || suppressed)),
        dispatch_to_provider: !record_only && observer_dispatch,
        directive_visibility,
        visible_to_operator: !record_only && visible,
        suppression_reason: if suppressed {
            Some(owned("observer_muted"))
        } else {
            None
        },
        queue_event_kinds: kinds_when(
            input.delivery_mode == DeliveryMode::AdmitAfterActiveTurn && !record_only,
            "input_queued_for_turn_boundary",
        ),
        admission_event_kinds,
        visible_event_kinds: kinds_when(
            !(record_only && admitted) && is_observer && admitted && visible,
            "observer_interjection_visible",
        ),
        hold_action: if should_hold {
            owned("hold")
        } else {
            owned("none")
        },
        hold_event_kinds: kinds_when(should_hold, "system_directive_held"),
        should_defer: should_hold,
    }
}

} // verus!
