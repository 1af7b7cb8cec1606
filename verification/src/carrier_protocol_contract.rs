//! The carrier protocol contract: the vocabularies (schemas, id prefixes,
//! statuses, actions, reasons, event kinds) that carrier events are
//! written in, and the membership checks over them.
use vstd::prelude::*;
use crate::text::{is_blank, list_contains, owned, str_eq, string_list, strs};

verus! {

/// The `schemas` section of the protocol contract.
#[derive(Debug)]
pub struct CarrierProtocolSchemas {
    pub input_event: String,
    pub control_input_event: String,
    pub session_event: String,
    pub payload_ref: String,
    pub payload_policy: String,
    pub provider_request_payload: String,
    pub provider_output_payload: String,
    pub turn_terminal_payload: String,
    pub session_event_fixture_manifest: String,
}

/// The `id_prefixes` section of the protocol contract.
#[derive(Debug)]
pub struct CarrierProtocolIdPrefixes {
    pub input_event: String,
    pub control_event: String,
    pub session_event: String,
}

/// The `diagnostic` section of the protocol contract.
#[derive(Debug)]
pub struct CarrierProtocolDiagnostic {
    pub levels: Vec<String>,
    pub warning_level: String,
    pub info_level: String,
}

/// The `turn_terminal_status` section of the protocol contract.
#[derive(Debug)]
pub struct CarrierProtocolTurnTerminalStatus {
    pub completed: Vec<String>,
    pub interrupted: Vec<String>,
    pub failed: Vec<String>,
}

/// The `terminal_state` section of the protocol contract.
#[derive(Debug)]
pub struct CarrierProtocolTerminalState {
    pub values: Vec<String>,
}

/// The `delivery_mode` section of the protocol contract.
#[derive(Debug)]
pub struct CarrierProtocolDeliveryMode {
    pub values: Vec<String>,
}

/// The `observer_visibility` section of the protocol contract.
#[derive(Debug)]
pub struct CarrierProtocolObserverVisibility {
    pub values: Vec<String>,
    pub default: String,
}

/// The `queue_state` section of the protocol contract.
#[derive(Debug)]
pub struct CarrierProtocolQueueState {
    pub values: Vec<String>,
}

/// The `input_admission_action` section of the protocol contract.
#[derive(Debug)]
pub struct CarrierProtocolInputAdmissionAction {
    pub values: Vec<String>,
}

/// The `input_hold_action` section of the protocol contract.
#[derive(Debug)]
pub struct CarrierProtocolInputHoldAction {
    pub values: Vec<String>,
}

/// The `observer_suppression_reason` section of the protocol contract.
#[derive(Debug)]
pub struct CarrierProtocolObserverSuppressionReason {
    pub values: Vec<String>,
}

/// The `tool_result_status` section of the protocol contract.
#[derive(Debug)]
pub struct CarrierProtocolToolResultStatus {
    pub values: Vec<String>,
}

/// The `tool_effect_admission_action` section of the protocol contract.
#[derive(Debug)]
pub struct CarrierProtocolToolEffectAdmissionAction {
    pub values: Vec<String>,
}

/// The `tool_effect_admission_reason` section of the protocol contract.
#[derive(Debug)]
pub struct CarrierProtocolToolEffectAdmissionReason {
    pub values: Vec<String>,
}

/// The `input_pipeline_event_kind` section of the protocol contract.
#[derive(Debug)]
pub struct CarrierProtocolInputPipelineEventKind {
    pub queue: Vec<String>,
    pub admission: Vec<String>,
    pub visible: Vec<String>,
    pub hold: Vec<String>,
    pub release: Vec<String>,
}

/// The carrier protocol contract.
#[derive(Debug)]
pub struct CarrierProtocolContract {
    pub schema: String,
    pub schemas: CarrierProtocolSchemas,
    pub id_prefixes: CarrierProtocolIdPrefixes,
    pub diagnostic: CarrierProtocolDiagnostic,
    pub turn_terminal_status: CarrierProtocolTurnTerminalStatus,
    pub terminal_state: CarrierProtocolTerminalState,
    pub delivery_mode: CarrierProtocolDeliveryMode,
    pub observer_visibility: CarrierProtocolObserverVisibility,
    pub queue_state: CarrierProtocolQueueState,
    pub input_admission_action: CarrierProtocolInputAdmissionAction,
    pub input_hold_action: CarrierProtocolInputHoldAction,
    pub observer_suppression_reason: CarrierProtocolObserverSuppressionReason,
    pub tool_result_status: CarrierProtocolToolResultStatus,
    pub tool_effect_admission_action: CarrierProtocolToolEffectAdmissionAction,
    pub tool_effect_admission_reason: CarrierProtocolToolEffectAdmissionReason,
    pub input_pipeline_event_kind: CarrierProtocolInputPipelineEventKind,
}

/// The schema the protocol contract declares.
pub open spec fn protocol_contract_schema() -> Seq<char> {
    "narada.carrier.protocol_contract.v1"@
}

/// The bundled `schemas.input_event`.
pub open spec fn protocol_schemas_input_event() -> Seq<char> {
    "narada.carrier.input_event.v1"@
}

/// The bundled `schemas.control_input_event`.
pub open spec fn protocol_schemas_control_input_event() -> Seq<char> {
    "narada.carrier.control_input_event.v1"@
}

/// The bundled `schemas.session_event`.
pub open spec fn protocol_schemas_session_event() -> Seq<char> {
    "narada.carrier.session_event.v1"@
}

/// The bundled `schemas.payload_ref`.
pub open spec fn protocol_schemas_payload_ref() -> Seq<char> {
    "narada.carrier.payload_ref.v1"@
}

/// The bundled `schemas.payload_policy`.
pub open spec fn protocol_schemas_payload_policy() -> Seq<char> {
    "narada.carrier.payload_policy.v1"@
}

/// The bundled `schemas.provider_request_payload`.
pub open spec fn protocol_schemas_provider_request_payload() -> Seq<char> {
    "narada.carrier.provider_request_payload.v1"@
}

/// The bundled `schemas.provider_output_payload`.
pub open spec fn protocol_schemas_provider_output_payload() -> Seq<char> {
    "narada.carrier.provider_output_payload.v1"@
}

/// The bundled `schemas.turn_terminal_payload`.
pub open spec fn protocol_schemas_turn_terminal_payload() -> Seq<char> {
    "narada.carrier.turn_terminal_payload.v1"@
}

/// The bundled `schemas.session_event_fixture_manifest`.
pub open spec fn protocol_schemas_session_event_fixture_manifest() -> Seq<char> {
    "narada.carrier.session_event_fixture_manifest.v1"@
}

/// The bundled `id_prefixes.input_event`.
pub open spec fn protocol_id_prefixes_input_event() -> Seq<char> {
    "input_"@
}

/// The bundled `id_prefixes.control_event`.
pub open spec fn protocol_id_prefixes_control_event() -> Seq<char> {
    "control_"@
}

/// The bundled `id_prefixes.session_event`.
pub open spec fn protocol_id_prefixes_session_event() -> Seq<char> {
    "session_event_"@
}

/// The bundled `diagnostic.levels`.
pub open spec fn protocol_diagnostic_levels() -> Seq<Seq<char>> {
    seq!["info"@, "warn"@, "error"@]
}

/// The bundled `diagnostic.warning_level`.
pub open spec fn protocol_diagnostic_warning_level() -> Seq<char> {
    "warn"@
}

/// The bundled `diagnostic.info_level`.
pub open spec fn protocol_diagnostic_info_level() -> Seq<char> {
    "info"@
}

/// The bundled `turn_terminal_status.completed`.
pub open spec fn protocol_turn_terminal_status_completed() -> Seq<Seq<char>> {
    seq!["completed"@, "completed_without_provider"@]
}

/// The bundled `turn_terminal_status.interrupted`.
pub open spec fn protocol_turn_terminal_status_interrupted() -> Seq<Seq<char>> {
    seq!["interrupted"@]
}

/// The bundled `turn_terminal_status.failed`.
pub open spec fn protocol_turn_terminal_status_failed() -> Seq<Seq<char>> {
    seq!["failed"@]
}

/// The bundled `terminal_state.values`.
pub open spec fn protocol_terminal_state_values() -> Seq<Seq<char>> {
    seq!["completed"@, "interrupted"@, "failed"@]
}

/// The bundled `delivery_mode.values`.
pub open spec fn protocol_delivery_mode_values() -> Seq<Seq<char>> {
    seq!["admit_now"@, "admit_for_current_turn"@, "admit_after_active_turn"@]
}

/// The bundled `observer_visibility.values`.
pub open spec fn protocol_observer_visibility_values() -> Seq<Seq<char>> {
    seq!["record_only"@, "operator_visible"@, "conversation_visible"@, "agent_visible"@]
}

/// The bundled `observer_visibility.default`.
pub open spec fn protocol_observer_visibility_default() -> Seq<char> {
    "operator_visible"@
}

/// The bundled `queue_state.values`.
pub open spec fn protocol_queue_state_values() -> Seq<Seq<char>> {
    seq!["queued_for_turn_boundary"@]
}

/// The bundled `input_admission_action.values`.
pub open spec fn protocol_input_admission_action_values() -> Seq<Seq<char>> {
    seq!["admit"@, "queue"@, "reject"@, "hold"@]
}

/// The bundled `input_hold_action.values`.
pub open spec fn protocol_input_hold_action_values() -> Seq<Seq<char>> {
    seq!["none"@, "hold"@, "release"@]
}

/// The bundled `observer_suppression_reason.values`.
pub open spec fn protocol_observer_suppression_reason_values() -> Seq<Seq<char>> {
    seq!["observer_muted"@]
}

/// The bundled `tool_result_status.values`.
pub open spec fn protocol_tool_result_status_values() -> Seq<Seq<char>> {
    seq!["ok"@, "error"@, "denied"@]
}

/// The bundled `tool_effect_admission_action.values`.
pub open spec fn protocol_tool_effect_admission_action_values() -> Seq<Seq<char>> {
    seq!["allow"@, "deny"@]
}

/// The bundled `tool_effect_admission_reason.values`.
pub open spec fn protocol_tool_effect_admission_reason_values() -> Seq<Seq<char>> {
    seq!["tool_effect_admission_required"@, "tool_effect_denied_by_policy"@]
}

/// The bundled `input_pipeline_event_kind.queue`.
pub open spec fn protocol_input_pipeline_event_kind_queue() -> Seq<Seq<char>> {
    seq!["input_queued_for_turn_boundary"@]
}

/// The bundled `input_pipeline_event_kind.admission`.
pub open spec fn protocol_input_pipeline_event_kind_admission() -> Seq<Seq<char>> {
    seq!["directive_receipt_recorded"@, "directive_carrier_accepted_recorded"@, "observer_observation_recorded"@, "observer_interjection_proposed"@, "observer_interjection_suppressed"@, "observer_interjection_admitted"@, "input_admitted_to_turn"@]
}

/// The bundled `input_pipeline_event_kind.visible`.
pub open spec fn protocol_input_pipeline_event_kind_visible() -> Seq<Seq<char>> {
    seq!["observer_interjection_visible"@]
}

/// The bundled `input_pipeline_event_kind.hold`.
pub open spec fn protocol_input_pipeline_event_kind_hold() -> Seq<Seq<char>> {
    seq!["system_directive_held"@]
}

/// The bundled `input_pipeline_event_kind.release`.
pub open spec fn protocol_input_pipeline_event_kind_release() -> Seq<Seq<char>> {
    seq!["system_directive_released"@]
}

/// Whether a contract holds exactly the bundled vocabulary.
pub open spec fn is_bundled_protocol(c: CarrierProtocolContract) -> bool {
    &&& c.schema@ == protocol_contract_schema()
    &&& c.schemas.input_event@ == protocol_schemas_input_event()
    &&& c.schemas.control_input_event@ == protocol_schemas_control_input_event()
    &&& c.schemas.session_event@ == protocol_schemas_session_event()
    &&& c.schemas.payload_ref@ == protocol_schemas_payload_ref()
    &&& c.schemas.payload_policy@ == protocol_schemas_payload_policy()
    &&& c.schemas.provider_request_payload@ == protocol_schemas_provider_request_payload()
    &&& c.schemas.provider_output_payload@ == protocol_schemas_provider_output_payload()
    &&& c.schemas.turn_terminal_payload@ == protocol_schemas_turn_terminal_payload()
    &&& c.schemas.session_event_fixture_manifest@ == protocol_schemas_session_event_fixture_manifest()
    &&& c.id_prefixes.input_event@ == protocol_id_prefixes_input_event()
    &&& c.id_prefixes.control_event@ == protocol_id_prefixes_control_event()
    &&& c.id_prefixes.session_event@ == protocol_id_prefixes_session_event()
    &&& strs(c.diagnostic.levels@) == protocol_diagnostic_levels()
    &&& c.diagnostic.warning_level@ == protocol_diagnostic_warning_level()
    &&& c.diagnostic.info_level@ == protocol_diagnostic_info_level()
    &&& strs(c.turn_terminal_status.completed@) == protocol_turn_terminal_status_completed()
    &&& strs(c.turn_terminal_status.interrupted@) == protocol_turn_terminal_status_interrupted()
    &&& strs(c.turn_terminal_status.failed@) == protocol_turn_terminal_status_failed()
    &&& strs(c.terminal_state.values@) == protocol_terminal_state_values()
    &&& strs(c.delivery_mode.values@) == protocol_delivery_mode_values()
    &&& strs(c.observer_visibility.values@) == protocol_observer_visibility_values()
    &&& c.observer_visibility.default@ == protocol_observer_visibility_default()
    &&& strs(c.queue_state.values@) == protocol_queue_state_values()
    &&& strs(c.input_admission_action.values@) == protocol_input_admission_action_values()
    &&& strs(c.input_hold_action.values@) == protocol_input_hold_action_values()
    &&& strs(c.observer_suppression_reason.values@) == protocol_observer_suppression_reason_values()
    &&& strs(c.tool_result_status.values@) == protocol_tool_result_status_values()
    &&& strs(c.tool_effect_admission_action.values@) == protocol_tool_effect_admission_action_values()
    &&& strs(c.tool_effect_admission_reason.values@) == protocol_tool_effect_admission_reason_values()
    &&& strs(c.input_pipeline_event_kind.queue@) == protocol_input_pipeline_event_kind_queue()
    &&& strs(c.input_pipeline_event_kind.admission@) == protocol_input_pipeline_event_kind_admission()
    &&& strs(c.input_pipeline_event_kind.visible@) == protocol_input_pipeline_event_kind_visible()
    &&& strs(c.input_pipeline_event_kind.hold@) == protocol_input_pipeline_event_kind_hold()
    &&& strs(c.input_pipeline_event_kind.release@) == protocol_input_pipeline_event_kind_release()
}

/// The first failed check of a contract read from JSON, if any.
pub open spec fn protocol_problem(c: CarrierProtocolContract) -> Option<Seq<char>> {
    if c.schema@ != protocol_contract_schema() {
        Some("carrier_protocol_contract_invalid:schema"@)
    } else if c.id_prefixes.input_event@.len() == 0 || c.id_prefixes.control_event@.len() == 0 || c.id_prefixes.session_event@.len() == 0 {
        Some("carrier_protocol_contract_invalid:id_prefixes"@)
    } else if c.diagnostic.levels@.len() == 0 || c.diagnostic.warning_level@.len() == 0 || c.diagnostic.info_level@.len() == 0 {
        Some("carrier_protocol_contract_invalid:diagnostic_levels"@)
    } else if c.turn_terminal_status.completed@.len() == 0 || c.turn_terminal_status.interrupted@.len() == 0 || c.turn_terminal_status.failed@.len() == 0 {
        Some("carrier_protocol_contract_invalid:turn_terminal_status"@)
    } else if c.terminal_state.values@.len() == 0 {
        Some("carrier_protocol_contract_invalid:terminal_state"@)
    } else if c.delivery_mode.values@.len() == 0 {
        Some("carrier_protocol_contract_invalid:delivery_mode"@)
    } else if c.observer_visibility.values@.len() == 0 || c.observer_visibility.default@.len() == 0 {
        Some("carrier_protocol_contract_invalid:observer_visibility"@)
    } else if c.queue_state.values@.len() == 0 {
        Some("carrier_protocol_contract_invalid:queue_state"@)
    } else if c.input_admission_action.values@.len() == 0 {
        Some("carrier_protocol_contract_invalid:input_admission_action"@)
    } else if c.input_hold_action.values@.len() == 0 {
        Some("carrier_protocol_contract_invalid:input_hold_action"@)
    } else if c.observer_suppression_reason.values@.len() == 0 {
        Some("carrier_protocol_contract_invalid:observer_suppression_reason"@)
    } else if c.tool_result_status.values@.len() == 0 {
        Some("carrier_protocol_contract_invalid:tool_result_status"@)
    } else if c.tool_effect_admission_action.values@.len() == 0 {
        Some("carrier_protocol_contract_invalid:tool_effect_admission_action"@)
    } else if c.tool_effect_admission_reason.values@.len() == 0 {
        Some("carrier_protocol_contract_invalid:tool_effect_admission_reason"@)
    } else if c.input_pipeline_event_kind.queue@.len() == 0 || c.input_pipeline_event_kind.admission@.len() == 0 || c.input_pipeline_event_kind.hold@.len() == 0 {
        Some("carrier_protocol_contract_invalid:input_pipeline_event_kind"@)
    } else {
        None
    }
}

/// The bundled carrier protocol contract.
pub fn carrier_protocol_contract() -> (c: CarrierProtocolContract)
    ensures
        is_bundled_protocol(c),
{
    let schemas = CarrierProtocolSchemas {
        input_event: owned("narada.carrier.input_event.v1"),
        control_input_event: owned("narada.carrier.control_input_event.v1"),
        session_event: owned("narada.carrier.session_event.v1"),
        payload_ref: owned("narada.carrier.payload_ref.v1"),
        payload_policy: owned("narada.carrier.payload_policy.v1"),
        provider_request_payload: owned("narada.carrier.provider_request_payload.v1"),
        provider_output_payload: owned("narada.carrier.provider_output_payload.v1"),
        turn_terminal_payload: owned("narada.carrier.turn_terminal_payload.v1"),
        session_event_fixture_manifest: owned("narada.carrier.session_event_fixture_manifest.v1"),
    };
    let id_prefixes = CarrierProtocolIdPrefixes {
        input_event: owned("input_"),
        control_event: owned("control_"),
        session_event: owned("session_event_"),
    };
    let diagnostic = CarrierProtocolDiagnostic {
        levels: string_list(&["info", "warn", "error"]),
        warning_level: owned("warn"),
        info_level: owned("info"),
    };
    assert(strs(diagnostic.levels@) =~= protocol_diagnostic_levels());
    let turn_terminal_status = CarrierProtocolTurnTerminalStatus {
        completed: string_list(&["completed", "completed_without_provider"]),
        interrupted: string_list(&["interrupted"]),
        failed: string_list(&["failed"]),
    };
    assert(strs(turn_terminal_status.completed@) =~= protocol_turn_terminal_status_completed());
    assert(strs(turn_terminal_status.interrupted@) =~= protocol_turn_terminal_status_interrupted());
    assert(strs(turn_terminal_status.failed@) =~= protocol_turn_terminal_status_failed());
    let terminal_state = CarrierProtocolTerminalState {
        values: string_list(&["completed", "interrupted", "failed"]),
    };
    assert(strs(terminal_state.values@) =~= protocol_terminal_state_values());
    let delivery_mode = CarrierProtocolDeliveryMode {
        values: string_list(&["admit_now", "admit_for_current_turn", "admit_after_active_turn"]),
    };
    assert(strs(delivery_mode.values@) =~= protocol_delivery_mode_values());
    let observer_visibility = CarrierProtocolObserverVisibility {
        values: string_list(&["record_only", "operator_visible", "conversation_visible", "agent_visible"]),
        default: owned("operator_visible"),
    };
    assert(strs(observer_visibility.values@) =~= protocol_observer_visibility_values());
    let queue_state = CarrierProtocolQueueState {
        values: string_list(&["queued_for_turn_boundary"]),
    };
    assert(strs(queue_state.values@) =~= protocol_queue_state_values());
    let input_admission_action = CarrierProtocolInputAdmissionAction {
        values: string_list(&["admit", "queue", "reject", "hold"]),
    };
    assert(strs(input_admission_action.values@) =~= protocol_input_admission_action_values());
    let input_hold_action = CarrierProtocolInputHoldAction {
        values: string_list(&["none", "hold", "release"]),
    };
    assert(strs(input_hold_action.values@) =~= protocol_input_hold_action_values());
    let observer_suppression_reason = CarrierProtocolObserverSuppressionReason {
        values: string_list(&["observer_muted"]),
    };
    assert(strs(observer_suppression_reason.values@) =~= protocol_observer_suppression_reason_values());
    let tool_result_status = CarrierProtocolToolResultStatus {
        values: string_list(&["ok", "error", "denied"]),
    };
    assert(strs(tool_result_status.values@) =~= protocol_tool_result_status_values());
    let tool_effect_admission_action = CarrierProtocolToolEffectAdmissionAction {
        values: string_list(&["allow", "deny"]),
    };
    assert(strs(tool_effect_admission_action.values@) =~= protocol_tool_effect_admission_action_values());
    let tool_effect_admission_reason = CarrierProtocolToolEffectAdmissionReason {
        values: string_list(&["tool_effect_admission_required", "tool_effect_denied_by_policy"]),
    };
    assert(strs(tool_effect_admission_reason.values@) =~= protocol_tool_effect_admission_reason_values());
    let input_pipeline_event_kind = CarrierProtocolInputPipelineEventKind {
        queue: string_list(&["input_queued_for_turn_boundary"]),
        admission: string_list(&["directive_receipt_recorded", "directive_carrier_accepted_recorded", "observer_observation_recorded", "observer_interjection_proposed", "observer_interjection_suppressed", "observer_interjection_admitted", "input_admitted_to_turn"]),
        visible: string_list(&["observer_interjection_visible"]),
        hold: string_list(&["system_directive_held"]),
        release: string_list(&["system_directive_released"]),
    };
    assert(strs(input_pipeline_event_kind.queue@) =~= protocol_input_pipeline_event_kind_queue());
    assert(strs(input_pipeline_event_kind.admission@) =~= protocol_input_pipeline_event_kind_admission());
    assert(strs(input_pipeline_event_kind.visible@) =~= protocol_input_pipeline_event_kind_visible());
    assert(strs(input_pipeline_event_kind.hold@) =~= protocol_input_pipeline_event_kind_hold());
    assert(strs(input_pipeline_event_kind.release@) =~= protocol_input_pipeline_event_kind_release());
    CarrierProtocolContract {
        schema: owned("narada.carrier.protocol_contract.v1"),
        schemas,
        id_prefixes,
        diagnostic,
        turn_terminal_status,
        terminal_state,
        delivery_mode,
        observer_visibility,
        queue_state,
        input_admission_action,
        input_hold_action,
        observer_suppression_reason,
        tool_result_status,
        tool_effect_admission_action,
        tool_effect_admission_reason,
        input_pipeline_event_kind,
    }
}

/// The bundled `schemas.input_event`.
pub fn input_event_schema() -> (r: String)
    ensures
        r@ == protocol_schemas_input_event(),
{
    carrier_protocol_contract().schemas.input_event
}

/// The bundled `schemas.control_input_event`.
pub fn control_input_event_schema() -> (r: String)
    ensures
        r@ == protocol_schemas_control_input_event(),
{
    carrier_protocol_contract().schemas.control_input_event
}

/// The bundled `schemas.session_event`.
pub fn session_event_schema() -> (r: String)
    ensures
        r@ == protocol_schemas_session_event(),
{
    carrier_protocol_contract().schemas.session_event
}

/// The bundled `schemas.payload_ref`.
pub fn payload_ref_schema() -> (r: String)
    ensures
        r@ == protocol_schemas_payload_ref(),
{
    carrier_protocol_contract().schemas.payload_ref
}

/// The bundled `schemas.payload_policy`.
pub fn payload_policy_schema() -> (r: String)
    ensures
        r@ == protocol_schemas_payload_policy(),
{
    carrier_protocol_contract().schemas.payload_policy
}

/// The bundled `schemas.provider_request_payload`.
pub fn provider_request_payload_schema() -> (r: String)
    ensures
        r@ == protocol_schemas_provider_request_payload(),
{
    carrier_protocol_contract().schemas.provider_request_payload
}

/// The bundled `schemas.provider_output_payload`.
pub fn provider_output_payload_schema() -> (r: String)
    ensures
        r@ == protocol_schemas_provider_output_payload(),
{
    carrier_protocol_contract().schemas.provider_output_payload
}

/// The bundled `schemas.turn_terminal_payload`.
pub fn turn_terminal_payload_schema() -> (r: String)
    ensures
        r@ == protocol_schemas_turn_terminal_payload(),
{
    carrier_protocol_contract().schemas.turn_terminal_payload
}

/// The bundled `schemas.session_event_fixture_manifest`.
pub fn session_event_fixture_manifest_schema() -> (r: String)
    ensures
        r@ == protocol_schemas_session_event_fixture_manifest(),
{
    carrier_protocol_contract().schemas.session_event_fixture_manifest
}

/// The bundled `id_prefixes.input_event`.
pub fn input_event_id_prefix() -> (r: String)
    ensures
        r@ == protocol_id_prefixes_input_event(),
{
    carrier_protocol_contract().id_prefixes.input_event
}

/// The bundled `id_prefixes.control_event`.
pub fn control_event_id_prefix() -> (r: String)
    ensures
        r@ == protocol_id_prefixes_control_event(),
{
    carrier_protocol_contract().id_prefixes.control_event
}

/// The bundled `id_prefixes.session_event`.
pub fn session_event_id_prefix() -> (r: String)
    ensures
        r@ == protocol_id_prefixes_session_event(),
{
    carrier_protocol_contract().id_prefixes.session_event
}

/// The bundled `diagnostic.warning_level`.
pub fn diagnostic_warning_level() -> (r: String)
    ensures
        r@ == protocol_diagnostic_warning_level(),
{
    carrier_protocol_contract().diagnostic.warning_level
}

/// The bundled `diagnostic.info_level`.
pub fn diagnostic_info_level() -> (r: String)
    ensures
        r@ == protocol_diagnostic_info_level(),
{
    carrier_protocol_contract().diagnostic.info_level
}

/// The bundled `observer_visibility.default`.
pub fn observer_visibility_default() -> (r: String)
    ensures
        r@ == protocol_observer_visibility_default(),
{
    carrier_protocol_contract().observer_visibility.default
}

/// Whether `value` is one of the bundled `tool_result_status.values`.
pub fn tool_result_status_is_valid(value: &str) -> (r: bool)
    ensures
        r == protocol_tool_result_status_values().contains(value@),
{
    let c = carrier_protocol_contract();
    list_contains(&c.tool_result_status.values, value)
}

/// Whether `value` is one of the bundled `tool_effect_admission_action.values`.
pub fn tool_effect_admission_action_is_valid(value: &str) -> (r: bool)
    ensures
        r == protocol_tool_effect_admission_action_values().contains(value@),
{
    let c = carrier_protocol_contract();
    list_contains(&c.tool_effect_admission_action.values, value)
}

/// Whether `value` is one of the bundled `tool_effect_admission_reason.values`.
pub fn tool_effect_admission_reason_is_valid(value: &str) -> (r: bool)
    ensures
        r == protocol_tool_effect_admission_reason_values().contains(value@),
{
    let c = carrier_protocol_contract();
    list_contains(&c.tool_effect_admission_reason.values, value)
}

/// Whether `value` is one of the bundled `diagnostic.levels`.
pub fn diagnostic_level_is_valid(value: &str) -> (r: bool)
    ensures
        r == protocol_diagnostic_levels().contains(value@),
{
    let c = carrier_protocol_contract();
    list_contains(&c.diagnostic.levels, value)
}

/// Whether `value` is one of the bundled `turn_terminal_status.completed`.
pub fn completed_turn_terminal_status_is_valid(value: &str) -> (r: bool)
    ensures
        r == protocol_turn_terminal_status_completed().contains(value@),
{
    let c = carrier_protocol_contract();
    list_contains(&c.turn_terminal_status.completed, value)
}

/// Whether `value` is one of the bundled `turn_terminal_status.interrupted`.
pub fn interrupted_turn_terminal_status_is_valid(value: &str) -> (r: bool)
    ensures
        r == protocol_turn_terminal_status_interrupted().contains(value@),
{
    let c = carrier_protocol_contract();
    list_contains(&c.turn_terminal_status.interrupted, value)
}

/// Whether `value` is one of the bundled `turn_terminal_status.failed`.
pub fn failed_turn_terminal_status_is_valid(value: &str) -> (r: bool)
    ensures
        r == protocol_turn_terminal_status_failed().contains(value@),
{
    let c = carrier_protocol_contract();
    list_contains(&c.turn_terminal_status.failed, value)
}

/// Whether `value` is one of the bundled `terminal_state.values`.
pub fn terminal_state_is_valid(value: &str) -> (r: bool)
    ensures
        r == protocol_terminal_state_values().contains(value@),
{
    let c = carrier_protocol_contract();
    list_contains(&c.terminal_state.values, value)
}

/// Whether `value` is one of the bundled `delivery_mode.values`.
pub fn delivery_mode_is_valid(value: &str) -> (r: bool)
    ensures
        r == protocol_delivery_mode_values().contains(value@),
{
    let c = carrier_protocol_contract();
    list_contains(&c.delivery_mode.values, value)
}

/// Whether `value` is one of the bundled `observer_visibility.values`.
pub fn observer_visibility_is_valid(value: &str) -> (r: bool)
    ensures
        r == protocol_observer_visibility_values().contains(value@),
{
    let c = carrier_protocol_contract();
    list_contains(&c.observer_visibility.values, value)
}

/// Whether `value` is one of the bundled `queue_state.values`.
pub fn queue_state_is_valid(value: &str) -> (r: bool)
    ensures
        r == protocol_queue_state_values().contains(value@),
{
    let c = carrier_protocol_contract();
    list_contains(&c.queue_state.values, value)
}

/// Whether `value` is one of the bundled `input_admission_action.values`.
pub fn input_admission_action_is_valid(value: &str) -> (r: bool)
    ensures
        r == protocol_input_admission_action_values().contains(value@),
{
    let c = carrier_protocol_contract();
    list_contains(&c.input_admission_action.values, value)
}

/// Whether `value` is one of the bundled `input_hold_action.values`.
pub fn input_hold_action_is_valid(value: &str) -> (r: bool)
    ensures
        r == protocol_input_hold_action_values().contains(value@),
{
    let c = carrier_protocol_contract();
    list_contains(&c.input_hold_action.values, value)
}

/// Whether `value` is one of the bundled `observer_suppression_reason.values`.
pub fn observer_suppression_reason_is_valid(value: &str) -> (r: bool)
    ensures
        r == protocol_observer_suppression_reason_values().contains(value@),
{
    let c = carrier_protocol_contract();
    list_contains(&c.observer_suppression_reason.values, value)
}

/// The bundled observer visibility values.
pub fn observer_visibility_values() -> (r: Vec<String>)
    ensures
        strs(r@) == protocol_observer_visibility_values(),
{
    carrier_protocol_contract().observer_visibility.values
}

/// The observer suppression reason for a muted observer, which the bundled
/// contract lists.
pub fn observer_muted_suppression_reason() -> (r: String)
    ensures
        r@ == "observer_muted"@,
        protocol_observer_suppression_reason_values().contains(r@),
{
    let c = carrier_protocol_contract();
    let values = &c.observer_suppression_reason.values;
    let mut i: usize = 0;
    while i < values.len()
        invariant
            i <= values.len(),
            strs(values@) == protocol_observer_suppression_reason_values(),
            forall|k: int| 0 <= k < i ==> values@[k]@ != "observer_muted"@,
        decreases values.len() - i,
    {
        if str_eq(values[i].as_str(), "observer_muted") {
            assert(strs(values@)[i as int] == values@[i as int]@);
            return values[i].clone();
        }
        i = i + 1;
    }
    proof {
        assert(strs(values@).len() == values@.len());
        assert(protocol_observer_suppression_reason_values().len() == 1);
        assert(strs(values@)[0] == values@[0]@);
    }
    owned("observer_muted")
}

fn all_nonempty(v: &Vec<String>) -> (r: bool)
    ensures
        r == (v@.len() != 0),
{
    v.len() != 0
}

fn text_nonempty(s: &String) -> (r: bool)
    ensures
        r == (s@.len() != 0),
{
    crate::text::chars_of(s.as_str()).len() != 0
}

/// Checks a contract read from JSON, reporting the first failed check.
pub fn validate_carrier_protocol_contract(c: &CarrierProtocolContract) -> (r: Result<(), String>)
    ensures
        match r {
            Ok(()) => protocol_problem(*c) is None,
            Err(e) => protocol_problem(*c) == Some(e@),
        },
{
    if !str_eq(c.schema.as_str(), "narada.carrier.protocol_contract.v1") {
        return Err(owned("carrier_protocol_contract_invalid:schema"));
    }
    if !text_nonempty(&c.id_prefixes.input_event) || !text_nonempty(&c.id_prefixes.control_event) || !text_nonempty(&c.id_prefixes.session_event) {
        return Err(owned("carrier_protocol_contract_invalid:id_prefixes"));
    }
    if !all_nonempty(&c.diagnostic.levels) || !text_nonempty(&c.diagnostic.warning_level) || !text_nonempty(&c.diagnostic.info_level) {
        return Err(owned("carrier_protocol_contract_invalid:diagnostic_levels"));
    }
    if !all_nonempty(&c.turn_terminal_status.completed) || !all_nonempty(&c.turn_terminal_status.interrupted) || !all_nonempty(&c.turn_terminal_status.failed) {
        return Err(owned("carrier_protocol_contract_invalid:turn_terminal_status"));
    }
    if !all_nonempty(&c.terminal_state.values) {
        return Err(owned("carrier_protocol_contract_invalid:terminal_state"));
    }
    if !all_nonempty(&c.delivery_mode.values) {
        return Err(owned("carrier_protocol_contract_invalid:delivery_mode"));
    }
    if !all_nonempty(&c.observer_visibility.values) || !text_nonempty(&c.observer_visibility.default) {
        return Err(owned("carrier_protocol_contract_invalid:observer_visibility"));
    }
    if !all_nonempty(&c.queue_state.values) {
        return Err(owned("carrier_protocol_contract_invalid:queue_state"));
    }
    if !all_nonempty(&c.input_admission_action.values) {
        return Err(owned("carrier_protocol_contract_invalid:input_admission_action"));
    }
    if !all_nonempty(&c.input_hold_action.values) {
        return Err(owned("carrier_protocol_contract_invalid:input_hold_action"));
    }
    if !all_nonempty(&c.observer_suppression_reason.values) {
        return Err(owned("carrier_protocol_contract_invalid:observer_suppression_reason"));
    }
    if !all_nonempty(&c.tool_result_status.values) {
        return Err(owned("carrier_protocol_contract_invalid:tool_result_status"));
    }
    if !all_nonempty(&c.tool_effect_admission_action.values) {
        return Err(owned("carrier_protocol_contract_invalid:tool_effect_admission_action"));
    }
    if !all_nonempty(&c.tool_effect_admission_reason.values) {
        return Err(owned("carrier_protocol_contract_invalid:tool_effect_admission_reason"));
    }
    if !all_nonempty(&c.input_pipeline_event_kind.queue) || !all_nonempty(&c.input_pipeline_event_kind.admission) || !all_nonempty(&c.input_pipeline_event_kind.hold) {
        return Err(owned("carrier_protocol_contract_invalid:input_pipeline_event_kind"));
    }
    Ok(())
}

} // verus!
