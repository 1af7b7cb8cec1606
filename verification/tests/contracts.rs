use narada_agent_tui::carrier_protocol_contract::{
    carrier_protocol_contract, completed_turn_terminal_status_is_valid, control_event_id_prefix,
    delivery_mode_is_valid, diagnostic_info_level, diagnostic_level_is_valid, diagnostic_warning_level,
    failed_turn_terminal_status_is_valid, input_admission_action_is_valid, input_event_id_prefix,
    input_event_schema, input_hold_action_is_valid, interrupted_turn_terminal_status_is_valid,
    observer_muted_suppression_reason, observer_suppression_reason_is_valid, observer_visibility_default,
    observer_visibility_is_valid, observer_visibility_values, queue_state_is_valid, session_event_id_prefix,
    terminal_state_is_valid, tool_effect_admission_action_is_valid, tool_effect_admission_reason_is_valid,
    tool_result_status_is_valid, validate_carrier_protocol_contract,
};
use narada_agent_tui::mcp_json_rpc_contract::{
    initialize_method, initialized_notification_method, jsonrpc_version, mcp_json_rpc_contract,
    tools_call_method, validate_mcp_json_rpc_contract,
};
use narada_agent_tui::operator_routing_contract::{
    operator_routing_contract, output_reader_tool_name, payload_reader_tool_name, payload_reader_tools,
    tool_aliases_for, validate_operator_routing_contract,
};
use narada_agent_tui::provider_adapter_contract::{provider_adapter_contract, validate_provider_adapter_contract};
use narada_agent_tui::rendering_classifier_contract::{
    active_turn_display, calling_phase, diagnostic_severity_class, runtime_status_class,
    semantic_status_value_class, terminal_status_is_positive, thinking_phase, tool_result_prefix_class,
    tool_result_summary_class, transcript_classifiers_contract, turn_marker_is_suppressed,
    turn_state_is_negative, turn_state_is_positive, validate_transcript_classifiers_contract,
    DiagnosticSeverityClass, RenderClassification,
};
use narada_agent_tui::runtime_boolean_contract::{
    env_flag_disabled, env_flag_enabled, runtime_boolean_values_contract,
    validate_runtime_boolean_values_contract,
};

#[test]
fn bundled_carrier_protocol_contract_is_valid() {
    let contract = carrier_protocol_contract();

    assert_eq!(contract.schema, "narada.carrier.protocol_contract.v1");
    assert_eq!(input_event_schema(), "narada.carrier.input_event.v1");
    assert_eq!(input_event_id_prefix(), "input_");
    assert_eq!(control_event_id_prefix(), "control_");
    assert_eq!(session_event_id_prefix(), "session_event_");
    assert!(diagnostic_level_is_valid("warn"));
    assert_eq!(diagnostic_warning_level(), "warn");
    assert_eq!(diagnostic_info_level(), "info");
    assert!(completed_turn_terminal_status_is_valid("completed_without_provider"));
    assert!(interrupted_turn_terminal_status_is_valid("interrupted"));
    assert!(failed_turn_terminal_status_is_valid("failed"));
    assert!(terminal_state_is_valid("completed"));
    assert!(delivery_mode_is_valid("admit_after_active_turn"));
    assert_eq!(observer_visibility_default(), "operator_visible");
    assert!(observer_visibility_is_valid("conversation_visible"));
    assert!(queue_state_is_valid("queued_for_turn_boundary"));
    assert!(input_admission_action_is_valid("admit"));
    assert!(input_hold_action_is_valid("release"));
    assert!(observer_suppression_reason_is_valid("observer_muted"));
    assert!(tool_result_status_is_valid("denied"));
    assert!(tool_effect_admission_action_is_valid("deny"));
    assert!(tool_effect_admission_reason_is_valid("tool_effect_admission_required"));
    assert_eq!(contract.input_pipeline_event_kind.queue, vec!["input_queued_for_turn_boundary".to_string()]);
    assert!(contract
        .input_pipeline_event_kind
        .admission
        .contains(&"observer_interjection_suppressed".to_string()));
}

#[test]
fn protocol_vocabulary_rejects_unknown_values() {
    assert!(!diagnostic_level_is_valid("WARN"));
    assert!(!delivery_mode_is_valid("later"));
    assert!(!observer_visibility_is_valid(""));
    assert_eq!(observer_muted_suppression_reason(), "observer_muted");
    assert!(observer_visibility_values().contains(&"record_only".to_string()));
}

#[test]
fn protocol_validation_reports_each_empty_vocabulary() {
    let mut contract = carrier_protocol_contract();
    assert_eq!(validate_carrier_protocol_contract(&contract), Ok(()));
    contract.queue_state.values.clear();
    assert_eq!(
        validate_carrier_protocol_contract(&contract).unwrap_err(),
        "carrier_protocol_contract_invalid:queue_state"
    );
    contract.id_prefixes.control_event = String::new();
    assert_eq!(
        validate_carrier_protocol_contract(&contract).unwrap_err(),
        "carrier_protocol_contract_invalid:id_prefixes"
    );
    contract.schema = "other".to_string();
    assert_eq!(
        validate_carrier_protocol_contract(&contract).unwrap_err(),
        "carrier_protocol_contract_invalid:schema"
    );
}

#[test]
fn bundled_mcp_json_rpc_contract_is_valid() {
    let contract = mcp_json_rpc_contract();

    assert_eq!(contract.schema, "narada.mcp.json_rpc_contract.v1");
    assert_eq!(jsonrpc_version(), "2.0");
    assert_eq!(initialize_method(), "initialize");
    assert_eq!(initialized_notification_method(), "notifications/initialized");
    assert_eq!(tools_call_method(), "tools/call");
}

#[test]
fn mcp_contract_validation_requires_every_method() {
    let mut contract = mcp_json_rpc_contract();
    assert_eq!(validate_mcp_json_rpc_contract(&contract), Ok(()));
    contract.methods.tools_list = String::new();
    assert_eq!(validate_mcp_json_rpc_contract(&contract).unwrap_err(), "mcp_json_rpc_contract_invalid:methods");
}

#[test]
fn bundled_provider_adapter_contract_is_valid() {
    let contract = provider_adapter_contract();

    assert!(!contract.provider_execution_env_var.is_empty());
    assert!(!contract.provider_adapter_kind_env_var.is_empty());
    assert!(!contract.intelligence_provider_env_var.is_empty());
    assert!(!contract.ai_model_env_var.is_empty());
    assert!(!contract.ai_thinking_env_var.is_empty());
    assert!(!contract.ai_stream_env_var.is_empty());
    assert!(!contract.admitted_providers.is_empty());
    assert!(!contract.scripted_provider_adapter_kind.is_empty());
    assert!(!contract.production_provider_adapter_kind.is_empty());
    assert!(contract.production_provider_adapter_implemented);
}

#[test]
fn provider_adapter_contract_rejects_invalid_posture() {
    let mut contract = provider_adapter_contract();
    assert_eq!(validate_provider_adapter_contract(&contract), Ok(()));
    contract.schema = "narada.agent_tui.wrong_provider_adapter_contract.v0".to_string();
    assert_eq!(
        validate_provider_adapter_contract(&contract).unwrap_err(),
        "provider_adapter_contract_invalid:schema"
    );
    let mut contract = provider_adapter_contract();
    contract.production_provider_adapter_implemented = false;
    assert_eq!(
        validate_provider_adapter_contract(&contract).unwrap_err(),
        "provider_adapter_contract_invalid:production_provider_adapter_implemented"
    );
    let mut contract = provider_adapter_contract();
    contract.admitted_providers.push("  ".to_string());
    assert_eq!(
        validate_provider_adapter_contract(&contract).unwrap_err(),
        "provider_adapter_contract_invalid:admitted_providers"
    );
}

#[test]
fn bundled_transcript_classifiers_contract_is_valid() {
    let contract = transcript_classifiers_contract();

    assert_eq!(contract.schema, "narada.carrier.transcript_rendering_classifiers.v1");
    assert_eq!(active_turn_display(), "thinking");
    assert!(turn_marker_is_suppressed("idle"));
    assert!(turn_state_is_positive("calling mcp_output_show"));
    assert!(turn_state_is_negative("failed"));
    assert!(terminal_status_is_positive("completed_without_provider"));
    assert_eq!(tool_result_summary_class("interrupted"), Some(RenderClassification::Negative));
    assert_eq!(semantic_status_value_class("ready"), Some(RenderClassification::Positive));
    assert_eq!(runtime_status_class("configured_without_provider"), Some(RenderClassification::Warning));
    assert_eq!(diagnostic_severity_class("failed"), DiagnosticSeverityClass::Negative);
}

#[test]
fn classifiers_read_phases_prefixes_and_normalised_values() {
    assert_eq!(thinking_phase(), "thinking");
    assert_eq!(calling_phase(), "calling");
    assert!(turn_marker_is_suppressed("   "));
    assert_eq!(
        tool_result_prefix_class("ok agent_context_startup_sequence in 10ms"),
        Some(("ok".to_string(), RenderClassification::Positive))
    );
    assert_eq!(tool_result_prefix_class("error"), Some(("error".to_string(), RenderClassification::Negative)));
    assert_eq!(tool_result_prefix_class("okay then"), None);
    assert_eq!(
        semantic_status_value_class("  Configured_Without_Provider "),
        Some(RenderClassification::Warning)
    );
    assert_eq!(diagnostic_severity_class("unknown"), DiagnosticSeverityClass::Muted);
    let mut contract = transcript_classifiers_contract();
    assert_eq!(validate_transcript_classifiers_contract(&contract), Ok(()));
    contract.diagnostic.prefix = String::new();
    assert_eq!(
        validate_transcript_classifiers_contract(&contract).unwrap_err(),
        "transcript_classifiers_contract_invalid:diagnostic_prefix"
    );
}

#[test]
fn bundled_runtime_boolean_values_contract_is_valid() {
    let contract = runtime_boolean_values_contract();

    assert_eq!(contract.schema, "narada.carrier.runtime_boolean_values.v1");
    assert!(env_flag_enabled(Some(&" yes ".to_string())));
    assert!(env_flag_disabled(Some(&" OFF ".to_string())));
    assert!(!env_flag_enabled(Some(&"false".to_string())));
    assert!(!env_flag_enabled(None));
    let mut contract = runtime_boolean_values_contract();
    contract.falsey.clear();
    assert_eq!(
        validate_runtime_boolean_values_contract(&contract).unwrap_err(),
        "runtime_boolean_values_contract_invalid:falsey"
    );
}

#[test]
fn bundled_operator_routing_contract_is_valid() {
    let contract = operator_routing_contract();

    assert_eq!(contract.schema, "narada.carrier.operator_routing_contract.v1");
    assert_eq!(contract.tool_call_envelope.field, "narada_tool_call");
    assert!(contract.tool_call_envelope.fenced_json_admitted);
    assert_eq!(contract.direct_tool_routes[0].tool_name, "agent_context_startup_sequence");
    assert_eq!(contract.reader_routes[0].tool_name, "mcp_output_show");
    assert_eq!(payload_reader_tool_name(), "mcp_payload_show");
    assert_eq!(
        tool_aliases_for("agent_context_startup_sequence").expect("startup aliases exist"),
        vec!["agent_context_startup_sequence".to_string(), "startup_sequence".to_string()]
    );
    assert_eq!(output_reader_tool_name(), "mcp_output_show");
    assert_eq!(payload_reader_tools(), vec!["mcp_payload_show", "mcp_payload_read"]);
    assert_eq!(tool_aliases_for("unknown_tool"), None);
}

#[test]
fn operator_routing_contract_parser_rejects_invalid_contracts() {
    let contract = operator_routing_contract();
    assert_eq!(validate_operator_routing_contract(&contract), Ok(()));
    let mut contract = operator_routing_contract();
    contract.schema = "narada.carrier.wrong_operator_routing_contract.v1".to_string();
    assert_eq!(
        validate_operator_routing_contract(&contract).unwrap_err(),
        "operator_routing_contract_invalid:schema"
    );
    let mut contract = operator_routing_contract();
    contract.reader_routes[0].ref_prefix = "payload:".to_string();
    assert_eq!(
        validate_operator_routing_contract(&contract).unwrap_err(),
        "operator_routing_contract_invalid:output_reader_ref_prefix"
    );
    let mut contract = operator_routing_contract();
    contract.tool_alias_groups[1].tools = vec!["mcp_payload_show".to_string()];
    assert_eq!(
        validate_operator_routing_contract(&contract).unwrap_err(),
        "operator_routing_contract_invalid:alias_group_tool_missing:mcp_payload_reader:mcp_payload_read"
    );
}

#[test]
fn semantic_classes_read_the_normal_form() {
    assert_eq!(semantic_status_value_class(" READY "), semantic_status_value_class("ready"));
    assert_eq!(semantic_status_value_class(" READY "), Some(RenderClassification::Positive));
    assert_eq!(
        semantic_status_value_class("Configured_Without_Provider"),
        semantic_status_value_class("configured-without-provider")
    );
}
