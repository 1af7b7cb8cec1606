use narada_agent_tui::carrier_command::{parse_operator_submit, CarrierCommand, OperatorSubmit};
use narada_agent_tui::carrier_command_contract::{
    carrier_command_contract, command_name_for_token, command_named, command_tokens,
    normalize_command_token, validate_carrier_command_contract,
};

fn command(c: CarrierCommand) -> OperatorSubmit {
    OperatorSubmit::CarrierCommand(c)
}

#[test]
fn parses_agent_cli_parity_commands() {
    assert_eq!(
        command_tokens(),
        vec![
            "/help",
            "/status",
            "/goal",
            "/stats",
            "/model",
            "/thinking",
            "/tool-output",
            "/tool-outputs",
            "/tools",
            "/tool",
            "/observers",
            "/observer mute",
            "/observer unmute",
            "/queue",
            "/queue clear",
            "/queue drop <index>",
            "/clear",
            "/exit",
            "/quit",
            "exit",
        ]
    );
    assert_eq!(parse_operator_submit("/help"), command(CarrierCommand::Help));
    assert_eq!(parse_operator_submit("/status"), command(CarrierCommand::Status));
    assert_eq!(
        parse_operator_submit("/goal finish the carrier contract"),
        command(CarrierCommand::Goal { value: Some("finish the carrier contract".to_string()) })
    );
    assert_eq!(
        parse_operator_submit("/stats --date 2026-06-01 --top 3"),
        command(CarrierCommand::Stats { value: Some("--date 2026-06-01 --top 3".to_string()) })
    );
    assert_eq!(
        parse_operator_submit("/model gpt-5.5"),
        command(CarrierCommand::Model { value: Some("gpt-5.5".to_string()) })
    );
    assert_eq!(
        parse_operator_submit("/thinking high"),
        command(CarrierCommand::Thinking { value: Some("high".to_string()) })
    );
    assert_eq!(
        parse_operator_submit("/tool-output off"),
        command(CarrierCommand::ToolOutput { value: Some("off".to_string()) })
    );
    assert_eq!(parse_operator_submit("/tool-outputs"), command(CarrierCommand::ToolOutput { value: None }));
    assert_eq!(
        parse_operator_submit("/tools mcp"),
        command(CarrierCommand::Tools { value: Some("mcp".to_string()) })
    );
    assert_eq!(parse_operator_submit("/tool"), command(CarrierCommand::Tools { value: None }));
    assert_eq!(parse_operator_submit("/observers"), command(CarrierCommand::Observers));
    assert_eq!(parse_operator_submit("/observer mute"), command(CarrierCommand::ObserverMute));
    assert_eq!(parse_operator_submit("/observer unmute"), command(CarrierCommand::ObserverUnmute));
    assert_eq!(parse_operator_submit("/clear"), command(CarrierCommand::Clear));
    assert_eq!(parse_operator_submit("/exit"), command(CarrierCommand::Exit));
    assert_eq!(parse_operator_submit("/quit"), command(CarrierCommand::Exit));
    assert_eq!(parse_operator_submit("exit"), command(CarrierCommand::Exit));
}

#[test]
fn parses_queue_commands() {
    assert_eq!(parse_operator_submit("/queue"), command(CarrierCommand::QueueShow));
    assert_eq!(parse_operator_submit("/queue clear"), command(CarrierCommand::QueueClear));
    assert_eq!(parse_operator_submit("/queue drop 2"), command(CarrierCommand::QueueDrop { index: 2 }));
}

#[test]
fn double_slash_submits_literal_slash_to_agent() {
    assert_eq!(parse_operator_submit("//help"), OperatorSubmit::AgentInput("/help".to_string()));
}

#[test]
fn unknown_slash_text_is_local_command_feedback_not_agent_input() {
    assert_eq!(
        parse_operator_submit("/wat"),
        command(CarrierCommand::Unknown { command: "/wat".to_string() })
    );
}

#[test]
fn bundled_carrier_command_contract_is_valid() {
    let contract = carrier_command_contract();

    assert_eq!(contract.schema, "narada.carrier.command_contract.v1");
    assert_eq!(
        command_tokens(),
        vec![
            "/help",
            "/status",
            "/goal",
            "/stats",
            "/model",
            "/thinking",
            "/tool-output",
            "/tool-outputs",
            "/tools",
            "/tool",
            "/observers",
            "/observer mute",
            "/observer unmute",
            "/queue",
            "/queue clear",
            "/queue drop <index>",
            "/clear",
            "/exit",
            "/quit",
            "exit",
        ]
    );
    assert_eq!(command_name_for_token(" EXIT "), Some("exit".to_string()));
}

#[test]
fn carrier_command_contract_parser_rejects_invalid_contracts() {
    let mut contract = carrier_command_contract();
    assert_eq!(validate_carrier_command_contract(&contract), Ok(()));
    contract.schema = "wrong".to_string();
    assert_eq!(
        validate_carrier_command_contract(&contract).unwrap_err(),
        "carrier_command_contract_invalid:schema"
    );
}

#[test]
fn blank_submissions_are_empty() {
    assert_eq!(parse_operator_submit(""), OperatorSubmit::Empty);
    assert_eq!(parse_operator_submit("   \t "), OperatorSubmit::Empty);
}

#[test]
fn plain_text_goes_to_the_agent_unchanged() {
    assert_eq!(
        parse_operator_submit("  run startup sequence "),
        OperatorSubmit::AgentInput("  run startup sequence ".to_string())
    );
}

#[test]
fn queue_drop_without_a_number_is_unknown() {
    assert_eq!(
        parse_operator_submit("/queue drop x"),
        command(CarrierCommand::Unknown { command: "/queue drop x".to_string() })
    );
    assert_eq!(
        parse_operator_submit("/queue drop <index>"),
        command(CarrierCommand::Unknown { command: "/queue drop <index>".to_string() })
    );
    assert_eq!(parse_operator_submit("/queue  drop   +7"), command(CarrierCommand::QueueDrop { index: 7 }));
}

#[test]
fn command_values_are_trimmed_and_blank_values_absent() {
    assert_eq!(
        parse_operator_submit("/goal    ship it   "),
        command(CarrierCommand::Goal { value: Some("ship it".to_string()) })
    );
    assert_eq!(parse_operator_submit("/goal"), command(CarrierCommand::Goal { value: None }));
}

#[test]
fn command_tokens_normalize_case_and_spacing() {
    assert_eq!(normalize_command_token("  /Observer    MUTE "), "/observer mute");
    assert_eq!(command_name_for_token("/OBSERVER   mute"), Some("observer_mute".to_string()));
    assert_eq!(command_name_for_token("/nothing"), None);
    assert_eq!(command_named("queue_drop").map(|c| c.primary), Some("/queue drop <index>".to_string()));
    assert!(command_named("missing").is_none());
}

#[test]
fn validation_reports_the_first_missing_command() {
    let mut contract = carrier_command_contract();
    contract.commands.retain(|c| c.name != "goal" && c.name != "exit");
    assert_eq!(
        validate_carrier_command_contract(&contract).unwrap_err(),
        "carrier_command_contract_invalid:missing:goal"
    );
}

#[test]
fn token_normalisation_is_idempotent() {
    for token in ["  /Observer    MUTE ", "Queue\tDrop  2", "", "   ", "already normal"] {
        let once = normalize_command_token(token);
        assert_eq!(normalize_command_token(&once), once);
        assert_eq!(once.trim(), once);
        assert!(!once.contains("  "));
        assert!(!once.chars().any(|c| c.is_ascii_uppercase()));
    }
}
