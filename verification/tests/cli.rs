use narada_agent_tui::cli::{executable_candidates, parse_args, validate_launch_args, Args};

fn parse(values: &[&str]) -> Result<Args, String> {
    parse_args(values.iter().map(|value| value.to_string()).collect())
}

#[test]
fn parses_nars_attach_arguments() {
    let args = parse(&[
        "--attach",
        "ws://127.0.0.1:12345/events",
        "--identity",
        "sonar.resident",
        "--session",
        "session_1",
        "--max-steps",
        "3",
    ])
    .expect("args parse");

    assert_eq!(args.attach.as_deref(), Some("ws://127.0.0.1:12345/events"));
    assert_eq!(args.identity.as_deref(), Some("sonar.resident"));
    assert_eq!(args.session.as_deref(), Some("session_1"));
    assert_eq!(args.max_steps, Some(3));
    validate_launch_args(&args).expect("attach arguments validate");
}

#[test]
fn rejects_removed_runtime_flags() {
    for flag in [
        "--runtime-step-once",
        "--runtime-loop",
        "--interactive-step-once",
        "--interactive-smoke-loop",
        "--persistent-smoke-session",
        "--interactive-loop",
        "--render-once",
        "--control-jsonl",
        "--session-jsonl",
    ] {
        let err = parse(&[flag]).expect_err("removed flag rejected");
        assert!(err.contains("has been removed"), "{flag}: {err}");
        assert!(err.contains("--attach"), "{flag}: {err}");
    }
}

#[test]
fn parses_rust_toolchain_check_without_launch_identity() {
    let args = parse(&["--check-rust-toolchain"]).expect("args parse");

    assert!(args.check_rust_toolchain);
    validate_launch_args(&args).expect("toolchain check bypasses launch identity");
}

#[test]
fn parses_launch_binding_arguments() {
    let args = parse(&["--launch-binding", "C:\\binding.json"]).expect("args parse");

    assert_eq!(args.launch_binding.as_deref(), Some("C:\\binding.json"));
    validate_launch_args(&args).expect("binding arguments validate");
}

#[test]
fn executable_candidates_include_windows_extensions() {
    assert_eq!(
        executable_candidates("link", true),
        vec![
            "link.exe".to_string(),
            "link.cmd".to_string(),
            "link.bat".to_string(),
            "link".to_string(),
        ]
    );
    assert_eq!(executable_candidates("link", false), vec!["link".to_string()]);
}

#[test]
fn names_with_an_extension_are_kept_as_they_are() {
    assert_eq!(executable_candidates("link.exe", true), vec!["link.exe".to_string()]);
    assert_eq!(executable_candidates("cargo.cmd", false), vec!["cargo.cmd".to_string()]);
}

#[test]
fn requires_attach_source() {
    let err = validate_launch_args(&Args::default()).expect_err("invalid args");
    assert_eq!(
        err,
        "exactly one of --attach <event_endpoint> or --launch-binding <path> is required"
    );
}

#[test]
fn both_sources_at_once_are_refused() {
    let args = parse(&["--attach", "ws://127.0.0.1:1/events", "--launch-binding", "b.json"])
        .expect("args parse");
    assert_eq!(
        validate_launch_args(&args).expect_err("two sources"),
        "exactly one of --attach <event_endpoint> or --launch-binding <path> is required"
    );
}

#[test]
fn flag_values_are_required_and_numbers_checked() {
    assert_eq!(parse(&["--attach"]).expect_err("missing"), "missing value for --attach");
    assert!(parse(&["--max-steps", "many"]).is_err());
    assert!(parse(&["--bogus"]).is_err());
    let help = parse(&["--help"]).expect("help parses");
    assert!(help.help);
    let version = parse(&["--version"]).expect("version parses");
    assert!(version.version);
}
