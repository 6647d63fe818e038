use cosmic_clevetura::cli::{help_lines, os_mode_name, parse_args, CliCommand};

fn args(list: &[&str]) -> Vec<String> {
    let mut v = vec!["cosmic-clevetura".to_string()];
    v.extend(list.iter().map(|s| s.to_string()));
    v
}

fn fail_lines(c: CliCommand) -> Vec<String> {
    match c {
        CliCommand::Fail(lines) => lines,
        other => panic!("expected a refusal, got {other:?}"),
    }
}

#[test]
fn options_select_tasks() {
    assert!(matches!(parse_args(&args(&[])), CliCommand::RunApplet));
    assert!(matches!(parse_args(&args(&["-s"])), CliCommand::OpenSettings));
    assert!(matches!(parse_args(&args(&["--settings-standalone"])), CliCommand::SettingsStandalone));
    assert!(matches!(parse_args(&args(&["--detect"])), CliCommand::Detect));
    assert!(matches!(parse_args(&args(&["--info"])), CliCommand::Info));
    assert!(matches!(parse_args(&args(&["--probe"])), CliCommand::Probe));
    assert!(matches!(parse_args(&args(&["--watch"])), CliCommand::Watch));
    assert!(matches!(parse_args(&args(&["--get-settings"])), CliCommand::GetSettings));
    assert!(matches!(parse_args(&args(&["--ble-scan"])), CliCommand::BleScan));
    assert!(matches!(parse_args(&args(&["-h"])), CliCommand::Help));
    assert!(matches!(parse_args(&args(&["--version"])), CliCommand::Version));
    assert!(matches!(parse_args(&args(&["--ai-off"])), CliCommand::AiOff));
    assert!(matches!(parse_args(&args(&["--factory-reset"])), CliCommand::FactoryReset));
    assert!(matches!(parse_args(&args(&["--settings-describe"])), CliCommand::SettingsDescribe));
}

#[test]
fn options_with_values() {
    assert!(matches!(parse_args(&args(&["--set-sensitivity", "7"])), CliCommand::SetSensitivity(7)));
    assert_eq!(fail_lines(parse_args(&args(&["--set-sensitivity", "0"]))), vec!["Sensitivity must be 1-9"]);
    assert_eq!(fail_lines(parse_args(&args(&["--set-sensitivity", "seven"]))), vec!["Sensitivity must be 1-9"]);
    assert_eq!(
        fail_lines(parse_args(&args(&["--set-sensitivity"]))),
        vec!["Usage: cosmic-clevetura --set-sensitivity <1-9>"]
    );
    assert!(matches!(parse_args(&args(&["--set-os-mode", "2"])), CliCommand::SetOsMode(2)));
    assert_eq!(
        fail_lines(parse_args(&args(&["--set-os-mode", "-1"]))),
        vec!["Usage: cosmic-clevetura --set-os-mode <0=win|1=mac|2=linux>"]
    );
    assert_eq!(fail_lines(parse_args(&args(&["--set-os-mode"]))).len(), 1);
    assert!(matches!(parse_args(&args(&["--ble-info", "AA:BB"])), CliCommand::BleInfo(Some(a)) if a == "AA:BB"));
    assert!(matches!(parse_args(&args(&["--ble-info"])), CliCommand::BleInfo(None)));
    assert!(matches!(parse_args(&args(&["--settings-set", "sensitivity", "5"])),
        CliCommand::SettingsSet(k, v) if k == "sensitivity" && v == "5"));
    assert_eq!(
        fail_lines(parse_args(&args(&["--settings-set", "sensitivity"]))),
        vec!["Usage: cosmic-clevetura --settings-set <key> <json_value>"]
    );
    assert!(matches!(parse_args(&args(&["--settings-action", "reset"])), CliCommand::SettingsAction(id) if id == "reset"));
    assert_eq!(
        fail_lines(parse_args(&args(&["--bogus"]))),
        vec!["Unknown argument: --bogus", "Use --help for usage information"]
    );
    assert_eq!(os_mode_name(1), "macOS");
}

#[test]
fn usage_text() {
    let lines = help_lines("cc");
    assert_eq!(lines.len(), 19);
    assert_eq!(lines[0], "Clevetura TouchOnKeys for COSMIC Desktop");
    assert_eq!(lines[1], "");
    assert_eq!(lines[2], "Usage: cc [OPTIONS]");
    assert_eq!(lines[18], "Configuration: ~/.config/cosmic-clevetura/config.json");
}
