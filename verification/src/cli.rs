//! The command line of the host program: which task each option selects,
//! and the usage text.

use vstd::prelude::*;
use crate::text::{parse_i32, parse_u32, parsed_i32, parsed_u32, push_str, same_text, string_of};

verus! {

/// The task that the command line selects.
#[derive(Debug)]
pub enum CliCommand {
    /// Run as the panel applet (no option).
    RunApplet,
    OpenSettings,
    SettingsStandalone,
    Detect,
    Info,
    Probe,
    Watch,
    GetSettings,
    SetSensitivity(u32),
    BleScan,
    /// Device info over BLE, of this address or of the first one a scan finds.
    BleInfo(Option<String>),
    Help,
    Version,
    AiOff,
    AiOn,
    AiState,
    FactoryReset,
    SetOsMode(i32),
    SettingsDescribe,
    SettingsSet(String, String),
    SettingsAction(String),
    /// Refused: these lines go to standard error and the program exits with status 1.
    Fail(Vec<String>),
}

/// `r` refuses the command line with `lines`.
pub open spec fn fails_with(r: CliCommand, lines: Seq<Seq<char>>) -> bool {
    r matches CliCommand::Fail(v) && v@.map_values(|s: String| s@) == lines
}

/// The task that the arguments `a` (the program name first) select.
pub open spec fn selects(a: Seq<Seq<char>>, r: CliCommand) -> bool {
    if a.len() <= 1 {
        r is RunApplet
    } else {
        let f = a[1];
        if f == "--settings"@ || f == "-s"@ {
            r is OpenSettings
        } else if f == "--settings-standalone"@ {
            r is SettingsStandalone
        } else if f == "--detect"@ {
            r is Detect
        } else if f == "--info"@ {
            r is Info
        } else if f == "--probe"@ {
            r is Probe
        } else if f == "--watch"@ {
            r is Watch
        } else if f == "--get-settings"@ {
            r is GetSettings
        } else if f == "--set-sensitivity"@ {
            if a.len() < 3 {
                fails_with(r, seq!["Usage: cosmic-clevetura --set-sensitivity <1-9>"@])
            } else {
                let level: u32 = match parsed_u32(a[2]) { Some(v) => v, None => 0 };
                if 1 <= level <= 9 {
                    r == CliCommand::SetSensitivity(level)
                } else {
                    fails_with(r, seq!["Sensitivity must be 1-9"@])
                }
            }
        } else if f == "--ble-scan"@ {
            r is BleScan
        } else if f == "--ble-info"@ {
            if a.len() >= 3 {
                r matches CliCommand::BleInfo(Some(addr)) && addr@ == a[2]
            } else {
                r matches CliCommand::BleInfo(None)
            }
        } else if f == "--help"@ || f == "-h"@ {
            r is Help
        } else if f == "--version"@ || f == "-v"@ {
            r is Version
        } else if f == "--ai-off"@ {
            r is AiOff
        } else if f == "--ai-on"@ {
            r is AiOn
        } else if f == "--ai-state"@ {
            r is AiState
        } else if f == "--factory-reset"@ {
            r is FactoryReset
        } else if f == "--set-os-mode"@ {
            let mode: i32 = if a.len() > 2 { match parsed_i32(a[2]) { Some(v) => v, None => -1i32 } } else { -1i32 };
            if 0 <= mode <= 2 {
                r == CliCommand::SetOsMode(mode)
            } else {
                fails_with(r, seq!["Usage: cosmic-clevetura --set-os-mode <0=win|1=mac|2=linux>"@])
            }
        } else if f == "--settings-describe"@ {
            r is SettingsDescribe
        } else if f == "--settings-set"@ {
            if a.len() < 4 {
                fails_with(r, seq!["Usage: cosmic-clevetura --settings-set <key> <json_value>"@])
            } else {
                r matches CliCommand::SettingsSet(k, v) && k@ == a[2] && v@ == a[3]
            }
        } else if f == "--settings-action"@ {
            if a.len() < 3 {
                fails_with(r, seq!["Usage: cosmic-clevetura --settings-action <action_id>"@])
            } else {
                r matches CliCommand::SettingsAction(id) && id@ == a[2]
            }
        } else {
            fails_with(r, seq!["Unknown argument: "@ + f, "Use --help for usage information"@])
        }
    }
}

fn fail(line: String) -> (r: CliCommand)
    ensures
        fails_with(r, seq![line@]),
{
    let mut v: Vec<String> = Vec::new();
    v.push(line);
    let r = CliCommand::Fail(v);
    assert(v@.map_values(|s: String| s@) =~= seq![line@]);
    r
}

/// Selects the task of the command line `args` (the program name first).
pub fn parse_args(args: &Vec<String>) -> (r: CliCommand)
    ensures
        selects(args@.map_values(|s: String| s@), r),
{
    let ghost a = args@.map_values(|s: String| s@);
    if args.len() <= 1 {
        return CliCommand::RunApplet;
    }
    let f = &args[1];
    assert(a[1] == f@);
    if same_text(f, "--settings") || same_text(f, "-s") {
        CliCommand::OpenSettings
    } else if same_text(f, "--settings-standalone") {
        CliCommand::SettingsStandalone
    } else if same_text(f, "--detect") {
        CliCommand::Detect
    } else if same_text(f, "--info") {
        CliCommand::Info
    } else if same_text(f, "--probe") {
        CliCommand::Probe
    } else if same_text(f, "--watch") {
        CliCommand::Watch
    } else if same_text(f, "--get-settings") {
        CliCommand::GetSettings
    } else if same_text(f, "--set-sensitivity") {
        if args.len() < 3 {
            return fail(string_of("Usage: cosmic-clevetura --set-sensitivity <1-9>"));
        }
        assert(a[2] == args@[2]@);
        let level: u32 = match parse_u32(args[2].as_str()) { Some(v) => v, None => 0 };
        if 1 <= level && level <= 9 {
            CliCommand::SetSensitivity(level)
        } else {
            fail(string_of("Sensitivity must be 1-9"))
        }
    } else if same_text(f, "--ble-scan") {
        CliCommand::BleScan
    } else if same_text(f, "--ble-info") {
        if args.len() >= 3 {
            assert(a[2] == args@[2]@);
            CliCommand::BleInfo(Some(args[2].clone()))
        } else {
            CliCommand::BleInfo(None)
        }
    } else if same_text(f, "--help") || same_text(f, "-h") {
        CliCommand::Help
    } else if same_text(f, "--version") || same_text(f, "-v") {
        CliCommand::Version
    } else if same_text(f, "--ai-off") {
        CliCommand::AiOff
    } else if same_text(f, "--ai-on") {
        CliCommand::AiOn
    } else if same_text(f, "--ai-state") {
        CliCommand::AiState
    } else if same_text(f, "--factory-reset") {
        CliCommand::FactoryReset
    } else if same_text(f, "--set-os-mode") {
        let mode: i32 = if args.len() > 2 {
            assert(a[2] == args@[2]@);
            match parse_i32(args[2].as_str()) { Some(v) => v, None => -1 }
        } else {
            -1
        };
        if 0 <= mode && mode <= 2 {
            CliCommand::SetOsMode(mode)
        } else {
            fail(string_of("Usage: cosmic-clevetura --set-os-mode <0=win|1=mac|2=linux>"))
        }
    } else if same_text(f, "--settings-describe") {
        CliCommand::SettingsDescribe
    } else if same_text(f, "--settings-set") {
        if args.len() < 4 {
            return fail(string_of("Usage: cosmic-clevetura --settings-set <key> <json_value>"));
        }
        assert(a[2] == args@[2]@ && a[3] == args@[3]@);
        CliCommand::SettingsSet(args[2].clone(), args[3].clone())
    } else if same_text(f, "--settings-action") {
        if args.len() < 3 {
            return fail(string_of("Usage: cosmic-clevetura --settings-action <action_id>"));
        }
        assert(a[2] == args@[2]@);
        CliCommand::SettingsAction(args[2].clone())
    } else {
        let mut first = string_of("Unknown argument: ");
        push_str(&mut first, f.as_str());
        let mut v: Vec<String> = Vec::new();
        v.push(first);
        v.push(string_of("Use --help for usage information"));
        let r = CliCommand::Fail(v);
        assert(v@.map_values(|s: String| s@) =~= seq!["Unknown argument: "@ + f@, "Use --help for usage information"@]);
        r
    }
}

/// The name of OS mode `mode` (0-2).
pub fn os_mode_name(mode: i32) -> (r: &'static str)
    requires
        0 <= mode <= 2,
    ensures
        r@ == if mode == 0 { "Windows"@ } else if mode == 1 { "macOS"@ } else { "Linux"@ },
{
    if mode == 0 { "Windows" } else if mode == 1 { "macOS" } else { "Linux" }
}

/// The usage text of program `program`, line by line.
pub open spec fn help_text(program: Seq<char>) -> Seq<Seq<char>> {
    seq![
        "Clevetura TouchOnKeys for COSMIC Desktop"@,
        ""@,
        "Usage: "@ + program + " [OPTIONS]"@,
        ""@,
        "Options:"@,
        "  (none)             Run as COSMIC panel applet"@,
        "  --settings, -s     Open settings (via hub or standalone)"@,
        "  --settings-standalone  Open standalone settings window"@,
        "  --detect           Detect connected Clevetura keyboards"@,
        "  --probe            Probe HID feature reports (development)"@,
        "  --watch            Watch report 0xDB for changes (development)"@,
        "  --get-settings     Read current settings from keyboard firmware"@,
        "  --set-sensitivity <1-9>  Set AI touch sensitivity level"@,
        "  --ble-scan         Scan for Clevetura BLE devices"@,
        "  --ble-info [addr]  Read device info over BLE"@,
        "  --version, -v      Show version information"@,
        "  --help, -h         Show this help message"@,
        ""@,
        "Configuration: ~/.config/cosmic-clevetura/config.json"@,
    ]
}

/// The usage text of program `program`, line by line.
pub fn help_lines(program: &str) -> (r: Vec<String>)
    ensures
        r@.map_values(|s: String| s@) == help_text(program@),
{
    proof {
        reveal_strlit("");
    }
    let mut usage = string_of("Usage: ");
    push_str(&mut usage, program);
    push_str(&mut usage, " [OPTIONS]");
    let r: Vec<String> = vec![
        string_of("Clevetura TouchOnKeys for COSMIC Desktop"),
        String::new(),
        usage,
        String::new(),
        string_of("Options:"),
        string_of("  (none)             Run as COSMIC panel applet"),
        string_of("  --settings, -s     Open settings (via hub or standalone)"),
        string_of("  --settings-standalone  Open standalone settings window"),
        string_of("  --detect           Detect connected Clevetura keyboards"),
        string_of("  --probe            Probe HID feature reports (development)"),
        string_of("  --watch            Watch report 0xDB for changes (development)"),
        string_of("  --get-settings     Read current settings from keyboard firmware"),
        string_of("  --set-sensitivity <1-9>  Set AI touch sensitivity level"),
        string_of("  --ble-scan         Scan for Clevetura BLE devices"),
        string_of("  --ble-info [addr]  Read device info over BLE"),
        string_of("  --version, -v      Show version information"),
        string_of("  --help, -h         Show this help message"),
        String::new(),
        string_of("Configuration: ~/.config/cosmic-clevetura/config.json"),
    ];
    assert forall|i: int| 0 <= i < r@.len() implies r@.map_values(|s: String| s@)[i] == help_text(program@)[i] by {
    }
    assert(r@.map_values(|s: String| s@) =~= help_text(program@));
    r
}

} // verus!
