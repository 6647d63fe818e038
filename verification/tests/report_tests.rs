use cosmic_clevetura::ble::BleDeviceInfo;
use cosmic_clevetura::hid::DeviceInfo;
use cosmic_clevetura::proto::{
    AppSettings, GlobalSettings, HeartBeatBattery, ProfileSettings, SliderConfig, SliderSettings,
    TouchZoneSettings,
};
use cosmic_clevetura::report::{
    ble_info_report, ble_scan_report, detection_report, device_info_report, hex_dump_lines,
    probe_report, settings_report, DeviceInfoReads, ReportWatch,
};
use cosmic_clevetura::text::TextLines;

fn lines(t: &TextLines) -> Vec<&str> {
    t.lines.iter().map(|s| s.as_str()).collect()
}

#[test]
fn hex_dump_breaks_every_sixteen_bytes() {
    let data: Vec<u8> = (0u8..18).collect();
    let dump = hex_dump_lines("0xDB:", "     ", &data);
    assert_eq!(
        lines(&dump),
        vec![
            "0xDB: 00 01 02 03 04 05 06 07 08 09 0a 0b 0c 0d 0e 0f",
            "      10 11",
        ]
    );
    let empty = hex_dump_lines("", "", &[]);
    assert_eq!(lines(&empty), vec![""]);
}

#[test]
fn settings_report_lists_what_is_set() {
    let settings = AppSettings {
        global: Some(GlobalSettings {
            current_ai_level: Some(7),
            tap1f_enable: Some(true),
            tap2f_enable: Some(false),
            swap_click_buttons: Some(false),
            dominant_hand: Some(1),
            ..Default::default()
        }),
        global_profile: Some(ProfileSettings {
            id: 3,
            touch_zone: Some(TouchZoneSettings {
                slider: Some(SliderSettings {
                    left: Some(SliderConfig { sensitivity: Some(5), ..Default::default() }),
                    right: Some(SliderConfig::default()),
                }),
            }),
            ..Default::default()
        }),
        counter: None,
    };
    let report = settings_report(&Ok(settings));
    assert!(report.err.lines.is_empty());
    assert_eq!(
        lines(&report.out),
        vec![
            "Keyboard Settings (from firmware)",
            "==================================",
            "",
            "Global Settings:",
            "  AI Sensitivity:    7/9",
            "  1-finger tap:      ON",
            "  2-finger tap:      OFF",
            "  Swap clicks:       NO",
            "  Dominant hand:     Left",
            "",
            "Global Profile (id=3):",
            "  Left slider:       sensitivity=5",
            "  Right slider:      sensitivity=0",
        ]
    );
    let failed = settings_report(&Err("timeout".to_string()));
    assert!(failed.out.lines.is_empty());
    assert_eq!(lines(&failed.err), vec!["Failed to get settings: timeout"]);
}

fn device(iface: i32, pid: u16) -> DeviceInfo {
    DeviceInfo {
        product_name: "CLVX S".to_string(),
        vendor_id: 0x3554,
        product_id: pid,
        serial: "ABC".to_string(),
        interface_number: iface,
        path: format!("/dev/hidraw{iface}"),
        usage_page: 0xff60,
        usage: 0x61,
    }
}

#[test]
fn detection_report_counts_products_and_interfaces() {
    let devices = vec![device(0, 0xfa7e), device(1, 0xfa7e)];
    let report = detection_report(&Ok(devices));
    assert!(report.err.lines.is_empty());
    let out = lines(&report.out);
    assert_eq!(out[0], "Clevetura Device Detection Report");
    assert_eq!(out[3], "Found 1 device(s) with 2 HID interface(s):");
    assert_eq!(out[4], "");
    assert_eq!(out[5], "  CLVX S (VID: 3554, PID: fa7e)");
    assert_eq!(out[6], "    Serial:    ABC");
    assert_eq!(out[7], "    Interface: 0");
    assert_eq!(out[8], "    Path:      /dev/hidraw0");
    assert_eq!(out[9], "    Usage:     page=0xff60 usage=0x0061");
    assert_eq!(out[10], "");
    assert_eq!(out[13], "    Interface: 1");
    assert_eq!(out.len(), 17);
}

#[test]
fn detection_report_without_devices_gives_troubleshooting() {
    let report = detection_report(&Ok(Vec::new()));
    let out = lines(&report.out);
    assert_eq!(out[3], "No Clevetura devices found.");
    assert_eq!(out[5], "Troubleshooting:");
    assert_eq!(out.last().copied(), Some("  3. Reconnect the keyboard"));
    let failed = detection_report(&Err("no backend".to_string()));
    assert_eq!(lines(&failed.out).len(), 3);
    assert_eq!(lines(&failed.err), vec!["Error enumerating HID devices: no backend"]);
}

#[test]
fn device_info_report_shows_values_and_errors() {
    let reads = DeviceInfoReads {
        authorize: Ok(()),
        firmware_version: Ok("1.2.3".to_string()),
        protocol_version: Err("bad".to_string()),
        serial_number: Ok("0a0b".to_string()),
        battery: Ok(-1),
        raw_info: Ok(vec![0xde, 0xad]),
    };
    assert_eq!(
        lines(&device_info_report(&reads)),
        vec![
            "Clevetura Device Info",
            "=====================",
            "",
            "Authorization:     OK",
            "Firmware version:  1.2.3",
            "Protocol version:  (error: bad)",
            "Serial number:     0a0b",
            "Battery level:     -1%",
            "",
            "Raw device info (2 bytes):",
            " de ad",
        ]
    );
}

#[test]
fn probe_report_lists_feature_reports() {
    let reports = vec![(0xdbu8, vec![1u8, 2, 3])];
    let found = probe_report(2, &Ok(("CLVX S".to_string(), 2)), &reports);
    assert_eq!(
        lines(&found),
        vec![
            "=== Interface 2 ===",
            "Connected to CLVX S (interface 2)",
            "",
            "Report 0xdb (3 bytes):",
            " 01 02 03",
            "",
        ]
    );
    let none = probe_report(0, &Ok(("CLVX S".to_string(), 0)), &Vec::new());
    assert_eq!(
        lines(&none),
        vec![
            "=== Interface 0 ===",
            "Connected to CLVX S (interface 0)",
            "",
            "No feature reports found on this interface.",
            "",
        ]
    );
    let closed = probe_report(1, &Err("busy".to_string()), &Vec::new());
    assert_eq!(lines(&closed), vec!["=== Interface 1 ===", "Could not open: busy", ""]);
}

#[test]
fn watch_prints_only_changes() {
    let mut watch = ReportWatch::new();
    let first = watch.observe(&[1, 2, 3]);
    assert_eq!(lines(&first), vec!["0xDB: 01 02 03", ""]);
    let same = watch.observe(&[1, 2, 3]);
    assert!(same.lines.is_empty());
    let changed = watch.observe(&[1, 9, 3]);
    assert_eq!(lines(&changed), vec!["Changed bytes: [1]: 02->09", "0xDB: 01 09 03", ""]);
    assert_eq!(&watch.last[..3], &[1, 9, 3]);
}

#[test]
fn ble_info_report_lists_settings_and_battery() {
    let settings = AppSettings {
        global: Some(GlobalSettings {
            current_ai_level: Some(4),
            fn_lock: Some(true),
            ..Default::default()
        }),
        ..Default::default()
    };
    let battery = Some(HeartBeatBattery { level: 80, charging: true });
    assert_eq!(
        lines(&ble_info_report(&Ok(settings), &Ok(battery))),
        vec![
            "Clevetura BLE Device Info",
            "=========================",
            "",
            "AI Sensitivity:    4/9",
            "Fn Lock:           ON",
            "Battery:           80% (charging)",
            "",
            "Disconnected.",
        ]
    );
    assert_eq!(
        lines(&ble_info_report(&Err("gone".to_string()), &Ok(None))),
        vec![
            "Clevetura BLE Device Info",
            "=========================",
            "",
            "Settings:          (error: gone)",
            "Battery:           (no data)",
            "",
            "Disconnected.",
        ]
    );
}

#[test]
fn ble_scan_report_lists_devices() {
    let devices = vec![BleDeviceInfo { name: "CLVX S".to_string(), address: "AA:BB".to_string() }];
    let report = ble_scan_report(&Ok(devices));
    assert_eq!(lines(&report.out), vec!["Found 1 device(s):", "", "  CLVX S (AA:BB)"]);
    let empty = ble_scan_report(&Ok(Vec::new()));
    assert_eq!(lines(&empty.out), vec!["No Clevetura BLE devices found."]);
    let failed = ble_scan_report(&Err("adapter".to_string()));
    assert_eq!(lines(&failed.err), vec!["BLE scan error: adapter"]);
}
