use cosmic_clevetura::keyboard::{
    auth_key_bytes, battery_level_from_payload, check_sensitivity_level, command_report,
    firmware_version_from_payload, parse_command_response, poll_state, protocol_version_from_payload,
    serial_number_from_payload, DeviceReads, KeyboardMode, KeyboardState, CMD_AUTHORIZE,
};

#[test]
fn command_report_layout() {
    let key = auth_key_bytes();
    let r = command_report(CMD_AUTHORIZE, &key);
    assert_eq!(r.len(), 64);
    assert_eq!(&r[..2], &[0x21, 121]);
    assert_eq!(&r[2..10], &[0x96, 0x25, 0xa6, 0xd9, 0xfb, 0x64, 0xcd, 0xea]);
    assert!(r[10..].iter().all(|&b| b == 0));
    let long: Vec<u8> = (1..=70).collect();
    let r = command_report(5, &long);
    assert_eq!(&r[2..63], &long[..61]);
    assert_eq!(r[63], 0);
}

#[test]
fn command_answers() {
    let answer = |id: u8, read: &[u8]| parse_command_response(id, read).unwrap();
    assert_eq!(answer(1, &[]).unwrap_err(), "No response from device (timeout)");
    assert_eq!(answer(1, &[0x22, 1, 7, 8]).unwrap(), vec![7, 8]);
    assert_eq!(answer(1, &[0x22, 1]).unwrap(), Vec::<u8>::new());
    assert_eq!(answer(1, &[0x22]).unwrap(), Vec::<u8>::new());
    assert_eq!(answer(0x83, &[0x22, 2, 7]).unwrap_err(), "Device returned error for command 0x83");
    // Reports that are not answers are skipped.
    assert!(parse_command_response(1, &[1, 9, 9]).is_none());
    assert!(parse_command_response(0x0a, &[2, 9]).is_none());
    assert!(parse_command_response(1, &[0x24, 0x22]).is_none());
}

#[test]
fn answer_values() {
    assert_eq!(battery_level_from_payload(&[0xff]).unwrap(), -1);
    assert_eq!(battery_level_from_payload(&[77, 1]).unwrap(), 77);
    assert_eq!(battery_level_from_payload(&[]).unwrap_err(), "Empty battery response");
    assert_eq!(firmware_version_from_payload(&[1, 2, 3]).unwrap(), "1.2.3");
    assert_eq!(
        firmware_version_from_payload(&[1, 2]).unwrap_err(),
        "Firmware version response too short (2 bytes)"
    );
    assert_eq!(protocol_version_from_payload(&[0, 10, 200, 5]).unwrap(), "0.10.200");
    assert_eq!(
        protocol_version_from_payload(&[]).unwrap_err(),
        "Protocol version response too short (0 bytes)"
    );
    assert_eq!(serial_number_from_payload(&[0x78, 0x56, 0x34, 0x12]), "000012345678");
    assert_eq!(serial_number_from_payload(&[0xff, 0xff, 0xff, 0xff, 1]), "0000FFFFFFFF");
    assert_eq!(serial_number_from_payload(&[0xab, 0x01]), "ab01");
}

#[test]
fn sensitivity_levels() {
    assert!(check_sensitivity_level(1).is_ok());
    assert!(check_sensitivity_level(9).is_ok());
    assert_eq!(check_sensitivity_level(0).unwrap_err(), "Sensitivity must be 1-9, got 0");
    assert_eq!(check_sensitivity_level(10).unwrap_err(), "Sensitivity must be 1-9, got 10");
}

#[test]
fn keyboard_state_from_polls() {
    let s = poll_state(None);
    assert!(!s.connected);
    assert_eq!(s.mode, KeyboardMode::Unknown);
    assert_eq!(s.battery_percent, None);
    let d = KeyboardState::default();
    assert!(!d.connected);
    let s = poll_state(Some(DeviceReads {
        battery: Ok(55),
        firmware_version: Ok("1.2.3".to_string()),
        protocol_version: Err("x".to_string()),
        serial_number: Ok("ABC".to_string()),
    }));
    assert!(s.connected);
    assert_eq!(s.battery_percent, Some(55));
    assert_eq!(s.firmware_version.as_deref(), Some("1.2.3"));
    assert_eq!(s.protocol_version, None);
    assert_eq!(s.serial_number.as_deref(), Some("ABC"));
    assert_eq!(KeyboardMode::Touch.display_name(), "Touch");
}
