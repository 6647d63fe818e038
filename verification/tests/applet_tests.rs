use cosmic_clevetura::applet::{
    command_plan, iteration_events, LoopEvent,
    after_ble_read, ble_address_to_try, firmware_values,
    after_usb_authorization, command_settings, connection_label, keyboard_icon_svg, settings_route,
    usb_needs_authorization, AppletStatus, ConnectionMode, KeyboardCommand, SettingsRoute, TextStyle,
};
use cosmic_clevetura::config::Config;
use cosmic_clevetura::keyboard::{KeyboardMode, KeyboardState};
use cosmic_clevetura::proto::{AppSettings, GlobalSettings, HeartBeatBattery};

fn connected(battery: Option<i8>, fw: Option<&str>) -> KeyboardState {
    KeyboardState {
        connected: true,
        battery_percent: battery,
        firmware_version: fw.map(|s| s.to_string()),
        protocol_version: None,
        serial_number: None,
        mode: KeyboardMode::Unknown,
    }
}

#[test]
fn popup_while_disconnected() {
    let s = AppletStatus::new(Config::default());
    assert_eq!(s.current_sensitivity(), 5);
    assert_eq!(s.tooltip(), "Clevetura (Disconnected)");
    let m = s.popup_model();
    assert_eq!(m.info, vec![
        (TextStyle::Body, "Disconnected".to_string()),
        (TextStyle::Caption, "Connect your Clevetura keyboard via USB or Bluetooth".to_string()),
    ]);
    assert_eq!(m.sensitivity_label, "Touch Sensitivity: 5/9");
    assert_eq!((m.decrease_to, m.increase_to), (None, None));
}

#[test]
fn popup_while_connected() {
    let mut s = AppletStatus::new(Config::default());
    s.apply_state_update(connected(Some(64), Some("1.4.0")), Some(9), None, "USB");
    assert_eq!(s.current_sensitivity(), 9);
    assert_eq!(s.battery_percent(), Some(64));
    assert_eq!(s.tooltip(), "Clevetura (Connected)");
    let m = s.popup_model();
    assert_eq!(m.info, vec![
        (TextStyle::Body, "Connected via USB".to_string()),
        (TextStyle::Body, "Battery: 64%".to_string()),
        (TextStyle::Caption, "Firmware: 1.4.0".to_string()),
    ]);
    assert_eq!(m.sensitivity_label, "Touch Sensitivity: 9/9");
    assert_eq!((m.decrease_to, m.increase_to), (Some(8), None));

    s.apply_state_update(connected(Some(-1), None), None, Some(HeartBeatBattery { level: 30, charging: true }), "Bluetooth");
    assert_eq!(s.current_sensitivity(), 9);
    assert_eq!(s.battery_percent(), Some(30));
    let m = s.popup_model();
    assert_eq!(m.info[1], (TextStyle::Body, "Battery: 30% (charging)".to_string()));

    let mut s = AppletStatus::new(Config::default());
    s.apply_state_update(connected(Some(-5), None), None, None, "");
    assert!(s.popup_model().info.is_empty());
    assert!(matches!(s.set_sensitivity(2), KeyboardCommand::SetSensitivity(2)));
    assert_eq!(s.current_sensitivity(), 2);
}

#[test]
fn connection_decisions() {
    let usb_ok = ConnectionMode::Usb { authorized: true };
    let ble = ConnectionMode::Ble { address: "AA".into() };
    assert!(matches!(settings_route(&usb_ok, false), SettingsRoute::Usb));
    assert!(matches!(settings_route(&ble, true), SettingsRoute::Ble));
    assert!(matches!(settings_route(&ble, false), SettingsRoute::Refused(e) if e == "BLE not connected"));
    assert!(matches!(settings_route(&ConnectionMode::Disconnected, true), SettingsRoute::Refused(e) if e == "Not connected"));
    assert!(!usb_needs_authorization(&usb_ok));
    assert!(usb_needs_authorization(&ConnectionMode::Usb { authorized: false }));
    let (mode, first) = after_usb_authorization(&ConnectionMode::Disconnected, true);
    assert!(matches!(mode, ConnectionMode::Usb { authorized: true }) && first);
    let (mode, first) = after_usb_authorization(&ConnectionMode::Usb { authorized: false }, true);
    assert!(matches!(mode, ConnectionMode::Usb { authorized: true }) && !first);
    let (mode, first) = after_usb_authorization(&ble, false);
    assert!(matches!(mode, ConnectionMode::Usb { authorized: false }) && !first);
    assert_eq!(connection_label(&usb_ok, true), "USB");
    assert_eq!(connection_label(&ble, true), "Bluetooth");
    assert_eq!(connection_label(&ble, false), "");
    let s = command_settings(KeyboardCommand::SetSensitivity(4));
    assert_eq!(s.global.unwrap().current_ai_level, Some(4));
}

#[test]
fn icon_matches_template() {
    let color = "rgb(1,2,3)";
    for mode in [KeyboardMode::Typing, KeyboardMode::Touch, KeyboardMode::Unknown] {
        let wave2 = match mode {
            KeyboardMode::Touch => format!(
                r#"<path d="M4 10.5C5.2 9 6.2 8.2 8 8.2C9.8 8.2 10.8 9 12 10.5" fill="none" stroke="{color}" stroke-width="0.8" stroke-linecap="round" opacity="0.6"/>"#
            ),
            _ => String::new(),
        };
        let dot_opacity = match mode {
            KeyboardMode::Unknown => "0.5",
            _ => "1",
        };
        let expected = format!(
            r#"<svg width="16" height="16" viewBox="0 0 16 16" xmlns="http://www.w3.org/2000/svg">
  <path d="M8 1.5L2.5 4V9C2.5 11.5 4.5 13.5 8 14.5C11.5 13.5 13.5 11.5 13.5 9V4L8 1.5Z" fill="none" stroke="{color}" stroke-width="1.2" stroke-linejoin="round"/>
  <path d="M5 9C5.8 8 6.5 7.5 8 7.5C9.5 7.5 10.2 8 11 9" fill="none" stroke="{color}" stroke-width="1" stroke-linecap="round"/>
  {wave2}
  <circle cx="8" cy="5.5" r="1" fill="{color}" opacity="{dot_opacity}"/>
</svg>"#
        );
        assert_eq!(keyboard_icon_svg(color, &mode), expected);
    }
}

#[test]
fn ble_poll_decisions() {
    let saved = Some("AA:BB".to_string());
    assert_eq!(ble_address_to_try(false, &saved), Some("AA:BB".to_string()));
    assert_eq!(ble_address_to_try(true, &saved), None);
    assert_eq!(ble_address_to_try(false, &None), None);

    let settings = AppSettings {
        global: Some(GlobalSettings { current_ai_level: Some(6), ..Default::default() }),
        ..Default::default()
    };
    let (level, global) = firmware_values(settings.clone());
    assert_eq!(level, Some(6));
    assert_eq!(global, settings.global);

    let mode = ConnectionMode::Ble { address: "AA:BB".to_string() };
    let ok = after_ble_read(mode.clone(), Some(Ok(settings)));
    assert!(ok.keep_connection);
    assert!(ok.state.connected);
    assert_eq!(ok.ai_level, Some(6));
    assert!(matches!(ok.mode, ConnectionMode::Ble { .. }));

    let lost = after_ble_read(mode.clone(), Some(Err("timeout".to_string())));
    assert!(!lost.keep_connection);
    assert!(!lost.state.connected);
    assert!(matches!(lost.mode, ConnectionMode::Disconnected));
    assert_eq!(lost.ai_level, None);

    let none = after_ble_read(ConnectionMode::Disconnected, None);
    assert!(!none.keep_connection);
    assert!(matches!(none.mode, ConnectionMode::Disconnected));
}

#[test]
fn iteration_plan_and_events() {
    let mode = ConnectionMode::Usb { authorized: true };
    let plan = command_plan(
        &mode,
        false,
        vec![
            KeyboardCommand::SetSensitivity(3),
            KeyboardCommand::SetGlobalSettings(GlobalSettings { fn_lock: Some(true), ..Default::default() }),
        ],
    );
    assert_eq!(plan.len(), 2);
    assert!(matches!(plan[0].0, SettingsRoute::Usb));
    assert_eq!(plan[0].1.global.as_ref().unwrap().current_ai_level, Some(3));
    assert_eq!(plan[1].1.global.as_ref().unwrap().fn_lock, Some(true));
    let refused = command_plan(&ConnectionMode::Disconnected, false, vec![KeyboardCommand::SetSensitivity(3)]);
    assert!(matches!(&refused[0].0, SettingsRoute::Refused(e) if e == "Not connected"));

    let events = iteration_events(
        vec![Ok(()), Err("BLE not connected".to_string())],
        &mode,
        connected(Some(50), None),
        Some(4),
        None,
        None,
    );
    assert_eq!(events.len(), 3);
    assert!(matches!(&events[0], LoopEvent::SettingsResult(Ok(()))));
    assert!(matches!(&events[1], LoopEvent::SettingsResult(Err(e)) if e == "BLE not connected"));
    match &events[2] {
        LoopEvent::StateUpdate(u) => {
            assert_eq!(u.connection_type, "USB");
            assert_eq!(u.ai_level, Some(4));
            assert!(u.hw_state.connected);
        }
        _ => panic!("the state update comes last"),
    }
    let quiet = iteration_events(Vec::new(), &mode, KeyboardState::default(), None, None, None);
    assert_eq!(quiet.len(), 1);
    assert!(matches!(&quiet[0], LoopEvent::StateUpdate(u) if u.connection_type.is_empty()));
}
