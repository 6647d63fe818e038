use cosmic_clevetura::hid::{
    find_interface, is_connected, known_product_name, select_devices, unique_product_count,
    HidDeviceRecord, CLVX_S_PID, VENDOR_ID,
};
use cosmic_clevetura::slider_actions::{decrement_command, increment_command};
use cosmic_clevetura::config::SliderAction;

fn record(vendor_id: u16, product_id: u16, iface: i32, product: Option<&str>, serial: Option<&str>) -> HidDeviceRecord {
    HidDeviceRecord {
        vendor_id,
        product_id,
        product_string: product.map(|s| s.to_string()),
        serial_number: serial.map(|s| s.to_string()),
        interface_number: iface,
        path: format!("/dev/hidraw{iface}"),
        usage_page: 0xff00,
        usage: 1,
    }
}

#[test]
fn selecting_clevetura_interfaces() {
    let found = vec![
        record(VENDOR_ID, CLVX_S_PID, 0, Some("Keyboard"), Some("123")),
        record(0x046d, 0xc52b, 0, Some("Mouse"), None),
        record(VENDOR_ID, 0x1111, 2, Some("Prototype"), None),
        record(VENDOR_ID, 0x2222, 1, None, None),
    ];
    let devices = select_devices(&found);
    assert_eq!(devices.len(), 3);
    assert_eq!(devices[0].product_name, "CLVX S");
    assert_eq!(devices[0].serial, "123");
    assert_eq!(devices[1].product_name, "Prototype");
    assert_eq!(devices[1].serial, "(unknown)");
    assert_eq!(devices[1].path, "/dev/hidraw2");
    assert_eq!(devices[2].product_name, "Unknown Clevetura");
    assert_eq!(unique_product_count(&devices), 3);
    assert_eq!(find_interface(&devices, 2), Some(1));
    assert_eq!(find_interface(&devices, 5), None);
    assert!(is_connected(&Ok(devices)));
    assert!(!is_connected(&Ok(Vec::new())));
    assert!(!is_connected(&Err("no hid".into())));
    assert_eq!(known_product_name(CLVX_S_PID), Some("CLVX S"));
}

#[test]
fn unique_products_counted_once() {
    let found = vec![
        record(VENDOR_ID, CLVX_S_PID, 0, None, None),
        record(VENDOR_ID, CLVX_S_PID, 1, None, None),
        record(VENDOR_ID, CLVX_S_PID, 2, None, None),
    ];
    assert_eq!(unique_product_count(&select_devices(&found)), 1);
}

fn view(c: &cosmic_clevetura::slider_actions::ShellCommand) -> (String, Vec<String>) {
    (c.program.clone(), c.args.clone())
}

#[test]
fn slider_step_commands() {
    let up = increment_command(&SliderAction::Volume).unwrap();
    assert_eq!(view(&up.primary), ("wpctl".to_string(), vec!["set-volume".to_string(), "@DEFAULT_AUDIO_SINK@".to_string(), "5%+".to_string()]));
    assert_eq!(view(up.fallback.as_ref().unwrap()), ("pactl".to_string(), vec!["set-sink-volume".to_string(), "@DEFAULT_SINK@".to_string(), "+5%".to_string()]));
    let down = decrement_command(&SliderAction::Brightness).unwrap();
    assert_eq!(view(&down.primary), ("brightnessctl".to_string(), vec!["set".to_string(), "5%-".to_string()]));
    assert!(down.fallback.is_none());
    let scroll = decrement_command(&SliderAction::ScrollSpeed).unwrap();
    assert_eq!(view(&scroll.primary).1, vec!["click".to_string(), "5".to_string()]);
    let custom = increment_command(&SliderAction::Custom("notify-send hi".into())).unwrap();
    assert_eq!(view(&custom.primary), ("sh".to_string(), vec!["-c".to_string(), "notify-send hi".to_string()]));
    assert!(increment_command(&SliderAction::Custom(String::new())).is_none());
}
