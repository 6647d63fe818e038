use cosmic_clevetura::applet::{
    keyboard_icon_svg, AppletStatus, PanelIcon, PressAction, DISCONNECTED_ICON, POPUP_HEIGHT,
    POPUP_WIDTH,
};
use cosmic_clevetura::config::{AppProfile, Config, SliderAction};
use cosmic_clevetura::keyboard::{KeyboardMode, KeyboardState};
use cosmic_clevetura::settings_page::{init, page_view};

#[test]
fn panel_draws_icon_only_while_connected() {
    let mut status = AppletStatus::new(Config::default());
    let view = status.panel_view("rgb(1,2,3)", None);
    match view.icon {
        PanelIcon::Named(name) => assert_eq!(name, DISCONNECTED_ICON),
        PanelIcon::Drawn(_) => panic!("drawn icon while disconnected"),
    }
    assert_eq!(view.tooltip, "Clevetura (Disconnected)");
    assert!(!view.popup_open);
    assert_eq!(view.press, PressAction::OpenPopup { width: POPUP_WIDTH, height: POPUP_HEIGHT });

    status.state = KeyboardState {
        connected: true,
        battery_percent: None,
        firmware_version: None,
        protocol_version: None,
        serial_number: None,
        mode: KeyboardMode::Touch,
    };
    let view = status.panel_view("rgb(1,2,3)", Some(7));
    match view.icon {
        PanelIcon::Drawn(svg) => assert_eq!(svg, keyboard_icon_svg("rgb(1,2,3)", &KeyboardMode::Touch)),
        PanelIcon::Named(_) => panic!("theme icon while connected"),
    }
    assert_eq!(view.tooltip, "Clevetura (Touch)");
    assert!(view.popup_open);
    assert_eq!(view.press, PressAction::ClosePopup(7));
}

#[test]
fn settings_page_view_shows_state() {
    let mut config = Config::default();
    config.sensitivity = 4;
    let mut state = init(config.clone());
    let view = page_view(&state);
    assert_eq!(view.level_text, "Level 4 of 9");
    assert_eq!(view.level_buttons.len(), 9);
    assert_eq!(view.level_buttons[3], (4, true));
    assert_eq!(view.level_buttons[0], (1, false));
    assert_eq!(view.level_buttons[8], (9, false));
    assert!(!view.profiles_enabled);
    assert!(view.profile_rows.is_empty());
    assert!(view.add_form.is_none());
    assert!(view.status.is_none());

    state.config.profiles_enabled = true;
    state.config.profiles = vec![AppProfile {
        name: "Gimp".to_string(),
        app_id: "org.gimp.GIMP".to_string(),
        sensitivity: 2,
        left_slider: SliderAction::Volume,
        right_slider: SliderAction::ZoomLevel,
    }];
    state.new_profile_name = "Kate".to_string();
    state.status_message = "Saved".to_string();
    state.right_slider_idx = 3;
    let view = page_view(&state);
    assert_eq!(view.profile_rows, vec![("Gimp (org.gimp.GIMP)".to_string(), 0)]);
    assert_eq!(view.add_form, Some(("Kate".to_string(), String::new())));
    assert_eq!(view.status, Some("Saved".to_string()));
    assert_eq!(view.right_selected, 3);
}
