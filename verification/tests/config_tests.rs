use cosmic_clevetura::config::{AppProfile, Config, SliderAction};
use cosmic_clevetura::profiles::{check_and_apply, decide_profile, ProfileChoice};
use cosmic_clevetura::settings_cli::{
    action, apply_setting, cli_to_slider_action, response_after_reset, response_after_save,
    slider_action_to_cli, CliAction,
};
use cosmic_clevetura::settings_page::{
    finish_save, init, slider_action_from_index, slider_action_to_index, update, Message, PageEffect,
};

fn profile(name: &str, app_id: &str, sensitivity: u8) -> AppProfile {
    AppProfile {
        name: name.to_string(),
        app_id: app_id.to_string(),
        sensitivity,
        left_slider: SliderAction::Volume,
        right_slider: SliderAction::ZoomLevel,
    }
}

#[test]
fn slider_labels() {
    assert_eq!(SliderAction::Brightness.label(), "Backlight Brightness");
    assert_eq!(SliderAction::ScrollSpeed.label(), "Scroll Speed");
    assert_eq!(SliderAction::Custom("x".into()).label(), "Custom");
    assert_eq!(SliderAction::Volume.display_text(), "System Volume");
    assert_eq!(
        SliderAction::all_standard(),
        &[
            SliderAction::Brightness,
            SliderAction::Volume,
            SliderAction::MediaScrub,
            SliderAction::ZoomLevel,
            SliderAction::ScrollSpeed,
        ]
    );
}

#[test]
fn defaults() {
    let c = Config::default();
    assert_eq!(c.sensitivity, 5);
    assert_eq!(c.left_slider, SliderAction::Brightness);
    assert_eq!(c.right_slider, SliderAction::Volume);
    assert!(c.profiles.is_empty());
    assert!(!c.profiles_enabled);
    assert_eq!(c.ble_address, None);
    let p = AppProfile::default();
    assert_eq!(p.name, "Default");
    assert_eq!(p.app_id, "");
    assert_eq!(p.sensitivity, 5);
}

#[test]
fn first_matching_profile() {
    let mut c = Config::default();
    c.profiles = vec![profile("A", "org.gimp.GIMP", 3), profile("B", "firefox", 4), profile("C", "firefox", 8)];
    assert_eq!(c.profile_for_app("firefox").unwrap().name, "B");
    assert_eq!(c.profile_index_for_app("org.gimp.GIMP"), Some(0));
    assert!(c.profile_for_app("kate").is_none());
}

#[test]
fn hub_setting_values() {
    let mut c = Config::default();
    assert_eq!(apply_setting(&mut c, "sensitivity", "7").unwrap(), "Updated sensitivity");
    assert_eq!(c.sensitivity, 7);
    assert_eq!(apply_setting(&mut c, "sensitivity", "12").unwrap_err(), "Sensitivity must be 1-9");
    assert!(apply_setting(&mut c, "sensitivity", "abc").unwrap_err().starts_with("Invalid number: "));
    assert_eq!(c.sensitivity, 7);
    assert_eq!(apply_setting(&mut c, "left_slider", "\"media_scrub\"").unwrap(), "Updated left slider");
    assert_eq!(c.left_slider, SliderAction::MediaScrub);
    assert_eq!(apply_setting(&mut c, "right_slider", "\"zoom\"").unwrap(), "Updated right slider");
    assert_eq!(c.right_slider, SliderAction::ZoomLevel);
    assert_eq!(
        apply_setting(&mut c, "right_slider", "\"warp\"").unwrap_err(),
        "Unknown slider action: warp"
    );
    assert!(apply_setting(&mut c, "left_slider", "volume").unwrap_err().starts_with("Invalid string: "));
    assert_eq!(apply_setting(&mut c, "profiles_enabled", "true").unwrap(), "Updated profiles setting");
    assert!(c.profiles_enabled);
    assert!(apply_setting(&mut c, "profiles_enabled", "1").unwrap_err().starts_with("Invalid boolean: "));
    assert_eq!(apply_setting(&mut c, "color", "1").unwrap_err(), "Unknown key: color");
}

#[test]
fn hub_names_and_actions() {
    for a in SliderAction::all_standard() {
        let json = format!("\"{}\"", slider_action_to_cli(a));
        assert_eq!(&cli_to_slider_action(&json).unwrap(), a);
    }
    assert_eq!(slider_action_to_cli(&SliderAction::Custom("ls".into())), "brightness");
    assert!(matches!(action("reset"), CliAction::Reset(c) if c.sensitivity == 5));
    match action("wipe") {
        CliAction::Unknown(m) => assert_eq!(m, "Unknown action: wipe"),
        _ => panic!("expected an unknown action"),
    }
    assert_eq!(response_after_save("Updated sensitivity", Ok(())), (true, "Updated sensitivity".to_string()));
    assert_eq!(response_after_save("x", Err("disk full".into())), (false, "Save failed: disk full".to_string()));
    assert_eq!(response_after_reset(Ok(())), (true, "Reset to defaults".to_string()));
    assert_eq!(response_after_reset(Err("no".into())), (false, "Reset failed: no".to_string()));
}

#[test]
fn settings_page_updates() {
    let mut c = Config::default();
    c.right_slider = SliderAction::ScrollSpeed;
    let mut s = init(c);
    assert_eq!((s.left_slider_idx, s.right_slider_idx), (0, 4));
    assert_eq!(s.status_message, "");

    assert_eq!(update(&mut s, Message::SensitivityChanged(0)), PageEffect::Nothing);
    assert_eq!(s.config.sensitivity, 5);
    assert_eq!(s.status_message, "");
    update(&mut s, Message::SensitivityChanged(8));
    assert_eq!(s.config.sensitivity, 8);
    assert_eq!(s.status_message, "Unsaved changes");

    update(&mut s, Message::LeftSliderSelected(3));
    assert_eq!(s.config.left_slider, SliderAction::ZoomLevel);
    assert_eq!(s.left_slider_idx, 3);
    update(&mut s, Message::RightSliderSelected(9));
    assert_eq!(s.config.right_slider, SliderAction::Brightness);
    assert_eq!(s.right_slider_idx, 9);

    update(&mut s, Message::AddProfile);
    assert!(s.config.profiles.is_empty());
    update(&mut s, Message::NewProfileNameChanged("Gimp".into()));
    update(&mut s, Message::NewProfileAppIdChanged("org.gimp.GIMP".into()));
    update(&mut s, Message::AddProfile);
    assert_eq!(s.config.profiles.len(), 1);
    let p = &s.config.profiles[0];
    assert_eq!((p.name.as_str(), p.app_id.as_str(), p.sensitivity), ("Gimp", "org.gimp.GIMP", 8));
    assert_eq!(p.left_slider, SliderAction::ZoomLevel);
    assert_eq!(s.new_profile_name, "");
    assert_eq!(s.new_profile_app_id, "");

    update(&mut s, Message::RemoveProfile(5));
    assert_eq!(s.config.profiles.len(), 1);
    update(&mut s, Message::RemoveProfile(0));
    assert!(s.config.profiles.is_empty());

    update(&mut s, Message::ProfilesEnabledToggled(true));
    assert!(s.config.profiles_enabled);

    assert_eq!(update(&mut s, Message::Save), PageEffect::Save);
    finish_save(&mut s, PageEffect::Save, Ok(()));
    assert_eq!(s.status_message, "Settings saved");
    finish_save(&mut s, PageEffect::Save, Err("denied".into()));
    assert_eq!(s.status_message, "Error: denied");

    assert_eq!(update(&mut s, Message::ResetDefaults), PageEffect::SaveReset);
    assert_eq!(s.config.sensitivity, 5);
    assert_eq!((s.left_slider_idx, s.right_slider_idx), (0, 1));
    finish_save(&mut s, PageEffect::SaveReset, Ok(()));
    assert_eq!(s.status_message, "Reset to defaults and saved");
}

#[test]
fn dropdown_positions() {
    for i in 0..5 {
        assert_eq!(slider_action_to_index(&slider_action_from_index(i)), i);
    }
    assert_eq!(slider_action_from_index(7), SliderAction::Brightness);
    assert_eq!(slider_action_to_index(&SliderAction::Custom("x".into())), 0);
}

#[test]
fn profile_switching() {
    let mut c = Config::default();
    c.profiles = vec![profile("A", "firefox", 3)];
    let none: Option<String> = None;
    let ff = Some("firefox".to_string());
    let kate = Some("kate".to_string());
    assert_eq!(decide_profile(&c, &none, &ff), None);
    c.profiles_enabled = true;
    assert_eq!(decide_profile(&c, &none, &ff), Some(ProfileChoice::Profile(0)));
    assert_eq!(decide_profile(&c, &ff, &ff), None);
    assert_eq!(decide_profile(&c, &ff, &kate), Some(ProfileChoice::Defaults));
    assert_eq!(decide_profile(&c, &ff, &none), Some(ProfileChoice::Defaults));
    let (current, applied) = check_and_apply(&c, &ff, &none);
    assert_eq!(current, None);
    let applied = applied.unwrap();
    assert_eq!(applied.sensitivity, 5);
    assert_eq!(applied.left_slider, SliderAction::Brightness);
    let (current, applied) = check_and_apply(&c, &none, &none);
    assert!(current.is_none() && applied.is_none());
    let (current, applied) = check_and_apply(&c, &none, &ff);
    assert_eq!(current, ff);
    assert_eq!(applied.unwrap().sensitivity, 3);
    let (current, applied) = check_and_apply(&c, &ff, &ff);
    assert_eq!(current, ff);
    assert!(applied.is_none());
    let (current, applied) = check_and_apply(&c, &ff, &kate);
    assert_eq!(current, kate);
    assert_eq!(applied.unwrap().sensitivity, 5);
    c.profiles_enabled = false;
    let (current, applied) = check_and_apply(&c, &none, &ff);
    assert!(current.is_none() && applied.is_none());
}

#[test]
fn hub_slider_names_read_back() {
    for a in SliderAction::all_standard() {
        let value = format!("\"{}\"", slider_action_to_cli(a));
        assert_eq!(cli_to_slider_action(&value).unwrap(), a.clone());
        let mut c = Config::default();
        let before = c.clone();
        assert_eq!(apply_setting(&mut c, "right_slider", &value).unwrap(), "Updated right slider");
        assert_eq!(c.right_slider, a.clone());
        assert_eq!(c.left_slider, before.left_slider);
        assert_eq!(c.sensitivity, before.sensitivity);
    }
}
