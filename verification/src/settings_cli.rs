//! Settings protocol of the settings hub: the keys it may set, the values it
//! sends as JSON, and the actions it may run.

use vstd::prelude::*;
use crate::config::{Config, SliderAction};
use crate::json::{is_name_char, json_bool, json_string, json_u8, lemma_quoted_plain,
    parse_json_bool, parse_json_string, parse_json_u8, plain_json_string, quoted, unquoted};
use crate::text::{push_str, string_of};

verus! {

/// The name under which the hub knows a slider action; a custom action is
/// shown as "brightness".
pub open spec fn cli_name(a: SliderAction) -> Seq<char> {
    match a {
        SliderAction::Brightness => "brightness"@,
        SliderAction::Volume => "volume"@,
        SliderAction::MediaScrub => "media_scrub"@,
        SliderAction::ZoomLevel => "zoom"@,
        SliderAction::ScrollSpeed => "scroll_speed"@,
        SliderAction::Custom(_) => "brightness"@,
    }
}

/// The standard action that the hub names `name`, if any.
pub open spec fn action_named(name: Seq<char>) -> Option<SliderAction> {
    if name == "brightness"@ {
        Some(SliderAction::Brightness)
    } else if name == "volume"@ {
        Some(SliderAction::Volume)
    } else if name == "media_scrub"@ {
        Some(SliderAction::MediaScrub)
    } else if name == "zoom"@ {
        Some(SliderAction::ZoomLevel)
    } else if name == "scroll_speed"@ {
        Some(SliderAction::ScrollSpeed)
    } else {
        None
    }
}

/// The name under which the hub knows `action`.
pub fn slider_action_to_cli(action: &SliderAction) -> (r: &'static str)
    ensures
        r@ == cli_name(*action),
{
    match action {
        SliderAction::Brightness => "brightness",
        SliderAction::Volume => "volume",
        SliderAction::MediaScrub => "media_scrub",
        SliderAction::ZoomLevel => "zoom",
        SliderAction::ScrollSpeed => "scroll_speed",
        SliderAction::Custom(_) => "brightness",
    }
}

/// The standard action named `name` by the hub, if any.
pub fn action_from_cli_name(name: &String) -> (r: Option<SliderAction>)
    ensures
        r == action_named(name@),
{
    proof {
        reveal_strlit("brightness");
        reveal_strlit("volume");
        reveal_strlit("media_scrub");
        reveal_strlit("zoom");
        reveal_strlit("scroll_speed");
    }
    if crate::text::same_text(name, "brightness") {
        Some(SliderAction::Brightness)
    } else if crate::text::same_text(name, "volume") {
        Some(SliderAction::Volume)
    } else if crate::text::same_text(name, "media_scrub") {
        Some(SliderAction::MediaScrub)
    } else if crate::text::same_text(name, "zoom") {
        Some(SliderAction::ZoomLevel)
    } else if crate::text::same_text(name, "scroll_speed") {
        Some(SliderAction::ScrollSpeed)
    } else {
        None
    }
}

/// The hub's name of a standard action is made of plain-name characters,
/// so its JSON string literal is plain and reads back as the name.
pub proof fn lemma_cli_name_plain(a: SliderAction)
    requires
        !(a is Custom),
    ensures
        plain_json_string(quoted(cli_name(a))),
        unquoted(quoted(cli_name(a))) == cli_name(a),
{
    reveal_strlit("brightness");
    reveal_strlit("volume");
    reveal_strlit("media_scrub");
    reveal_strlit("zoom");
    reveal_strlit("scroll_speed");
    let n = cli_name(a);
    assert forall|i: int| 0 <= i < n.len() implies is_name_char(#[trigger] n[i]) by {
        match a {
            SliderAction::Brightness => assert(n =~= seq!['b', 'r', 'i', 'g', 'h', 't', 'n', 'e', 's', 's']),
            SliderAction::Volume => assert(n =~= seq!['v', 'o', 'l', 'u', 'm', 'e']),
            SliderAction::MediaScrub => assert(n =~= seq!['m', 'e', 'd', 'i', 'a', '_', 's', 'c', 'r', 'u', 'b']),
            SliderAction::ZoomLevel => assert(n =~= seq!['z', 'o', 'o', 'm']),
            SliderAction::ScrollSpeed => assert(n =~= seq!['s', 'c', 'r', 'o', 'l', 'l', '_', 's', 'p', 'e', 'e', 'd']),
            SliderAction::Custom(_) => {},
        }
    }
    lemma_quoted_plain(n);
}

/// The slider action in a JSON string value sent by the hub. The JSON
/// string of the hub's name of a standard action gives that action.
pub fn cli_to_slider_action(value: &str) -> (r: Result<SliderAction, String>)
    ensures
        match json_string(value@) {
            None => r matches Err(e) && "Invalid string: "@.is_prefix_of(e@),
            Some(name) => match action_named(name) {
                Some(a) => r == Ok::<SliderAction, String>(a),
                None => r matches Err(e) && e@ == "Unknown slider action: "@ + name,
            },
        },
        plain_json_string(value@) ==> match action_named(unquoted(value@)) {
            Some(a) => r == Ok::<SliderAction, String>(a),
            None => r matches Err(e) && e@ == "Unknown slider action: "@ + unquoted(value@),
        },
        forall|a: SliderAction| !(a is Custom) && value@ == quoted(#[trigger] cli_name(a))
            ==> r == Ok::<SliderAction, String>(a),
{
    proof {
        assert forall|a: SliderAction| !(a is Custom) && value@ == quoted(#[trigger] cli_name(a))
            implies plain_json_string(value@) && unquoted(value@) == cli_name(a)
            && action_named(cli_name(a)) == Some(a) by {
            lemma_cli_name_plain(a);
            lemma_cli_name_roundtrip(a);
        }
    }
    let s = match parse_json_string(value) {
        Ok(s) => s,
        Err(detail) => {
            let mut e = string_of("Invalid string: ");
            push_str(&mut e, detail.as_str());
            return Err(e);
        },
    };
    match action_from_cli_name(&s) {
        Some(a) => Ok(a),
        None => {
            let mut e = string_of("Unknown slider action: ");
            push_str(&mut e, s.as_str());
            Err(e)
        },
    }
}

/// The configuration after the hub sets `key` to the JSON `value`, and the
/// message for the hub, or why nothing was set.
pub open spec fn setting_applied(old: Config, new: Config, key: Seq<char>, value: Seq<char>,
    r: Result<&'static str, String>) -> bool {
    let unchanged = new == old;
    if key == "sensitivity"@ {
        match json_u8(value) {
            Some(level) => if 1 <= level <= 9 {
                new == (Config { sensitivity: level, ..old }) && (r matches Ok(m) && m@ == "Updated sensitivity"@)
            } else {
                unchanged && (r matches Err(e) && e@ == "Sensitivity must be 1-9"@)
            },
            None => unchanged && (r matches Err(e) && "Invalid number: "@.is_prefix_of(e@)),
        }
    } else if key == "left_slider"@ || key == "right_slider"@ {
        match json_string(value) {
            None => unchanged && (r matches Err(e) && "Invalid string: "@.is_prefix_of(e@)),
            Some(name) => match action_named(name) {
                Some(a) => if key == "left_slider"@ {
                    new == (Config { left_slider: a, ..old }) && (r matches Ok(m) && m@ == "Updated left slider"@)
                } else {
                    new == (Config { right_slider: a, ..old }) && (r matches Ok(m) && m@ == "Updated right slider"@)
                },
                None => unchanged && (r matches Err(e) && e@ == "Unknown slider action: "@ + name),
            },
        }
    } else if key == "profiles_enabled"@ {
        match json_bool(value) {
            Some(b) => new == (Config { profiles_enabled: b, ..old })
                && (r matches Ok(m) && m@ == "Updated profiles setting"@),
            None => unchanged && (r matches Err(e) && "Invalid boolean: "@.is_prefix_of(e@)),
        }
    } else {
        unchanged && (r matches Err(e) && e@ == "Unknown key: "@ + key)
    }
}

/// Sets `key` of `config` to the JSON `value` sent by the hub: the level
/// (1-9), a slider action, or whether profiles are enabled. A slider set to
/// the JSON string of the hub's name of a standard action gets that action.
pub fn apply_setting(config: &mut Config, key: &str, value: &str) -> (r: Result<&'static str, String>)
    ensures
        setting_applied(*old(config), *final(config), key@, value@, r),
        key@ == "profiles_enabled"@ && (value@ == "true"@ || value@ == "false"@) ==> {
            &&& r matches Ok(m) && m@ == "Updated profiles setting"@
            &&& *final(config) == (Config { profiles_enabled: value@ == "true"@, ..*old(config) })
        },
        forall|a: SliderAction| !(a is Custom) && value@ == quoted(#[trigger] cli_name(a)) ==> {
            &&& key@ == "left_slider"@ ==> *final(config) == (Config { left_slider: a, ..*old(config) })
                && (r matches Ok(m) && m@ == "Updated left slider"@)
            &&& key@ == "right_slider"@ ==> *final(config) == (Config { right_slider: a, ..*old(config) })
                && (r matches Ok(m) && m@ == "Updated right slider"@)
        },
{
    proof {
        reveal_strlit("sensitivity");
        reveal_strlit("left_slider");
        reveal_strlit("right_slider");
        reveal_strlit("profiles_enabled");
        assert("sensitivity"@[0] != "left_slider"@[0] && "sensitivity"@[0] != "right_slider"@[0]);
        assert("profiles_enabled"@.len() != "left_slider"@.len());
        assert("profiles_enabled"@.len() != "right_slider"@.len());
        assert("left_slider"@[0] != "right_slider"@[0]);
        reveal_strlit("true");
        reveal_strlit("false");
        assert("true"@.len() != "false"@.len());
    }
    let key_text = string_of(key);
    if crate::text::same_text(&key_text, "sensitivity") {
        match parse_json_u8(value) {
            Ok(level) => {
                if 1 <= level && level <= 9 {
                    config.sensitivity = level;
                    Ok("Updated sensitivity")
                } else {
                    Err(string_of("Sensitivity must be 1-9"))
                }
            },
            Err(detail) => {
                let mut e = string_of("Invalid number: ");
                push_str(&mut e, detail.as_str());
                Err(e)
            },
        }
    } else if crate::text::same_text(&key_text, "left_slider") {
        match cli_to_slider_action(value) {
            Ok(a) => {
                config.left_slider = a;
                Ok("Updated left slider")
            },
            Err(e) => Err(e),
        }
    } else if crate::text::same_text(&key_text, "right_slider") {
        match cli_to_slider_action(value) {
            Ok(a) => {
                config.right_slider = a;
                Ok("Updated right slider")
            },
            Err(e) => Err(e),
        }
    } else if crate::text::same_text(&key_text, "profiles_enabled") {
        match parse_json_bool(value) {
            Ok(enabled) => {
                config.profiles_enabled = enabled;
                Ok("Updated profiles setting")
            },
            Err(detail) => {
                let mut e = string_of("Invalid boolean: ");
                push_str(&mut e, detail.as_str());
                Err(e)
            },
        }
    } else {
        let mut e = string_of("Unknown key: ");
        push_str(&mut e, key);
        Err(e)
    }
}

/// The hub's answer after a setting was applied and the configuration
/// saved: success with the message, or the save error.
pub fn response_after_save(message: &str, saved: Result<(), String>) -> (r: (bool, String))
    ensures
        match saved {
            Ok(()) => r.0 && r.1@ == message@,
            Err(e) => !r.0 && r.1@ == "Save failed: "@ + e@,
        },
{
    match saved {
        Ok(()) => (true, string_of(message)),
        Err(e) => {
            let mut m = string_of("Save failed: ");
            push_str(&mut m, e.as_str());
            (false, m)
        },
    }
}

/// What the hub asked for with an action id.
pub enum CliAction {
    /// Save the default configuration.
    Reset(Config),
    /// No such action; the answer is this message.
    Unknown(String),
}

/// The action with id `id`: "reset" saves the default configuration; any
/// other id is answered as unknown.
pub fn action(id: &str) -> (r: CliAction)
    ensures
        id@ == "reset"@ ==> (r matches CliAction::Reset(c) && crate::config::is_default_config(c)),
        id@ != "reset"@ ==> (r matches CliAction::Unknown(m) && m@ == "Unknown action: "@ + id@),
{
    proof {
        reveal_strlit("reset");
    }
    let id_text = string_of(id);
    if crate::text::same_text(&id_text, "reset") {
        CliAction::Reset(Config::default())
    } else {
        let mut m = string_of("Unknown action: ");
        push_str(&mut m, id);
        CliAction::Unknown(m)
    }
}

/// The hub's answer after the reset configuration was saved.
pub fn response_after_reset(saved: Result<(), String>) -> (r: (bool, String))
    ensures
        match saved {
            Ok(()) => r.0 && r.1@ == "Reset to defaults"@,
            Err(e) => !r.0 && r.1@ == "Reset failed: "@ + e@,
        },
{
    match saved {
        Ok(()) => (true, string_of("Reset to defaults")),
        Err(e) => {
            let mut m = string_of("Reset failed: ");
            push_str(&mut m, e.as_str());
            (false, m)
        },
    }
}

/// Naming law of the hub: the name of a standard action names it again.
pub proof fn lemma_cli_name_roundtrip(a: SliderAction)
    requires
        !(a is Custom),
    ensures
        action_named(cli_name(a)) == Some(a),
{
    reveal_strlit("brightness");
    reveal_strlit("volume");
    reveal_strlit("media_scrub");
    reveal_strlit("zoom");
    reveal_strlit("scroll_speed");
    assert("brightness"@.len() == 10);
    assert("volume"@.len() == 6);
    assert("media_scrub"@.len() == 11);
    assert("zoom"@.len() == 4);
    assert("scroll_speed"@.len() == 12);
}

/// Sensitivity law of the hub: while the configured level is in 1-9, no
/// setting takes it out.
pub proof fn lemma_setting_keeps_sensitivity(old: Config, new: Config, key: Seq<char>, value: Seq<char>,
    r: Result<&'static str, String>)
    requires
        setting_applied(old, new, key, value, r),
        1 <= old.sensitivity <= 9,
    ensures
        1 <= new.sensitivity <= 9,
{
}

/// Hub setting law: a key set to a value that reads as a fitting JSON value
/// succeeds and changes exactly that setting to the value read: the
/// profiles switch to the boolean read (so "false" turns them off); the
/// level to the number read where it is in 1-9; a slider to the standard
/// action named. Everything else in the configuration stays.
pub proof fn lemma_hub_setting_sets_value(old: Config, new: Config, key: Seq<char>, value: Seq<char>,
    r: Result<&'static str, String>)
    requires
        setting_applied(old, new, key, value, r),
    ensures
        key == "profiles_enabled"@ ==> match json_bool(value) {
            Some(b) => r is Ok && new.profiles_enabled == b && new.sensitivity == old.sensitivity
                && new.left_slider == old.left_slider && new.right_slider == old.right_slider
                && new.profiles == old.profiles && new.ble_address == old.ble_address,
            None => r is Err && new == old,
        },
        key == "sensitivity"@ ==> match json_u8(value) {
            Some(n) => if 1 <= n && n <= 9 {
                r is Ok && new.sensitivity == n && new.profiles_enabled == old.profiles_enabled
                    && new.left_slider == old.left_slider && new.right_slider == old.right_slider
                    && new.profiles == old.profiles
            } else {
                r is Err && new == old
            },
            None => r is Err && new == old,
        },
        key == "left_slider"@ ==> match json_string(value) {
            Some(name) => match action_named(name) {
                Some(a) => r is Ok && new.left_slider == a && cli_name(a) == name
                    && new.right_slider == old.right_slider && new.sensitivity == old.sensitivity
                    && new.profiles_enabled == old.profiles_enabled && new.profiles == old.profiles,
                None => r is Err && new == old,
            },
            None => r is Err && new == old,
        },
        key == "right_slider"@ ==> match json_string(value) {
            Some(name) => match action_named(name) {
                Some(a) => r is Ok && new.right_slider == a && cli_name(a) == name
                    && new.left_slider == old.left_slider && new.sensitivity == old.sensitivity
                    && new.profiles_enabled == old.profiles_enabled && new.profiles == old.profiles,
                None => r is Err && new == old,
            },
            None => r is Err && new == old,
        },
{
    reveal_strlit("sensitivity");
    reveal_strlit("left_slider");
    reveal_strlit("right_slider");
    reveal_strlit("profiles_enabled");
    reveal_strlit("brightness");
    reveal_strlit("volume");
    reveal_strlit("media_scrub");
    reveal_strlit("zoom");
    reveal_strlit("scroll_speed");
    assert("sensitivity"@[0] != "left_slider"@[0] && "sensitivity"@[0] != "right_slider"@[0]);
    assert("profiles_enabled"@.len() != "left_slider"@.len());
    assert("profiles_enabled"@.len() != "right_slider"@.len());
    assert("profiles_enabled"@.len() != "sensitivity"@.len());
    assert("left_slider"@[0] != "right_slider"@[0]);
}

} // verus!
