//! Configuration: slider actions, per-application profiles and the
//! top-level settings of the host application.

use vstd::prelude::*;
use crate::text::{same_text, string_of};

verus! {

/// Action that a touch slider can perform.
#[derive(Debug, Clone, PartialEq)]
pub enum SliderAction {
    Brightness,
    Volume,
    MediaScrub,
    ZoomLevel,
    ScrollSpeed,
    Custom(String),
}

/// The label shown for a slider action.
pub open spec fn slider_label(a: SliderAction) -> Seq<char> {
    match a {
        SliderAction::Brightness => "Backlight Brightness"@,
        SliderAction::Volume => "System Volume"@,
        SliderAction::MediaScrub => "Media Scrub"@,
        SliderAction::ZoomLevel => "Zoom Level"@,
        SliderAction::ScrollSpeed => "Scroll Speed"@,
        SliderAction::Custom(_) => "Custom"@,
    }
}

/// The five standard actions, in the order the user interface lists them.
pub open spec fn standard_actions() -> Seq<SliderAction> {
    seq![
        SliderAction::Brightness,
        SliderAction::Volume,
        SliderAction::MediaScrub,
        SliderAction::ZoomLevel,
        SliderAction::ScrollSpeed,
    ]
}

impl SliderAction {
    /// The label shown for this action.
    pub fn label(&self) -> (r: &'static str)
        ensures
            r@ == slider_label(*self),
    {
        match self {
            SliderAction::Brightness => "Backlight Brightness",
            SliderAction::Volume => "System Volume",
            SliderAction::MediaScrub => "Media Scrub",
            SliderAction::ZoomLevel => "Zoom Level",
            SliderAction::ScrollSpeed => "Scroll Speed",
            SliderAction::Custom(_) => "Custom",
        }
    }

    /// The standard (non-custom) actions.
    pub fn all_standard() -> (r: &'static [SliderAction])
        ensures
            r@ == standard_actions(),
    {
        let r: &'static [SliderAction] = &[
            SliderAction::Brightness,
            SliderAction::Volume,
            SliderAction::MediaScrub,
            SliderAction::ZoomLevel,
            SliderAction::ScrollSpeed,
        ];
        assert(r@ =~= standard_actions());
        r
    }

    /// The text shown for this action: its label.
    pub fn display_text(&self) -> (r: String)
        ensures
            r@ == slider_label(*self),
    {
        string_of(self.label())
    }
}

/// Per-application profile settings.
#[derive(Debug, Clone)]
pub struct AppProfile {
    pub name: String,
    pub app_id: String,
    pub sensitivity: u8,
    pub left_slider: SliderAction,
    pub right_slider: SliderAction,
}

impl Default for AppProfile {
    fn default() -> (r: AppProfile)
        ensures
            r.name@ == "Default"@,
            r.app_id@ == Seq::<char>::empty(),
            r.sensitivity == 5,
            r.left_slider == SliderAction::Brightness,
            r.right_slider == SliderAction::Volume,
    {
        AppProfile {
            name: string_of("Default"),
            app_id: String::new(),
            sensitivity: 5,
            left_slider: SliderAction::Brightness,
            right_slider: SliderAction::Volume,
        }
    }
}

/// Top-level configuration.
#[derive(Debug, Clone)]
pub struct Config {
    /// AI sensitivity level (1-9) for type/touch switching.
    pub sensitivity: u8,
    /// Left touch slider action (F2-F6).
    pub left_slider: SliderAction,
    /// Right touch slider action (F7-F11).
    pub right_slider: SliderAction,
    /// Per-application profiles.
    pub profiles: Vec<AppProfile>,
    /// Whether per-app profile switching is enabled.
    pub profiles_enabled: bool,
    /// Saved BLE device address for auto-connect when USB is not available.
    pub ble_address: Option<String>,
}

/// The configuration used where none is saved.
pub open spec fn is_default_config(c: Config) -> bool {
    &&& c.sensitivity == 5
    &&& c.left_slider == SliderAction::Brightness
    &&& c.right_slider == SliderAction::Volume
    &&& c.profiles@.len() == 0
    &&& !c.profiles_enabled
    &&& c.ble_address is None
}

impl Default for Config {
    fn default() -> (r: Config)
        ensures
            is_default_config(r),
    {
        Config {
            sensitivity: 5,
            left_slider: SliderAction::Brightness,
            right_slider: SliderAction::Volume,
            profiles: Vec::new(),
            profiles_enabled: false,
            ble_address: None,
        }
    }
}

/// `profiles[k]` is the first profile for application `app_id`.
pub open spec fn first_profile_at(profiles: Seq<AppProfile>, app_id: Seq<char>, k: int) -> bool {
    &&& 0 <= k < profiles.len()
    &&& profiles[k].app_id@ == app_id
    &&& forall|j: int| 0 <= j < k ==> (#[trigger] profiles[j]).app_id@ != app_id
}

impl Config {
    /// Find the profile for a given app ID, if any: the first one listed.
    pub fn profile_for_app(&self, app_id: &str) -> (r: Option<&AppProfile>)
        ensures
            match r {
                Some(p) => exists|k: int| first_profile_at(self.profiles@, app_id@, k)
                    && *p == self.profiles@[k],
                None => forall|j: int| 0 <= j < self.profiles@.len()
                    ==> (#[trigger] self.profiles@[j]).app_id@ != app_id@,
            },
    {
        match self.profile_index_for_app(app_id) {
            Some(k) => Some(&self.profiles[k]),
            None => None,
        }
    }

    /// Where the profile for a given app ID is listed, if any: the first one.
    pub fn profile_index_for_app(&self, app_id: &str) -> (r: Option<usize>)
        ensures
            match r {
                Some(k) => first_profile_at(self.profiles@, app_id@, k as int),
                None => forall|j: int| 0 <= j < self.profiles@.len()
                    ==> (#[trigger] self.profiles@[j]).app_id@ != app_id@,
            },
    {
        let mut i: usize = 0;
        while i < self.profiles.len()
            invariant
                i <= self.profiles@.len(),
                forall|j: int| 0 <= j < i ==> (#[trigger] self.profiles@[j]).app_id@ != app_id@,
            decreases self.profiles@.len() - i,
        {
            if same_text(&self.profiles[i].app_id, app_id) {
                return Some(i);
            }
            i = i + 1;
        }
        None
    }
}

} // verus!
