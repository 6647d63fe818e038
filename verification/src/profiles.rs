//! Per-application profile switching: when the focused application
//! changes, the matching profile's settings apply, or the defaults.

use vstd::prelude::*;
use crate::config::{first_profile_at, AppProfile, Config, SliderAction};
use crate::settings_page::copy_action;
use crate::text::same_text;

verus! {

/// Settings that a profile switch applies to the keyboard.
#[derive(Debug, Clone)]
pub struct AppliedSettings {
    pub sensitivity: u8,
    pub left_slider: SliderAction,
    pub right_slider: SliderAction,
}

/// The settings of `profile`.
pub fn profile_settings(profile: &AppProfile) -> (r: AppliedSettings)
    ensures
        r.sensitivity == profile.sensitivity,
        r.left_slider == profile.left_slider,
        r.right_slider == profile.right_slider,
{
    AppliedSettings {
        sensitivity: profile.sensitivity,
        left_slider: copy_action(&profile.left_slider),
        right_slider: copy_action(&profile.right_slider),
    }
}

/// The default (non-profile) settings of `config`.
pub fn default_settings(config: &Config) -> (r: AppliedSettings)
    ensures
        r.sensitivity == config.sensitivity,
        r.left_slider == config.left_slider,
        r.right_slider == config.right_slider,
{
    AppliedSettings {
        sensitivity: config.sensitivity,
        left_slider: copy_action(&config.left_slider),
        right_slider: copy_action(&config.right_slider),
    }
}

/// The characters of an optional application ID.
pub open spec fn app_id_view(a: Option<String>) -> Option<Seq<char>> {
    match a {
        Some(s) => Some(s@),
        None => None,
    }
}

fn same_app_id(a: &Option<String>, b: &Option<String>) -> (r: bool)
    ensures
        r == (app_id_view(*a) == app_id_view(*b)),
{
    match (a, b) {
        (Some(x), Some(y)) => same_text(x, y.as_str()),
        (None, None) => true,
        _ => false,
    }
}

/// Which settings a profile switch applies.
#[derive(Debug, Clone, Copy, PartialEq, Eq, Structural)]
pub enum ProfileChoice {
    /// The profile listed at this position.
    Profile(usize),
    /// The defaults of the configuration.
    Defaults,
}

/// What to apply when the focus moves from `last` to `current`: nothing when
/// profiles are disabled or the application did not change; the first
/// profile for the new application; else the defaults.
pub open spec fn profile_decision(config: Config, last: Option<Seq<char>>, current: Option<Seq<char>>)
    -> Option<ProfileChoice> {
    if !config.profiles_enabled || current == last {
        None
    } else {
        match current {
            Some(id) => if has_profile(config.profiles@, id) {
                Some(ProfileChoice::Profile(first_profile_index(config.profiles@, id) as usize))
            } else {
                Some(ProfileChoice::Defaults)
            },
            None => Some(ProfileChoice::Defaults),
        }
    }
}

/// Some profile is listed for `id`.
pub open spec fn has_profile(profiles: Seq<AppProfile>, id: Seq<char>) -> bool {
    exists|k: int| first_profile_at(profiles, id, k)
}

/// Where the first profile for `id` is listed (meaningful where there is one).
pub open spec fn first_profile_index(profiles: Seq<AppProfile>, id: Seq<char>) -> int {
    choose|k: int| first_profile_at(profiles, id, k)
}

proof fn lemma_first_profile_unique(profiles: Seq<AppProfile>, id: Seq<char>, k: int)
    requires
        first_profile_at(profiles, id, k),
    ensures
        first_profile_index(profiles, id) == k,
{
    let c = first_profile_index(profiles, id);
    assert(first_profile_at(profiles, id, c));
    if c < k {
        assert(profiles[c].app_id@ != id);
    } else if k < c {
        assert(profiles[k].app_id@ != id);
    }
}

/// Decides the profile switch for the focus moving from `last_app_id` to
/// `current`.
pub fn decide_profile(config: &Config, last_app_id: &Option<String>, current: &Option<String>)
    -> (r: Option<ProfileChoice>)
    ensures
        r == profile_decision(*config, app_id_view(*last_app_id), app_id_view(*current)),
{
    if !config.profiles_enabled || same_app_id(current, last_app_id) {
        return None;
    }
    match current {
        Some(app_id) => match config.profile_index_for_app(app_id.as_str()) {
            Some(k) => {
                proof {
                    lemma_first_profile_unique(config.profiles@, app_id@, k as int);
                    assert(has_profile(config.profiles@, app_id@));
                }
                Some(ProfileChoice::Profile(k))
            },
            None => {
                assert forall|k: int| !first_profile_at(config.profiles@, app_id@, k) by {
                    if 0 <= k < config.profiles@.len() {
                        assert(config.profiles@[k].app_id@ != app_id@);
                    }
                }
                assert(!has_profile(config.profiles@, app_id@));
                Some(ProfileChoice::Defaults)
            },
        },
        None => Some(ProfileChoice::Defaults),
    }
}

/// `s` are the settings that `choice` applies under `config`: those of the
/// listed profile, or the configuration's defaults.
pub open spec fn applies_choice(config: Config, choice: ProfileChoice, s: AppliedSettings) -> bool {
    match choice {
        ProfileChoice::Profile(k) => s.sensitivity == config.profiles@[k as int].sensitivity
            && s.left_slider == config.profiles@[k as int].left_slider
            && s.right_slider == config.profiles@[k as int].right_slider,
        ProfileChoice::Defaults => s.sensitivity == config.sensitivity
            && s.left_slider == config.left_slider
            && s.right_slider == config.right_slider,
    }
}

/// The settings that `choice` applies.
pub fn settings_for_choice(config: &Config, choice: ProfileChoice) -> (r: AppliedSettings)
    requires
        choice matches ProfileChoice::Profile(k) ==> k < config.profiles@.len(),
    ensures
        applies_choice(*config, choice, r),
{
    match choice {
        ProfileChoice::Profile(k) => profile_settings(&config.profiles[k]),
        ProfileChoice::Defaults => default_settings(config),
    }
}

/// Checks whether the focused application changed from `last_app_id` to
/// `current` (the ID that the compositor reports) and what to apply: the
/// focused application's ID (none while profiles are disabled) and the
/// settings to apply, if any.
pub fn check_and_apply(config: &Config, last_app_id: &Option<String>, current: &Option<String>)
    -> (r: (Option<String>, Option<AppliedSettings>))
    ensures
        !config.profiles_enabled ==> r.0 is None,
        config.profiles_enabled ==> app_id_view(r.0) == app_id_view(*current),
        match profile_decision(*config, app_id_view(*last_app_id), app_id_view(*current)) {
            Some(choice) => r.1 matches Some(s) && applies_choice(*config, choice, s),
            None => r.1 is None,
        },
{
    if !config.profiles_enabled {
        return (None, None);
    }
    let applied = match decide_profile(config, last_app_id, current) {
        Some(choice) => Some(settings_for_choice(config, choice)),
        None => None,
    };
    let id = match current {
        Some(a) => Some(a.clone()),
        None => None,
    };
    (id, applied)
}

proof fn lemma_first_profile_exists(profiles: Seq<AppProfile>, id: Seq<char>, k: int)
    requires
        0 <= k < profiles.len(),
        profiles[k].app_id@ == id,
    ensures
        has_profile(profiles, id),
        first_profile_index(profiles, id) <= k,
    decreases k,
{
    if exists|j: int| 0 <= j < k && (#[trigger] profiles[j]).app_id@ == id {
        let j = choose|j: int| 0 <= j < k && (#[trigger] profiles[j]).app_id@ == id;
        lemma_first_profile_exists(profiles, id, j);
    } else {
        assert(first_profile_at(profiles, id, k));
        lemma_first_profile_unique(profiles, id, k);
    }
}

/// Profile switching law: a switch to a listed profile happens only when
/// profiles are enabled and the focus moved to another application, and the
/// profile is the first one listed for the focused application; the
/// settings applied are that profile's.
pub proof fn lemma_switch_picks_first_match(config: Config, last: Option<Seq<char>>, current: Option<Seq<char>>,
    k: usize, s: AppliedSettings)
    requires
        profile_decision(config, last, current) == Some(ProfileChoice::Profile(k)),
    ensures
        config.profiles_enabled,
        current != last,
        current matches Some(id) && {
            &&& k < config.profiles@.len()
            &&& config.profiles@[k as int].app_id@ == id
            &&& forall|j: int| 0 <= j < k ==> config.profiles@[j].app_id@ != id
        },
        applies_choice(config, ProfileChoice::Profile(k), s) ==> s.sensitivity == config.profiles@[k as int].sensitivity
            && s.left_slider == config.profiles@[k as int].left_slider
            && s.right_slider == config.profiles@[k as int].right_slider,
{
    let id = current->0;
    let fi = first_profile_index(config.profiles@, id);
    assert(has_profile(config.profiles@, id));
    assert(first_profile_at(config.profiles@, id, fi));
    assert(config.profiles.len() == config.profiles@.len());
    assert(k as int == fi);
}

/// Profile switching law: when profiles are enabled and the focus moves to
/// an application for which a profile is listed, some listed profile for
/// it applies, none listed after the first; when the focus moves to an
/// application without a profile, or to none, the defaults apply; when it
/// stays or profiles are disabled, nothing applies.
pub proof fn lemma_switch_on_focus_change(config: Config, last: Option<Seq<char>>, current: Option<Seq<char>>)
    ensures
        !config.profiles_enabled || current == last ==> profile_decision(config, last, current) is None,
        config.profiles_enabled && current != last && current is None
            ==> profile_decision(config, last, current) == Some(ProfileChoice::Defaults),
        config.profiles_enabled && current != last && (current matches Some(id)
            && forall|j: int| 0 <= j < config.profiles@.len() ==> config.profiles@[j].app_id@ != id)
            ==> profile_decision(config, last, current) == Some(ProfileChoice::Defaults),
        forall|k: int| 0 <= k < config.profiles@.len() && config.profiles_enabled && current != last
            && current == Some(#[trigger] config.profiles@[k].app_id@)
            ==> (profile_decision(config, last, current) matches Some(ProfileChoice::Profile(j)) && j <= k),
{
    assert forall|k: int| 0 <= k < config.profiles@.len() && config.profiles_enabled && current != last
        && current == Some(#[trigger] config.profiles@[k].app_id@)
        implies (profile_decision(config, last, current) matches Some(ProfileChoice::Profile(j)) && j <= k) by {
        lemma_first_profile_exists(config.profiles@, config.profiles@[k].app_id@, k);
    }
    if config.profiles_enabled && current != last && current is Some {
        let id = current->0;
        if forall|j: int| 0 <= j < config.profiles@.len() ==> config.profiles@[j].app_id@ != id {
            assert(!has_profile(config.profiles@, id));
        }
    }
}

} // verus!
