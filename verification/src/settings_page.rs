//! The state and the update logic of the settings page: sensitivity,
//! slider actions and per-application profiles, edited and then saved.

use vstd::prelude::*;
use crate::config::{slider_label, AppProfile, Config, SliderAction};
use crate::text::{decimal, push_decimal, push_str, string_of};

verus! {

/// The labels of the standard slider actions, in the order of the dropdowns.
pub open spec fn slider_action_labels() -> Seq<Seq<char>> {
    seq!["Backlight Brightness"@, "System Volume"@, "Media Scrub"@, "Zoom Level"@, "Scroll Speed"@]
}

/// The standard action at dropdown position `idx`; positions past the list
/// fall back to brightness.
pub open spec fn action_at_index(idx: nat) -> SliderAction {
    if idx == 1 {
        SliderAction::Volume
    } else if idx == 2 {
        SliderAction::MediaScrub
    } else if idx == 3 {
        SliderAction::ZoomLevel
    } else if idx == 4 {
        SliderAction::ScrollSpeed
    } else {
        SliderAction::Brightness
    }
}

/// The dropdown position of an action; a custom action shows as brightness.
pub open spec fn index_of_action(a: SliderAction) -> nat {
    match a {
        SliderAction::Brightness => 0,
        SliderAction::Volume => 1,
        SliderAction::MediaScrub => 2,
        SliderAction::ZoomLevel => 3,
        SliderAction::ScrollSpeed => 4,
        SliderAction::Custom(_) => 0,
    }
}

/// The standard action at dropdown position `idx`.
pub fn slider_action_from_index(idx: usize) -> (r: SliderAction)
    ensures
        r == action_at_index(idx as nat),
{
    match idx {
        0 => SliderAction::Brightness,
        1 => SliderAction::Volume,
        2 => SliderAction::MediaScrub,
        3 => SliderAction::ZoomLevel,
        4 => SliderAction::ScrollSpeed,
        _ => SliderAction::Brightness,
    }
}

/// The dropdown position of `action`.
pub fn slider_action_to_index(action: &SliderAction) -> (r: usize)
    ensures
        r == index_of_action(*action),
{
    match action {
        SliderAction::Brightness => 0,
        SliderAction::Volume => 1,
        SliderAction::MediaScrub => 2,
        SliderAction::ZoomLevel => 3,
        SliderAction::ScrollSpeed => 4,
        SliderAction::Custom(_) => 0,
    }
}

/// A copy of `a`.
pub fn copy_action(a: &SliderAction) -> (r: SliderAction)
    ensures
        r == *a,
{
    match a {
        SliderAction::Brightness => SliderAction::Brightness,
        SliderAction::Volume => SliderAction::Volume,
        SliderAction::MediaScrub => SliderAction::MediaScrub,
        SliderAction::ZoomLevel => SliderAction::ZoomLevel,
        SliderAction::ScrollSpeed => SliderAction::ScrollSpeed,
        SliderAction::Custom(c) => SliderAction::Custom(c.clone()),
    }
}

/// The settings page: the configuration being edited and what the page shows.
pub struct State {
    pub config: Config,
    pub status_message: String,
    pub left_slider_idx: usize,
    pub right_slider_idx: usize,
    pub new_profile_name: String,
    pub new_profile_app_id: String,
}

/// What the user did on the settings page.
#[derive(Debug, Clone)]
pub enum Message {
    SensitivityChanged(u8),
    LeftSliderSelected(usize),
    RightSliderSelected(usize),
    ProfilesEnabledToggled(bool),
    NewProfileNameChanged(String),
    NewProfileAppIdChanged(String),
    AddProfile,
    RemoveProfile(usize),
    Save,
    ResetDefaults,
}

/// What the page asks of its host after an update.
#[derive(Debug, Clone, Copy, PartialEq, Eq, Structural)]
pub enum PageEffect {
    /// Nothing.
    Nothing,
    /// Save the configuration, then report with `finish_save`.
    Save,
    /// Save the configuration just reset to defaults, then report with `finish_save`.
    SaveReset,
}

/// The page for `config`, with the dropdowns on its slider actions.
pub fn init(config: Config) -> (r: State)
    ensures
        r.config == config,
        r.status_message@ == Seq::<char>::empty(),
        r.left_slider_idx == index_of_action(config.left_slider),
        r.right_slider_idx == index_of_action(config.right_slider),
        r.new_profile_name@ == Seq::<char>::empty(),
        r.new_profile_app_id@ == Seq::<char>::empty(),
{
    let left_slider_idx = slider_action_to_index(&config.left_slider);
    let right_slider_idx = slider_action_to_index(&config.right_slider);
    State {
        config,
        status_message: String::new(),
        left_slider_idx,
        right_slider_idx,
        new_profile_name: String::new(),
        new_profile_app_id: String::new(),
    }
}

/// The status shown while edits are not saved.
pub open spec fn unsaved() -> Seq<char> {
    "Unsaved changes"@
}

/// How one message changes the page, and what it asks of the host.
pub open spec fn page_step(old: State, new: State, message: Message, effect: PageEffect) -> bool {
    match message {
        Message::SensitivityChanged(level) => effect == PageEffect::Nothing && if 1 <= level <= 9 {
            new == (State {
                config: Config { sensitivity: level, ..old.config },
                status_message: new.status_message,
                ..old
            }) && new.status_message@ == unsaved()
        } else {
            new == old
        },
        Message::LeftSliderSelected(idx) => effect == PageEffect::Nothing && new == (State {
            config: Config { left_slider: action_at_index(idx as nat), ..old.config },
            left_slider_idx: idx,
            status_message: new.status_message,
            ..old
        }) && new.status_message@ == unsaved(),
        Message::RightSliderSelected(idx) => effect == PageEffect::Nothing && new == (State {
            config: Config { right_slider: action_at_index(idx as nat), ..old.config },
            right_slider_idx: idx,
            status_message: new.status_message,
            ..old
        }) && new.status_message@ == unsaved(),
        Message::ProfilesEnabledToggled(enabled) => effect == PageEffect::Nothing && new == (State {
            config: Config { profiles_enabled: enabled, ..old.config },
            status_message: new.status_message,
            ..old
        }) && new.status_message@ == unsaved(),
        Message::NewProfileNameChanged(name) => effect == PageEffect::Nothing
            && new == (State { new_profile_name: name, ..old }),
        Message::NewProfileAppIdChanged(app_id) => effect == PageEffect::Nothing
            && new == (State { new_profile_app_id: app_id, ..old }),
        Message::AddProfile => effect == PageEffect::Nothing && if old.new_profile_name@.len() > 0
            && old.new_profile_app_id@.len() > 0 {
            &&& new.config == (Config { profiles: new.config.profiles, ..old.config })
            &&& new.config.profiles@ == old.config.profiles@.push(AppProfile {
                name: new.config.profiles@.last().name,
                app_id: new.config.profiles@.last().app_id,
                sensitivity: old.config.sensitivity,
                left_slider: old.config.left_slider,
                right_slider: old.config.right_slider,
            })
            &&& new.config.profiles@.last().name@ == old.new_profile_name@
            &&& new.config.profiles@.last().app_id@ == old.new_profile_app_id@
            &&& new.new_profile_name@ == Seq::<char>::empty()
            &&& new.new_profile_app_id@ == Seq::<char>::empty()
            &&& new.status_message@ == unsaved()
            &&& new.left_slider_idx == old.left_slider_idx
            &&& new.right_slider_idx == old.right_slider_idx
        } else {
            new == old
        },
        Message::RemoveProfile(idx) => effect == PageEffect::Nothing && if idx < old.config.profiles@.len() {
            &&& new.config == (Config { profiles: new.config.profiles, ..old.config })
            &&& new.config.profiles@ == old.config.profiles@.remove(idx as int)
            &&& new == (State { config: new.config, status_message: new.status_message, ..old })
            &&& new.status_message@ == unsaved()
        } else {
            new == old
        },
        Message::Save => effect == PageEffect::Save && new == old,
        Message::ResetDefaults => effect == PageEffect::SaveReset && {
            &&& crate::config::is_default_config(new.config)
            &&& new.left_slider_idx == 0
            &&& new.right_slider_idx == 1
            &&& new == (State {
                config: new.config,
                left_slider_idx: 0,
                right_slider_idx: 1,
                ..old
            })
        },
    }
}

fn set_unsaved(state: &mut State)
    ensures
        *final(state) == (State { status_message: final(state).status_message, ..*old(state) }),
        final(state).status_message@ == unsaved(),
{
    state.status_message = string_of("Unsaved changes");
}

/// Applies what the user did to the page. Saving is left to the host, which
/// the returned effect asks for.
pub fn update(state: &mut State, message: Message) -> (effect: PageEffect)
    ensures
        page_step(*old(state), *final(state), message, effect),
{
    match message {
        Message::SensitivityChanged(level) => {
            if 1 <= level && level <= 9 {
                state.config.sensitivity = level;
                set_unsaved(state);
            }
            PageEffect::Nothing
        },
        Message::LeftSliderSelected(idx) => {
            state.left_slider_idx = idx;
            state.config.left_slider = slider_action_from_index(idx);
            set_unsaved(state);
            PageEffect::Nothing
        },
        Message::RightSliderSelected(idx) => {
            state.right_slider_idx = idx;
            state.config.right_slider = slider_action_from_index(idx);
            set_unsaved(state);
            PageEffect::Nothing
        },
        Message::ProfilesEnabledToggled(enabled) => {
            state.config.profiles_enabled = enabled;
            set_unsaved(state);
            PageEffect::Nothing
        },
        Message::NewProfileNameChanged(name) => {
            state.new_profile_name = name;
            PageEffect::Nothing
        },
        Message::NewProfileAppIdChanged(app_id) => {
            state.new_profile_app_id = app_id;
            PageEffect::Nothing
        },
        Message::AddProfile => {
            if !state.new_profile_name.as_str().is_empty() && !state.new_profile_app_id.as_str().is_empty() {
                let profile = AppProfile {
                    name: state.new_profile_name.clone(),
                    app_id: state.new_profile_app_id.clone(),
                    sensitivity: state.config.sensitivity,
                    left_slider: copy_action(&state.config.left_slider),
                    right_slider: copy_action(&state.config.right_slider),
                };
                let ghost before = state.config.profiles@;
                let ghost added = profile;
                state.config.profiles.push(profile);
                assert(state.config.profiles@ =~= before.push(added));
                state.new_profile_name = String::new();
                state.new_profile_app_id = String::new();
                set_unsaved(state);
            }
            PageEffect::Nothing
        },
        Message::RemoveProfile(idx) => {
            if idx < state.config.profiles.len() {
                state.config.profiles.remove(idx);
                set_unsaved(state);
            }
            PageEffect::Nothing
        },
        Message::Save => PageEffect::Save,
        Message::ResetDefaults => {
            state.config = Config::default();
            state.left_slider_idx = slider_action_to_index(&state.config.left_slider);
            state.right_slider_idx = slider_action_to_index(&state.config.right_slider);
            PageEffect::SaveReset
        },
    }
}

/// Shows the outcome of the save that `effect` asked for.
pub fn finish_save(state: &mut State, effect: PageEffect, saved: Result<(), String>)
    ensures
        *final(state) == (State { status_message: final(state).status_message, ..*old(state) }),
        match saved {
            Ok(()) => final(state).status_message@ == if effect == PageEffect::SaveReset {
                "Reset to defaults and saved"@
            } else {
                "Settings saved"@
            },
            Err(e) => final(state).status_message@ == "Error: "@ + e@,
        },
{
    match saved {
        Ok(()) => {
            if effect == PageEffect::SaveReset {
                state.status_message = string_of("Reset to defaults and saved");
            } else {
                state.status_message = string_of("Settings saved");
            }
        },
        Err(e) => {
            let mut m = string_of("Error: ");
            push_str(&mut m, e.as_str());
            state.status_message = m;
        },
    }
}

/// What the settings page shows.
pub struct PageView {
    /// The level line: "Level {level} of 9".
    pub level_text: String,
    /// The level buttons, 1 to 9 in order: the level each one sets, and
    /// whether it is the current level (drawn as the suggested button).
    pub level_buttons: Vec<(u8, bool)>,
    /// Position selected in the left slider's dropdown.
    pub left_selected: usize,
    /// Position selected in the right slider's dropdown.
    pub right_selected: usize,
    /// State of the per-application profiles toggle.
    pub profiles_enabled: bool,
    /// One row per profile while profiles are enabled: "name (app_id)", and
    /// the position that its Remove button removes.
    pub profile_rows: Vec<(String, usize)>,
    /// The add-profile form while profiles are enabled: the name and the
    /// application ID typed so far.
    pub add_form: Option<(String, String)>,
    /// The status line, where there is a status.
    pub status: Option<String>,
}

/// The row text of a profile: "name (app_id)".
pub open spec fn profile_row_text(p: AppProfile) -> Seq<char> {
    p.name@ + " ("@ + p.app_id@ + ")"@
}

fn profile_row(p: &AppProfile) -> (r: String)
    ensures
        r@ == profile_row_text(*p),
{
    let mut r = p.name.clone();
    push_str(&mut r, " (");
    push_str(&mut r, p.app_id.as_str());
    push_str(&mut r, ")");
    r
}

/// What the settings page shows for `state`.
pub fn page_view(state: &State) -> (r: PageView)
    ensures
        r.level_text@ == "Level "@ + decimal(state.config.sensitivity as nat) + " of 9"@,
        r.level_buttons@.len() == 9,
        forall|i: int| 0 <= i < 9 ==> #[trigger] r.level_buttons@[i]
            == ((i + 1) as u8, i + 1 == state.config.sensitivity),
        r.left_selected == state.left_slider_idx,
        r.right_selected == state.right_slider_idx,
        r.profiles_enabled == state.config.profiles_enabled,
        state.config.profiles_enabled ==> {
            &&& r.profile_rows@.len() == state.config.profiles@.len()
            &&& forall|i: int| 0 <= i < r.profile_rows@.len() ==> (#[trigger] r.profile_rows@[i]).0@
                == profile_row_text(state.config.profiles@[i]) && r.profile_rows@[i].1 == i
            &&& r.add_form matches Some((name, app_id)) && name@ == state.new_profile_name@
                && app_id@ == state.new_profile_app_id@
        },
        !state.config.profiles_enabled ==> r.profile_rows@.len() == 0 && r.add_form is None,
        state.status_message@.len() > 0 ==> (r.status matches Some(s) && s@ == state.status_message@),
        state.status_message@.len() == 0 ==> r.status is None,
{
    let mut level_text = string_of("Level ");
    push_decimal(&mut level_text, state.config.sensitivity as u64);
    push_str(&mut level_text, " of 9");
    let mut level_buttons: Vec<(u8, bool)> = Vec::new();
    let mut level: u8 = 1;
    while level <= 9
        invariant
            1 <= level <= 10,
            level_buttons@.len() == level - 1,
            forall|i: int| 0 <= i < level - 1 ==> #[trigger] level_buttons@[i]
                == ((i + 1) as u8, i + 1 == state.config.sensitivity),
        decreases 10 - level,
    {
        level_buttons.push((level, level == state.config.sensitivity));
        level = level + 1;
    }
    let mut profile_rows: Vec<(String, usize)> = Vec::new();
    let mut add_form: Option<(String, String)> = None;
    if state.config.profiles_enabled {
        let mut i: usize = 0;
        while i < state.config.profiles.len()
            invariant
                i <= state.config.profiles@.len(),
                profile_rows@.len() == i,
                forall|j: int| 0 <= j < i ==> (#[trigger] profile_rows@[j]).0@
                    == profile_row_text(state.config.profiles@[j]) && profile_rows@[j].1 == j,
            decreases state.config.profiles@.len() - i,
        {
            profile_rows.push((profile_row(&state.config.profiles[i]), i));
            i = i + 1;
        }
        add_form = Some((state.new_profile_name.clone(), state.new_profile_app_id.clone()));
    }
    let status = if !state.status_message.as_str().is_empty() {
        Some(state.status_message.clone())
    } else {
        None
    };
    PageView {
        level_text,
        level_buttons,
        left_selected: state.left_slider_idx,
        right_selected: state.right_slider_idx,
        profiles_enabled: state.config.profiles_enabled,
        profile_rows,
        add_form,
        status,
    }
}

/// The action is one of the five standard ones.
pub open spec fn is_standard(a: SliderAction) -> bool {
    !(a is Custom)
}

/// Dropdown law: the position of a standard action selects it again, and
/// the action at a listed position is at that position.
pub proof fn lemma_slider_index_roundtrip(a: SliderAction, idx: nat)
    ensures
        is_standard(a) ==> action_at_index(index_of_action(a)) == a,
        idx < 5 ==> index_of_action(action_at_index(idx)) == idx,
{
}

/// Sensitivity law of the page: while the configured level is in 1-9, no
/// update takes it out.
pub proof fn lemma_update_keeps_sensitivity(old: State, new: State, message: Message, effect: PageEffect)
    requires
        page_step(old, new, message, effect),
        1 <= old.config.sensitivity <= 9,
    ensures
        1 <= new.config.sensitivity <= 9,
{
}

/// Dropdown law of the page: where each dropdown shows its slider's action,
/// it still does after any update that selects a listed position.
pub proof fn lemma_update_keeps_dropdowns(old: State, new: State, message: Message, effect: PageEffect)
    requires
        page_step(old, new, message, effect),
        old.left_slider_idx == index_of_action(old.config.left_slider),
        old.right_slider_idx == index_of_action(old.config.right_slider),
        message matches Message::LeftSliderSelected(i) ==> i < 5,
        message matches Message::RightSliderSelected(i) ==> i < 5,
    ensures
        new.left_slider_idx == index_of_action(new.config.left_slider),
        new.right_slider_idx == index_of_action(new.config.right_slider),
{
}

/// Profile removal law of the page: removing the profile at a listed
/// position `idx` leaves one profile less, keeps the profiles before `idx`
/// where they were, and moves each later one down by one, so the profile
/// removed is the one at `idx`; the rest of the configuration stays.
pub proof fn lemma_remove_profile(old: State, new: State, idx: usize, effect: PageEffect)
    requires
        page_step(old, new, Message::RemoveProfile(idx), effect),
        idx < old.config.profiles@.len(),
    ensures
        new.config.profiles@.len() + 1 == old.config.profiles@.len(),
        forall|j: int| 0 <= j < idx ==> new.config.profiles@[j] == old.config.profiles@[j],
        forall|j: int| idx <= j < new.config.profiles@.len() ==> new.config.profiles@[j] == old.config.profiles@[j + 1],
        new.config.sensitivity == old.config.sensitivity,
        new.config.left_slider == old.config.left_slider,
        new.config.right_slider == old.config.right_slider,
        new.config.profiles_enabled == old.config.profiles_enabled,
        effect == PageEffect::Nothing,
{
}

/// Profile addition law of the page: with a name and an application ID
/// typed, adding appends one profile with that name and ID and the page's
/// current sensitivity and slider actions, keeps every earlier profile, and
/// clears the form; without them, nothing changes.
pub proof fn lemma_add_profile(old: State, new: State, effect: PageEffect)
    requires
        page_step(old, new, Message::AddProfile, effect),
    ensures
        old.new_profile_name@.len() > 0 && old.new_profile_app_id@.len() > 0 ==> {
            &&& new.config.profiles@.len() == old.config.profiles@.len() + 1
            &&& forall|j: int| 0 <= j < old.config.profiles@.len() ==> new.config.profiles@[j] == old.config.profiles@[j]
            &&& new.config.profiles@[old.config.profiles@.len() as int].name@ == old.new_profile_name@
            &&& new.config.profiles@[old.config.profiles@.len() as int].app_id@ == old.new_profile_app_id@
            &&& new.config.profiles@[old.config.profiles@.len() as int].sensitivity == old.config.sensitivity
            &&& new.config.profiles@[old.config.profiles@.len() as int].left_slider == old.config.left_slider
            &&& new.config.profiles@[old.config.profiles@.len() as int].right_slider == old.config.right_slider
            &&& new.new_profile_name@.len() == 0 && new.new_profile_app_id@.len() == 0
            &&& new.config.sensitivity == old.config.sensitivity
        },
        !(old.new_profile_name@.len() > 0 && old.new_profile_app_id@.len() > 0) ==> new == old,
{
}

/// Editing law of the page: a level in 1-9 becomes the configured level
/// and a level outside is ignored; a dropdown selection sets its slider to
/// the standard action at that position, the one whose label the dropdown
/// shows there; the toggle sets whether profiles are enabled;
/// none of them touches the other settings or the profiles.
pub proof fn lemma_page_edits(old: State, new: State, message: Message, effect: PageEffect)
    requires
        page_step(old, new, message, effect),
    ensures
        message matches Message::SensitivityChanged(level) ==> {
            &&& new.config.sensitivity == (if 1 <= level <= 9 { level } else { old.config.sensitivity })
            &&& new.config.profiles == old.config.profiles
            &&& new.config.left_slider == old.config.left_slider
            &&& new.config.right_slider == old.config.right_slider
        },
        message matches Message::LeftSliderSelected(i) ==> {
            &&& i < 5 ==> new.config.left_slider == crate::config::standard_actions()[i as int]
                && slider_label(new.config.left_slider) == slider_action_labels()[i as int]
            &&& new.left_slider_idx == i
            &&& new.config.right_slider == old.config.right_slider
            &&& new.config.sensitivity == old.config.sensitivity
        },
        message matches Message::RightSliderSelected(i) ==> {
            &&& i < 5 ==> new.config.right_slider == crate::config::standard_actions()[i as int]
                && slider_label(new.config.right_slider) == slider_action_labels()[i as int]
            &&& new.right_slider_idx == i
            &&& new.config.left_slider == old.config.left_slider
            &&& new.config.sensitivity == old.config.sensitivity
        },
        message matches Message::ProfilesEnabledToggled(on) ==> {
            &&& new.config.profiles_enabled == on
            &&& new.config.profiles == old.config.profiles
            &&& new.config.sensitivity == old.config.sensitivity
        },
{
}

} // verus!
