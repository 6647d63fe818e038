//! The panel applet's model: what it knows of the keyboard, the decisions of
//! its background connection loop, and what its popup and icon show.

use vstd::prelude::*;
use crate::config::Config;
use crate::keyboard::{disconnected_state, KeyboardMode, KeyboardState};
use crate::proto::{empty_global_settings, AppSettings, GlobalSettings, HeartBeatBattery};
use crate::text::{decimal, push_decimal, push_signed_decimal, push_str, signed_decimal, string_of};

verus! {

/// Connection the background loop keeps to the keyboard.
#[derive(Debug, Clone)]
pub enum ConnectionMode {
    Disconnected,
    Usb { authorized: bool },
    Ble { address: String },
}

/// Commands that the applet sends to the background loop.
#[derive(Debug, Clone)]
pub enum KeyboardCommand {
    SetSensitivity(u32),
    SetGlobalSettings(GlobalSettings),
}

/// The settings that `command` writes to the keyboard.
pub open spec fn command_settings_of(command: KeyboardCommand) -> AppSettings {
    match command {
        KeyboardCommand::SetSensitivity(level) => AppSettings {
            global: Some(GlobalSettings { current_ai_level: Some(level), ..empty_global_settings() }),
            global_profile: None,
            counter: None,
        },
        KeyboardCommand::SetGlobalSettings(g) => AppSettings { global: Some(g), global_profile: None, counter: None },
    }
}

/// The settings that a command writes to the keyboard.
pub fn command_settings(command: KeyboardCommand) -> (r: AppSettings)
    ensures
        r == command_settings_of(command),
{
    match command {
        KeyboardCommand::SetSensitivity(level) => crate::proto::sensitivity_settings(level),
        KeyboardCommand::SetGlobalSettings(g) => crate::proto::global_only_settings(g),
    }
}

/// Where settings go.
#[derive(Debug)]
pub enum SettingsRoute {
    /// Over USB, through a freshly opened connection.
    Usb,
    /// Over the BLE connection.
    Ble,
    /// Nowhere; the error to report.
    Refused(String),
}

/// `r` is where settings go in connection mode `mode`, with or without a
/// BLE connection held.
pub open spec fn is_settings_route(mode: ConnectionMode, ble_connected: bool, r: SettingsRoute) -> bool {
    match mode {
        ConnectionMode::Usb { authorized: true } => r is Usb,
        ConnectionMode::Ble { .. } => if ble_connected {
            r is Ble
        } else {
            r matches SettingsRoute::Refused(e) && e@ == "BLE not connected"@
        },
        _ => r matches SettingsRoute::Refused(e) && e@ == "Not connected"@,
    }
}

/// Where settings go in connection mode `mode`: over an authorized USB
/// connection, over BLE where a BLE connection is held, nowhere otherwise.
pub fn settings_route(mode: &ConnectionMode, ble_connected: bool) -> (r: SettingsRoute)
    ensures
        is_settings_route(*mode, ble_connected, r),
{
    match mode {
        ConnectionMode::Usb { authorized: true } => SettingsRoute::Usb,
        ConnectionMode::Ble { .. } => {
            if ble_connected {
                SettingsRoute::Ble
            } else {
                SettingsRoute::Refused(string_of("BLE not connected"))
            }
        },
        _ => SettingsRoute::Refused(string_of("Not connected")),
    }
}

/// Whether the USB connection still has to be authorized.
pub fn usb_needs_authorization(mode: &ConnectionMode) -> (r: bool)
    ensures
        r == !(*mode matches ConnectionMode::Usb { authorized: true }),
{
    !matches!(mode, ConnectionMode::Usb { authorized: true })
}

/// The mode after an authorization attempt over USB, and whether this is
/// the first authorized USB connection (the mode was not USB before), after
/// which the touch controller is re-initialized.
pub fn after_usb_authorization(mode: &ConnectionMode, authorized: bool) -> (r: (ConnectionMode, bool))
    ensures
        authorized ==> (r.0 matches ConnectionMode::Usb { authorized: true })
            && r.1 == !(*mode matches ConnectionMode::Usb { .. }),
        !authorized ==> (r.0 matches ConnectionMode::Usb { authorized: false }) && !r.1,
{
    let was_connected = matches!(mode, ConnectionMode::Usb { .. });
    if authorized {
        (ConnectionMode::Usb { authorized: true }, !was_connected)
    } else {
        (ConnectionMode::Usb { authorized: false }, false)
    }
}

/// The connection type shown for `mode`: "USB" or "Bluetooth" while
/// connected, nothing otherwise.
pub open spec fn connection_label_text(mode: ConnectionMode, connected: bool) -> Seq<char> {
    if !connected {
        ""@
    } else {
        match mode {
            ConnectionMode::Usb { .. } => "USB"@,
            ConnectionMode::Ble { .. } => "Bluetooth"@,
            ConnectionMode::Disconnected => ""@,
        }
    }
}

/// The connection type shown: "USB" or "Bluetooth" while connected, nothing otherwise.
pub fn connection_label(mode: &ConnectionMode, connected: bool) -> (r: &'static str)
    ensures
        r@ == connection_label_text(*mode, connected),
{
    match mode {
        ConnectionMode::Usb { .. } if connected => "USB",
        ConnectionMode::Ble { .. } if connected => "Bluetooth",
        _ => "",
    }
}

/// The writes for the commands pending at the start of an iteration of the
/// background loop, in the order they came: for each, where its settings go
/// (the mode does not change while they are written) and the settings.
pub fn command_plan(mode: &ConnectionMode, ble_connected: bool, commands: Vec<KeyboardCommand>)
    -> (r: Vec<(SettingsRoute, AppSettings)>)
    ensures
        r@.len() == commands@.len(),
        forall|i: int| 0 <= i < r@.len() ==> is_settings_route(*mode, ble_connected, (#[trigger] r@[i]).0)
            && r@[i].1 == command_settings_of(commands@[i]),
{
    let ghost all = commands@;
    let mut commands = commands;
    let mut r: Vec<(SettingsRoute, AppSettings)> = Vec::new();
    while commands.len() > 0
        invariant
            r@.len() + commands@.len() == all.len(),
            commands@ == all.skip(r@.len() as int),
            forall|i: int| 0 <= i < r@.len() ==> is_settings_route(*mode, ble_connected, (#[trigger] r@[i]).0)
                && r@[i].1 == command_settings_of(all[i]),
        decreases commands@.len(),
    {
        let command = commands.remove(0);
        let ghost k = r@.len() as int;
        assert(command == all[k]);
        r.push((settings_route(mode, ble_connected), command_settings(command)));
        assert(commands@ =~= all.skip(r@.len() as int));
    }
    r
}

/// What the background loop reports of one poll.
#[derive(Debug)]
pub struct StateReport {
    pub hw_state: KeyboardState,
    pub ai_level: Option<u32>,
    pub firmware_settings: Option<GlobalSettings>,
    pub battery_from_heartbeat: Option<HeartBeatBattery>,
    /// "USB" or "Bluetooth" while connected, empty otherwise.
    pub connection_type: &'static str,
}

/// What the background loop sends to the applet.
#[derive(Debug)]
pub enum LoopEvent {
    /// The outcome of writing the settings of one command.
    SettingsResult(Result<(), String>),
    /// What the poll found.
    StateUpdate(StateReport),
}

/// The events of one iteration of the background loop, in the order they
/// are sent: one settings result per pending command, in the order of the
/// commands, then one state update for the poll, labelled by the
/// connection mode after the poll.
pub fn iteration_events(
    settings_results: Vec<Result<(), String>>,
    mode: &ConnectionMode,
    hw_state: KeyboardState,
    ai_level: Option<u32>,
    firmware_settings: Option<GlobalSettings>,
    battery_from_heartbeat: Option<HeartBeatBattery>,
) -> (r: Vec<LoopEvent>)
    ensures
        r@.len() == settings_results@.len() + 1,
        forall|i: int| 0 <= i < settings_results@.len()
            ==> #[trigger] r@[i] == LoopEvent::SettingsResult(settings_results@[i]),
        r@[settings_results@.len() as int] matches LoopEvent::StateUpdate(u) && {
            &&& u.hw_state == hw_state
            &&& u.ai_level == ai_level
            &&& u.firmware_settings == firmware_settings
            &&& u.battery_from_heartbeat == battery_from_heartbeat
            &&& u.connection_type@ == connection_label_text(*mode, hw_state.connected)
        },
{
    let ghost all = settings_results@;
    let mut results = settings_results;
    let mut r: Vec<LoopEvent> = Vec::new();
    while results.len() > 0
        invariant
            r@.len() + results@.len() == all.len(),
            results@ == all.skip(r@.len() as int),
            forall|i: int| 0 <= i < r@.len() ==> #[trigger] r@[i] == LoopEvent::SettingsResult(all[i]),
        decreases results@.len(),
    {
        let result = results.remove(0);
        let ghost k = r@.len() as int;
        assert(result == all[k]);
        r.push(LoopEvent::SettingsResult(result));
        assert(results@ =~= all.skip(r@.len() as int));
    }
    let connection_type = connection_label(mode, hw_state.connected);
    r.push(LoopEvent::StateUpdate(StateReport {
        hw_state,
        ai_level,
        firmware_settings,
        battery_from_heartbeat,
        connection_type,
    }));
    r
}

/// The saved address to connect to over BLE: only where no BLE connection is
/// held and an address was saved (BLE scanning is never started from here).
pub fn ble_address_to_try(ble_connected: bool, saved: &Option<String>) -> (r: Option<String>)
    ensures
        match r {
            Some(a) => !ble_connected && (*saved matches Some(s) && a@ == s@),
            None => ble_connected || saved is None,
        },
{
    if ble_connected {
        None
    } else {
        match saved {
            Some(a) => Some(a.clone()),
            None => None,
        }
    }
}

/// What the settings that were read give the applet: the AI level, and the
/// global settings.
pub fn firmware_values(settings: AppSettings) -> (r: (Option<u32>, Option<GlobalSettings>))
    ensures
        r.0 == match settings.global { Some(g) => g.current_ai_level, None => None },
        r.1 == settings.global,
{
    match settings.global {
        Some(g) => (g.current_ai_level, Some(g)),
        None => (None, None),
    }
}

/// What one poll over BLE shows, and where the loop goes next.
pub struct BlePoll {
    /// The connection mode after the poll.
    pub mode: ConnectionMode,
    /// The keyboard state to report.
    pub state: KeyboardState,
    /// The AI level read.
    pub ai_level: Option<u32>,
    /// The global settings read.
    pub firmware_settings: Option<GlobalSettings>,
    /// Whether the BLE connection is kept (and asked for its battery);
    /// where it is not, a held connection is dropped.
    pub keep_connection: bool,
}

/// The keyboard state while connected over BLE: only the connection is known.
pub open spec fn ble_connected_state() -> KeyboardState {
    KeyboardState { connected: true, mode: KeyboardMode::Unknown, ..disconnected_state() }
}

/// The outcome of a poll over BLE in mode `mode`, for the settings read
/// (`None` where no BLE connection is held): a successful read keeps the
/// connection and reports it connected; a failed read, or no connection,
/// leaves the loop disconnected.
pub fn after_ble_read(mode: ConnectionMode, read: Option<Result<AppSettings, String>>) -> (r: BlePoll)
    ensures
        match read {
            Some(Ok(s)) => {
                &&& r.mode == mode
                &&& r.state == ble_connected_state()
                &&& r.ai_level == match s.global { Some(g) => g.current_ai_level, None => None }
                &&& r.firmware_settings == s.global
                &&& r.keep_connection
            },
            _ => {
                &&& r.mode is Disconnected
                &&& r.state == disconnected_state()
                &&& r.ai_level is None
                &&& r.firmware_settings is None
                &&& !r.keep_connection
            },
        },
{
    match read {
        Some(Ok(s)) => {
            let (ai_level, firmware_settings) = firmware_values(s);
            BlePoll {
                mode,
                state: KeyboardState {
                    connected: true,
                    battery_percent: None,
                    firmware_version: None,
                    protocol_version: None,
                    serial_number: None,
                    mode: KeyboardMode::Unknown,
                },
                ai_level,
                firmware_settings,
                keep_connection: true,
            }
        },
        _ => BlePoll {
            mode: ConnectionMode::Disconnected,
            state: KeyboardState::default(),
            ai_level: None,
            firmware_settings: None,
            keep_connection: false,
        },
    }
}

/// Name of the theme icon shown while no keyboard is connected.
pub const DISCONNECTED_ICON: &'static str = "io.github.reality2_roycdavies.cosmic-clevetura-disconnected-symbolic";
/// Width of the popup, in pixels.
pub const POPUP_WIDTH: u32 = 300;
/// Height of the popup, in pixels.
pub const POPUP_HEIGHT: u32 = 380;

/// The icon of the panel button.
#[derive(Debug)]
pub enum PanelIcon {
    /// The keyboard icon, drawn from this SVG.
    Drawn(String),
    /// The theme's symbolic icon with this name.
    Named(&'static str),
}

/// What a press on the panel button does.
#[derive(Debug, Clone, Copy, PartialEq, Eq, Structural)]
pub enum PressAction {
    /// Close the open popup, which has this ID.
    ClosePopup(u64),
    /// Open a popup of this size under the button.
    OpenPopup { width: u32, height: u32 },
}

/// What the panel button shows and does.
#[derive(Debug)]
pub struct PanelView {
    pub icon: PanelIcon,
    pub tooltip: &'static str,
    /// Whether the tooltip is suppressed because the popup is open.
    pub popup_open: bool,
    pub press: PressAction,
}

/// What the applet knows of the keyboard.
pub struct AppletStatus {
    pub state: KeyboardState,
    pub config: Config,
    /// AI sensitivity level from firmware (None if not yet read).
    pub firmware_ai_level: Option<u32>,
    /// Battery info from heartbeat.
    pub heartbeat_battery: Option<HeartBeatBattery>,
    /// Current connection type for display.
    pub connection_type: &'static str,
}

/// Style of a line of the popup.
#[derive(Debug, Clone, Copy, PartialEq, Eq, Structural)]
pub enum TextStyle {
    Body,
    Caption,
}

/// What the popup shows.
pub struct PopupModel {
    /// Connection and device lines.
    pub info: Vec<(TextStyle, String)>,
    /// The sensitivity line.
    pub sensitivity_label: String,
    /// The level the minus button sets, where it is enabled.
    pub decrease_to: Option<u32>,
    /// The level the plus button sets, where it is enabled.
    pub increase_to: Option<u32>,
}

/// The sensitivity shown: the firmware's level, else the configured one.
pub open spec fn shown_sensitivity(s: AppletStatus) -> u32 {
    match s.firmware_ai_level {
        Some(l) => l,
        None => s.config.sensitivity as u32,
    }
}

/// The battery level shown: the heartbeat's, else the firmware query's.
pub open spec fn shown_battery(s: AppletStatus) -> Option<i32> {
    match s.heartbeat_battery {
        Some(hb) => Some(hb.level),
        None => match s.state.battery_percent {
            Some(b) => Some(b as i32),
            None => None,
        },
    }
}

/// The connection and device lines of the popup.
pub open spec fn popup_info(s: AppletStatus) -> Seq<(TextStyle, Seq<char>)> {
    if s.state.connected {
        let via = if s.connection_type@.len() > 0 {
            seq![(TextStyle::Body, "Connected via "@ + s.connection_type@)]
        } else {
            Seq::empty()
        };
        let charging = match s.heartbeat_battery { Some(hb) => hb.charging, None => false };
        let battery = match shown_battery(s) {
            Some(b) => if charging {
                seq![(TextStyle::Body, "Battery: "@ + signed_decimal(b as int) + "% (charging)"@)]
            } else if b >= 0 {
                seq![(TextStyle::Body, "Battery: "@ + signed_decimal(b as int) + "%"@)]
            } else {
                Seq::empty()
            },
            None => Seq::empty(),
        };
        let firmware = match s.state.firmware_version {
            Some(fw) => seq![(TextStyle::Caption, "Firmware: "@ + fw@)],
            None => Seq::empty(),
        };
        via + battery + firmware
    } else {
        seq![
            (TextStyle::Body, "Disconnected"@),
            (TextStyle::Caption, "Connect your Clevetura keyboard via USB or Bluetooth"@),
        ]
    }
}

/// Sensitivity law: the level last chosen, or read from the firmware, is the
/// level shown, whatever the configuration holds.
pub proof fn lemma_chosen_sensitivity_shown(s: AppletStatus, level: u32)
    ensures
        shown_sensitivity(AppletStatus { firmware_ai_level: Some(level), ..s }) == level,
{
}

/// The text a tooltip shows for the applet.
pub open spec fn tooltip_text(s: AppletStatus) -> Seq<char> {
    if s.state.connected {
        match s.state.mode {
            KeyboardMode::Typing => "Clevetura (Typing)"@,
            KeyboardMode::Touch => "Clevetura (Touch)"@,
            KeyboardMode::Unknown => "Clevetura (Connected)"@,
        }
    } else {
        "Clevetura (Disconnected)"@
    }
}

impl AppletStatus {
    /// What the applet knows before the first poll: a disconnected keyboard.
    pub fn new(config: Config) -> (r: AppletStatus)
        ensures
            r.state == disconnected_state(),
            r.config == config,
            r.firmware_ai_level is None,
            r.heartbeat_battery is None,
            r.connection_type@ == ""@,
    {
        AppletStatus {
            state: KeyboardState::default(),
            config,
            firmware_ai_level: None,
            heartbeat_battery: None,
            connection_type: "",
        }
    }

    /// Current AI sensitivity level (prefer firmware value over config).
    pub fn current_sensitivity(&self) -> (r: u32)
        ensures
            r == shown_sensitivity(*self),
    {
        match self.firmware_ai_level {
            Some(l) => l,
            None => self.config.sensitivity as u32,
        }
    }

    /// Battery percentage from the best available source.
    pub fn battery_percent(&self) -> (r: Option<i32>)
        ensures
            r == shown_battery(*self),
    {
        match &self.heartbeat_battery {
            Some(hb) => Some(hb.level),
            None => match self.state.battery_percent {
                Some(b) => Some(b as i32),
                None => None,
            },
        }
    }

    /// Takes in a state update from the background loop: the keyboard state
    /// and connection type always, the firmware level and the heartbeat
    /// battery where they were read.
    pub fn apply_state_update(
        &mut self,
        hw_state: KeyboardState,
        ai_level: Option<u32>,
        battery_from_heartbeat: Option<HeartBeatBattery>,
        connection_type: &'static str,
    )
        ensures
            final(self).state == hw_state,
            final(self).connection_type == connection_type,
            final(self).config == old(self).config,
            final(self).firmware_ai_level == match ai_level {
                Some(l) => Some(l),
                None => old(self).firmware_ai_level,
            },
            final(self).heartbeat_battery == match battery_from_heartbeat {
                Some(b) => Some(b),
                None => old(self).heartbeat_battery,
            },
    {
        self.state = hw_state;
        self.connection_type = connection_type;
        if let Some(level) = ai_level {
            self.firmware_ai_level = Some(level);
        }
        if let Some(batt) = battery_from_heartbeat {
            self.heartbeat_battery = Some(batt);
        }
    }

    /// Records a sensitivity level the user chose; the command that writes
    /// it to the keyboard is returned.
    pub fn set_sensitivity(&mut self, level: u32) -> (r: KeyboardCommand)
        ensures
            *final(self) == (AppletStatus { firmware_ai_level: Some(level), ..*old(self) }),
            r == KeyboardCommand::SetSensitivity(level),
    {
        self.firmware_ai_level = Some(level);
        KeyboardCommand::SetSensitivity(level)
    }

    /// The panel button, with the icon drawn in `color` and `popup` the ID of
    /// the open popup, if one is open: the keyboard icon while connected,
    /// the disconnected theme icon otherwise; a press closes the open popup,
    /// or else opens one.
    pub fn panel_view(&self, color: &str, popup: Option<u64>) -> (r: PanelView)
        ensures
            self.state.connected ==> (r.icon matches PanelIcon::Drawn(svg)
                && svg@ == icon_svg(color@, self.state.mode)),
            !self.state.connected ==> (r.icon matches PanelIcon::Named(n) && n@ == DISCONNECTED_ICON@),
            r.tooltip@ == tooltip_text(*self),
            r.popup_open == popup is Some,
            r.press == match popup {
                Some(id) => PressAction::ClosePopup(id),
                None => PressAction::OpenPopup { width: POPUP_WIDTH, height: POPUP_HEIGHT },
            },
    {
        let icon = if self.state.connected {
            PanelIcon::Drawn(keyboard_icon_svg(color, &self.state.mode))
        } else {
            PanelIcon::Named(DISCONNECTED_ICON)
        };
        let press = match popup {
            Some(id) => PressAction::ClosePopup(id),
            None => PressAction::OpenPopup { width: POPUP_WIDTH, height: POPUP_HEIGHT },
        };
        PanelView { icon, tooltip: self.tooltip(), popup_open: popup.is_some(), press }
    }

    /// The text of the applet's tooltip.
    pub fn tooltip(&self) -> (r: &'static str)
        ensures
            r@ == tooltip_text(*self),
    {
        if self.state.connected {
            match self.state.mode {
                KeyboardMode::Typing => "Clevetura (Typing)",
                KeyboardMode::Touch => "Clevetura (Touch)",
                KeyboardMode::Unknown => "Clevetura (Connected)",
            }
        } else {
            "Clevetura (Disconnected)"
        }
    }

    /// What the popup shows: the connection and device lines, the
    /// sensitivity, and the levels the minus and plus buttons set (enabled
    /// only while connected and inside 1-9).
    pub fn popup_model(&self) -> (r: PopupModel)
        ensures
            r.info@.map_values(|l: (TextStyle, String)| (l.0, l.1@)) == popup_info(*self),
            r.sensitivity_label@ == "Touch Sensitivity: "@ + decimal(shown_sensitivity(*self) as nat) + "/9"@,
            r.decrease_to == if shown_sensitivity(*self) > 1 && self.state.connected {
                Some((shown_sensitivity(*self) - 1) as u32)
            } else {
                None::<u32>
            },
            r.increase_to == if shown_sensitivity(*self) < 9 && self.state.connected {
                Some((shown_sensitivity(*self) + 1) as u32)
            } else {
                None::<u32>
            },
    {
        let mut info: Vec<(TextStyle, String)> = Vec::new();
        if self.state.connected {
            if !self.connection_type.is_empty() {
                let mut t = string_of("Connected via ");
                push_str(&mut t, self.connection_type);
                info.push((TextStyle::Body, t));
            }
            let ghost after_via = info@;
            let charging = match &self.heartbeat_battery {
                Some(hb) => hb.charging,
                None => false,
            };
            if let Some(batt) = self.battery_percent() {
                if charging {
                    let mut t = string_of("Battery: ");
                    push_signed_decimal(&mut t, batt as i64);
                    push_str(&mut t, "% (charging)");
                    info.push((TextStyle::Body, t));
                } else if batt >= 0 {
                    let mut t = string_of("Battery: ");
                    push_signed_decimal(&mut t, batt as i64);
                    push_str(&mut t, "%");
                    info.push((TextStyle::Body, t));
                }
            }
            if let Some(fw) = &self.state.firmware_version {
                let mut t = string_of("Firmware: ");
                push_str(&mut t, fw.as_str());
                info.push((TextStyle::Caption, t));
            }
            assert(info@.map_values(|l: (TextStyle, String)| (l.0, l.1@)) =~= popup_info(*self));
        } else {
            info.push((TextStyle::Body, string_of("Disconnected")));
            info.push((TextStyle::Caption, string_of("Connect your Clevetura keyboard via USB or Bluetooth")));
            assert(info@.map_values(|l: (TextStyle, String)| (l.0, l.1@)) =~= popup_info(*self));
        }
        let ai_level = self.current_sensitivity();
        let mut label = string_of("Touch Sensitivity: ");
        push_decimal(&mut label, ai_level as u64);
        push_str(&mut label, "/9");
        let decrease_to = if ai_level > 1 && self.state.connected { Some(ai_level - 1) } else { None };
        let increase_to = if ai_level < 9 && self.state.connected { Some(ai_level + 1) } else { None };
        PopupModel { info, sensitivity_label: label, decrease_to, increase_to }
    }
}

/// The second wave of the icon, drawn in touch mode.
pub open spec fn icon_wave(color: Seq<char>, mode: KeyboardMode) -> Seq<char> {
    match mode {
        KeyboardMode::Touch => "<path d=\"M4 10.5C5.2 9 6.2 8.2 8 8.2C9.8 8.2 10.8 9 12 10.5\" fill=\"none\" stroke=\""@ + color + "\" stroke-width=\"0.8\" stroke-linecap=\"round\" opacity=\"0.6\"/>"@,
        _ => Seq::empty(),
    }
}

/// The opacity of the icon's dot: dimmed while the mode is unknown.
pub open spec fn icon_dot_opacity(mode: KeyboardMode) -> Seq<char> {
    match mode {
        KeyboardMode::Unknown => "0.5"@,
        _ => "1"@,
    }
}

/// The SVG of the TouchOnKeys shield icon in `color` for `mode`.
pub open spec fn icon_svg(color: Seq<char>, mode: KeyboardMode) -> Seq<char> {
    "<svg width=\"16\" height=\"16\" viewBox=\"0 0 16 16\" xmlns=\"http://www.w3.org/2000/svg\">\n  <path d=\"M8 1.5L2.5 4V9C2.5 11.5 4.5 13.5 8 14.5C11.5 13.5 13.5 11.5 13.5 9V4L8 1.5Z\" fill=\"none\" stroke=\""@ + color + "\" stroke-width=\"1.2\" stroke-linejoin=\"round\"/>\n  <path d=\"M5 9C5.8 8 6.5 7.5 8 7.5C9.5 7.5 10.2 8 11 9\" fill=\"none\" stroke=\""@ + color + "\" stroke-width=\"1\" stroke-linecap=\"round\"/>\n  "@ + icon_wave(color, mode) + "\n  <circle cx=\"8\" cy=\"5.5\" r=\"1\" fill=\""@ + color
        + "\" opacity=\""@ + icon_dot_opacity(mode) + "\"/>\n</svg>"@
}

/// Generate a TouchOnKeys shield SVG icon with theme color.
pub fn keyboard_icon_svg(color: &str, mode: &KeyboardMode) -> (r: String)
    ensures
        r@ == icon_svg(color@, *mode),
{
    let mut r = string_of("<svg width=\"16\" height=\"16\" viewBox=\"0 0 16 16\" xmlns=\"http://www.w3.org/2000/svg\">\n  <path d=\"M8 1.5L2.5 4V9C2.5 11.5 4.5 13.5 8 14.5C11.5 13.5 13.5 11.5 13.5 9V4L8 1.5Z\" fill=\"none\" stroke=\"");
    push_str(&mut r, color);
    push_str(&mut r, "\" stroke-width=\"1.2\" stroke-linejoin=\"round\"/>\n  <path d=\"M5 9C5.8 8 6.5 7.5 8 7.5C9.5 7.5 10.2 8 11 9\" fill=\"none\" stroke=\"");
    push_str(&mut r, color);
    push_str(&mut r, "\" stroke-width=\"1\" stroke-linecap=\"round\"/>\n  ");
    match mode {
        KeyboardMode::Touch => {
            push_str(&mut r, "<path d=\"M4 10.5C5.2 9 6.2 8.2 8 8.2C9.8 8.2 10.8 9 12 10.5\" fill=\"none\" stroke=\"");
            push_str(&mut r, color);
            push_str(&mut r, "\" stroke-width=\"0.8\" stroke-linecap=\"round\" opacity=\"0.6\"/>");
        },
        _ => {},
    }
    push_str(&mut r, "\n  <circle cx=\"8\" cy=\"5.5\" r=\"1\" fill=\"");
    push_str(&mut r, color);
    push_str(&mut r, "\" opacity=\"");
    match mode {
        KeyboardMode::Unknown => push_str(&mut r, "0.5"),
        _ => push_str(&mut r, "1"),
    }
    push_str(&mut r, "\"/>\n</svg>");
    assert(r@ =~= icon_svg(color@, *mode));
    r
}

} // verus!
