//! Protobuf-over-HID protocol for Clevetura keyboard configuration.
//!
//! The keyboard uses a two-layer protocol:
//! - Layer 1 (report IDs 0x21/0x22): firmware commands (auth, battery, FW update)
//! - Layer 2 (report IDs 0x23/0x24): protobuf app protocol (settings, profiles, gestures)
//!
//! Layer 2 flow: the protobuf bytes of a `Request` are base64-encoded, an
//! end byte (0x0A) is appended, and the text is sent in 64-byte reports
//! (report ID 0x23 and 63 data bytes). The answer comes in reports with ID
//! 0x24 up to the end byte; its printable bytes are base64-decoded into the
//! protobuf bytes of a `Response`.
//!
//! This module holds the messages as plain values, the requests that the
//! library sends, the reading of the answers, and the framing. Turning a
//! message into protobuf bytes and back is done where the messages carry the
//! protobuf derive.

use vstd::prelude::*;
use crate::codec::{base64_bytes, base64_decode, base64_encode, base64_text, copy_range,
    is_base64_symbol, piece, piece_count, split_pieces};
use crate::text::{push_signed_decimal, push_str, signed_decimal, string_of};

verus! {

/// HID report ID of the reports that carry requests to the keyboard.
pub const APP_OUTPUT_REPORT_ID: u8 = 0x23;
/// HID report ID of the reports that carry answers from the keyboard.
pub const APP_INPUT_REPORT_ID: u8 = 0x24;
/// The byte that ends a message.
pub const END_BYTE: u8 = 0x0A;
/// Data bytes per HID report (a 64-byte report less its report ID).
pub const CHUNK_DATA_SIZE: usize = 63;
/// Timeout of one HID read, in milliseconds.
pub const READ_TIMEOUT_MS: i32 = 2000;
/// Reads allowed for one answer.
pub const MAX_READ_RETRIES: usize = 100;
/// Empty reads in a row after which the answer is given up.
pub const MAX_EMPTY_RETRIES: usize = 4;

/// Request types of the app protocol.
#[derive(Clone, Copy, Debug, PartialEq, Eq, Hash)]
pub enum RequestType {
    GetSettings,
    SetSettings,
    GetDeviceInfo,
    Heartbeat,
    SetProfileSettings,
    GetProfileSettings,
    ControlAi,
    GetAiState,
    SetOsMode,
    GetDefaultSettings,
    PerformFullReset,
    GetUserAiData,
    PerformRestart,
}

/// The wire value of each request type.
pub open spec fn request_type_code(t: RequestType) -> i32 {
    match t {
        RequestType::GetSettings => 0,
        RequestType::SetSettings => 1,
        RequestType::GetDeviceInfo => 2,
        RequestType::Heartbeat => 3,
        RequestType::SetProfileSettings => 4,
        RequestType::GetProfileSettings => 5,
        RequestType::ControlAi => 6,
        RequestType::GetAiState => 7,
        RequestType::SetOsMode => 8,
        RequestType::GetDefaultSettings => 9,
        RequestType::PerformFullReset => 10,
        RequestType::GetUserAiData => 11,
        RequestType::PerformRestart => 12,
    }
}

impl RequestType {
    /// The wire value of this request type.
    pub fn code(&self) -> (r: i32)
        ensures
            r == request_type_code(*self),
    {
        match self {
            RequestType::GetSettings => 0,
            RequestType::SetSettings => 1,
            RequestType::GetDeviceInfo => 2,
            RequestType::Heartbeat => 3,
            RequestType::SetProfileSettings => 4,
            RequestType::GetProfileSettings => 5,
            RequestType::ControlAi => 6,
            RequestType::GetAiState => 7,
            RequestType::SetOsMode => 8,
            RequestType::GetDefaultSettings => 9,
            RequestType::PerformFullReset => 10,
            RequestType::GetUserAiData => 11,
            RequestType::PerformRestart => 12,
        }
    }

    /// The request type with wire value `code`, if there is one.
    pub fn from_code(code: i32) -> (r: Option<RequestType>)
        ensures
            match r {
                Some(t) => request_type_code(t) == code,
                None => forall|t: RequestType| request_type_code(t) != code,
            },
    {
        match code {
            0 => Some(RequestType::GetSettings),
            1 => Some(RequestType::SetSettings),
            2 => Some(RequestType::GetDeviceInfo),
            3 => Some(RequestType::Heartbeat),
            4 => Some(RequestType::SetProfileSettings),
            5 => Some(RequestType::GetProfileSettings),
            6 => Some(RequestType::ControlAi),
            7 => Some(RequestType::GetAiState),
            8 => Some(RequestType::SetOsMode),
            9 => Some(RequestType::GetDefaultSettings),
            10 => Some(RequestType::PerformFullReset),
            11 => Some(RequestType::GetUserAiData),
            12 => Some(RequestType::PerformRestart),
            _ => None,
        }
    }
}

/// Wire value law: distinct request types have distinct wire values, so the
/// type that `from_code` finds for the code of `t` is `t` itself.
pub proof fn lemma_request_type_code_roundtrip(t: RequestType, u: RequestType)
    requires
        request_type_code(u) == request_type_code(t),
    ensures
        u == t,
{
}

/// Top-level request message.
#[derive(Clone, Debug, PartialEq, Default)]
pub struct Request {
    pub kind: i32,
    pub get_settings: Option<GetSettingsRequest>,
    pub set_settings: Option<SetSettingsRequest>,
    pub set_profile_settings: Option<SetProfileSettingsRequest>,
    pub heart_beat: Option<HeartBeat>,
    pub get_profile_settings: Option<GetProfileSettingsRequest>,
    pub set_os_mode: Option<SetOsModeRequest>,
}

/// Top-level response message.
#[derive(Clone, Debug, PartialEq, Default)]
pub struct Response {
    pub kind: i32,
    pub get_settings: Option<GetSettingsResponse>,
    pub set_settings: Option<SetSettingsResponse>,
    pub heart_beat: Option<HeartBeatResponse>,
    pub bad_request: Option<BadRequestResponse>,
    pub get_profile_settings: Option<GetProfileSettingsResponse>,
}

#[derive(Clone, Debug, PartialEq, Default)]
pub struct GetSettingsRequest {}

#[derive(Clone, Debug, PartialEq, Default)]
pub struct GetSettingsResponse {
    pub status: i32,
    pub settings: Option<AppSettings>,
}

#[derive(Clone, Debug, PartialEq, Default)]
pub struct SetSettingsRequest {
    pub settings: Option<AppSettings>,
}

#[derive(Clone, Debug, PartialEq, Default)]
pub struct SetSettingsResponse {
    pub status: i32,
}

#[derive(Clone, Debug, PartialEq, Default)]
pub struct SetProfileSettingsRequest {
    pub settings: Option<ProfileSettings>,
}

#[derive(Clone, Debug, PartialEq, Default)]
pub struct GetProfileSettingsRequest {
    pub profile_id: u32,
}

#[derive(Clone, Debug, PartialEq, Default)]
pub struct GetProfileSettingsResponse {
    pub status: i32,
    pub settings: Option<ProfileSettings>,
}

#[derive(Clone, Debug, PartialEq, Default)]
pub struct HeartBeat {
    pub active_profile: u32,
}

#[derive(Clone, Debug, PartialEq, Default)]
pub struct HeartBeatResponse {
    pub status: i32,
    pub battery: Option<HeartBeatBattery>,
}

#[derive(Clone, Debug, PartialEq, Default)]
pub struct HeartBeatBattery {
    pub level: i32,
    pub charging: bool,
}

#[derive(Clone, Debug, PartialEq, Default)]
pub struct BadRequestResponse {
    pub error: i32,
}

#[derive(Clone, Debug, PartialEq, Default)]
pub struct SetOsModeRequest {
    pub mode: i32,
}

/// Global and profile settings together.
#[derive(Clone, Debug, PartialEq, Default)]
pub struct AppSettings {
    pub global: Option<GlobalSettings>,
    pub global_profile: Option<ProfileSettings>,
    pub counter: Option<u32>,
}

/// Global keyboard settings.
#[derive(Clone, Debug, PartialEq, Default)]
pub struct GlobalSettings {
    /// Single-finger tap enabled.
    pub tap1f_enable: Option<bool>,
    /// Two-finger tap enabled.
    pub tap2f_enable: Option<bool>,
    /// Hold gesture enabled.
    pub hold_enable: Option<bool>,
    /// Swap left/right click buttons.
    pub swap_click_buttons: Option<bool>,
    /// AI sensitivity level (1-9).
    pub current_ai_level: Option<u32>,
    /// Newbie mode.
    pub newbie_mode_enable: Option<bool>,
    /// Touch activation after lift-off.
    pub touch_activation_after_lift_off: Option<bool>,
    /// Fn lock.
    pub fn_lock: Option<bool>,
    /// Auto brightness.
    pub auto_brightness_enable: Option<bool>,
    /// Dominant hand (0=right, 1=left).
    pub dominant_hand: Option<i32>,
    /// Battery saving mode.
    pub battery_saving_mode_enable: Option<bool>,
    /// Key suppressor.
    pub key_suppressor_enable: Option<bool>,
    /// Hold delay on border.
    pub hold_delay_on_border_enable: Option<bool>,
    /// Swap Fn and Ctrl keys.
    pub swap_fn_ctrl: Option<bool>,
}

/// Per-profile settings (gestures, sliders, F-keys).
#[derive(Clone, Debug, PartialEq, Default)]
pub struct ProfileSettings {
    pub id: u32,
    pub gestures: Option<GestureSettings>,
    pub touch_zone: Option<TouchZoneSettings>,
    pub keyboard: Option<KeyboardSettings>,
}

#[derive(Clone, Debug, PartialEq, Default)]
pub struct GestureSettings {
    pub three_finger: Option<GestureGroup>,
    pub four_finger: Option<GestureGroup>,
}

#[derive(Clone, Debug, PartialEq, Default)]
pub struct GestureGroup {
    pub swipe: Option<GestureSwipe>,
    pub tap: Option<GestureTap>,
}

#[derive(Clone, Debug, PartialEq, Default)]
pub struct GestureSwipe {
    pub up: Option<GestureAction>,
    pub down: Option<GestureAction>,
    pub left: Option<GestureAction>,
    pub right: Option<GestureAction>,
}

#[derive(Clone, Debug, PartialEq, Default)]
pub struct GestureTap {
    pub action: Option<GestureAction>,
}

/// Gesture action: touchpad passthrough, nothing, shortcut, or as-global.
#[derive(Clone, Debug, PartialEq, Default)]
pub struct GestureAction {
    pub touchpad: Option<GestureTouchpad>,
    pub nothing: Option<GestureNothing>,
    pub shortcut: Option<GestureShortcut>,
    pub as_global: Option<GestureAsGlobal>,
}

#[derive(Clone, Debug, PartialEq, Default)]
pub struct GestureTouchpad {}

#[derive(Clone, Debug, PartialEq, Default)]
pub struct GestureNothing {}

#[derive(Clone, Debug, PartialEq, Default)]
pub struct GestureAsGlobal {}

#[derive(Clone, Debug, PartialEq, Default)]
pub struct GestureShortcut {
    pub direct: Vec<KeyEntry>,
    pub opposite: Vec<KeyEntry>,
    pub sensitivity: Option<u32>,
    pub continuous: Option<bool>,
}

#[derive(Clone, Debug, PartialEq, Default)]
pub struct TouchZoneSettings {
    pub slider: Option<SliderSettings>,
}

#[derive(Clone, Debug, PartialEq, Default)]
pub struct SliderSettings {
    pub left: Option<SliderConfig>,
    pub right: Option<SliderConfig>,
}

/// Individual slider configuration.
#[derive(Clone, Debug, PartialEq, Default)]
pub struct SliderConfig {
    pub sensitivity: Option<u32>,
    pub custom_shortcut: Option<SliderShortcut>,
    pub custom: Option<i32>,
    pub nothing: Option<SliderNothing>,
    pub as_global: Option<SliderAsGlobal>,
}

#[derive(Clone, Debug, PartialEq, Default)]
pub struct SliderShortcut {
    pub increment: Option<KeyCombination>,
    pub decrement: Option<KeyCombination>,
    pub continuous: Option<bool>,
}

#[derive(Clone, Debug, PartialEq, Default)]
pub struct SliderNothing {}

#[derive(Clone, Debug, PartialEq, Default)]
pub struct SliderAsGlobal {}

#[derive(Clone, Debug, PartialEq, Default)]
pub struct KeyCombination {
    pub keys: Vec<KeyEntry>,
}

#[derive(Clone, Debug, PartialEq, Default)]
pub struct KeyEntry {
    pub code: Option<u32>,
    pub kind: Option<u32>,
}

#[derive(Clone, Debug, PartialEq, Default)]
pub struct KeyboardSettings {
    pub f_key: Option<FKeySettings>,
}

#[derive(Clone, Debug, PartialEq, Default)]
pub struct FKeySettings {
    pub f1: Option<FKeyAction>,
    pub f2: Option<FKeyAction>,
    pub f3: Option<FKeyAction>,
    pub f4: Option<FKeyAction>,
    pub f5: Option<FKeyAction>,
    pub f6: Option<FKeyAction>,
    pub f7: Option<FKeyAction>,
    pub f8: Option<FKeyAction>,
    pub f9: Option<FKeyAction>,
    pub f10: Option<FKeyAction>,
    pub f11: Option<FKeyAction>,
    pub f12: Option<FKeyAction>,
}

/// F-key action: nothing, custom keys, or as-global.
#[derive(Clone, Debug, PartialEq, Default)]
pub struct FKeyAction {
    pub nothing: Option<FKeyNothing>,
    pub custom: Option<FKeyCustom>,
    pub as_global: Option<FKeyAsGlobal>,
}

#[derive(Clone, Debug, PartialEq, Default)]
pub struct FKeyNothing {}

#[derive(Clone, Debug, PartialEq, Default)]
pub struct FKeyCustom {
    pub keys: Vec<KeyEntry>,
}

#[derive(Clone, Debug, PartialEq, Default)]
pub struct FKeyAsGlobal {}

// ── Requests the library sends, and what it reads from the answers ──

/// A request of wire type `kind` with no sub-message.
pub open spec fn bare_request(kind: i32) -> Request {
    Request {
        kind,
        get_settings: None,
        set_settings: None,
        set_profile_settings: None,
        heart_beat: None,
        get_profile_settings: None,
        set_os_mode: None,
    }
}

/// Global settings with every field unset.
pub open spec fn empty_global_settings() -> GlobalSettings {
    GlobalSettings {
        tap1f_enable: None,
        tap2f_enable: None,
        hold_enable: None,
        swap_click_buttons: None,
        current_ai_level: None,
        newbie_mode_enable: None,
        touch_activation_after_lift_off: None,
        fn_lock: None,
        auto_brightness_enable: None,
        dominant_hand: None,
        battery_saving_mode_enable: None,
        key_suppressor_enable: None,
        hold_delay_on_border_enable: None,
        swap_fn_ctrl: None,
    }
}

fn new_request(kind: i32) -> (r: Request)
    ensures
        r == bare_request(kind),
{
    Request {
        kind,
        get_settings: None,
        set_settings: None,
        set_profile_settings: None,
        heart_beat: None,
        get_profile_settings: None,
        set_os_mode: None,
    }
}

/// The request that asks for the current keyboard settings.
pub fn get_settings_request() -> (r: Request)
    ensures
        r == (Request { get_settings: Some(GetSettingsRequest {}), ..bare_request(0) }),
{
    let mut r = new_request(RequestType::GetSettings.code());
    r.get_settings = Some(GetSettingsRequest {});
    r
}

/// The request that writes `settings` to the keyboard.
pub fn set_settings_request(settings: AppSettings) -> (r: Request)
    ensures
        r == (Request {
            set_settings: Some(SetSettingsRequest { settings: Some(settings) }),
            ..bare_request(1)
        }),
{
    let mut r = new_request(RequestType::SetSettings.code());
    r.set_settings = Some(SetSettingsRequest { settings: Some(settings) });
    r
}

/// The heartbeat request that reports `active_profile`.
pub fn heartbeat_request(active_profile: u32) -> (r: Request)
    ensures
        r == (Request { heart_beat: Some(HeartBeat { active_profile }), ..bare_request(3) }),
{
    let mut r = new_request(RequestType::Heartbeat.code());
    r.heart_beat = Some(HeartBeat { active_profile });
    r
}

/// The request that sets the OS mode (0=win, 1=mac, 2=linux).
pub fn set_os_mode_request(mode: i32) -> (r: Request)
    ensures
        r == (Request { set_os_mode: Some(SetOsModeRequest { mode }), ..bare_request(8) }),
{
    let mut r = new_request(RequestType::SetOsMode.code());
    r.set_os_mode = Some(SetOsModeRequest { mode });
    r
}

/// A request of type `request_type` with no sub-message.
pub fn plain_request(request_type: RequestType) -> (r: Request)
    ensures
        r == bare_request(request_type_code(request_type)),
{
    new_request(request_type.code())
}

/// Settings that change only the AI sensitivity level.
pub fn sensitivity_settings(level: u32) -> (r: AppSettings)
    ensures
        r == (AppSettings {
            global: Some(GlobalSettings { current_ai_level: Some(level), ..empty_global_settings() }),
            global_profile: None,
            counter: None,
        }),
{
    AppSettings {
        global: Some(GlobalSettings {
            tap1f_enable: None,
            tap2f_enable: None,
            hold_enable: None,
            swap_click_buttons: None,
            current_ai_level: Some(level),
            newbie_mode_enable: None,
            touch_activation_after_lift_off: None,
            fn_lock: None,
            auto_brightness_enable: None,
            dominant_hand: None,
            battery_saving_mode_enable: None,
            key_suppressor_enable: None,
            hold_delay_on_border_enable: None,
            swap_fn_ctrl: None,
        }),
        global_profile: None,
        counter: None,
    }
}

/// Settings that carry `global` and nothing else.
pub fn global_only_settings(global: GlobalSettings) -> (r: AppSettings)
    ensures
        r == (AppSettings { global: Some(global), global_profile: None, counter: None }),
{
    AppSettings { global: Some(global), global_profile: None, counter: None }
}

/// The settings in the answer to a get-settings request over USB.
pub fn settings_from_response(response: Response) -> (r: Result<AppSettings, String>)
    ensures
        match response.get_settings {
            None => r matches Err(e) && e@ == "No getSettings in response"@,
            Some(g) => match g.settings {
                None => r matches Err(e) && e@ == "No settings in getSettings response"@,
                Some(s) => r == Ok::<AppSettings, String>(s),
            },
        },
{
    match response.get_settings {
        None => Err(string_of("No getSettings in response")),
        Some(g) => match g.settings {
            None => Err(string_of("No settings in getSettings response")),
            Some(s) => Ok(s),
        },
    }
}

/// The settings in the answer to a get-settings request over BLE.
pub fn ble_settings_from_response(response: Response) -> (r: Result<AppSettings, String>)
    ensures
        match response.get_settings {
            None => r matches Err(e) && e@ == "No getSettings in response"@,
            Some(g) => match g.settings {
                None => r matches Err(e) && e@ == "No settings in response"@,
                Some(s) => r == Ok::<AppSettings, String>(s),
            },
        },
{
    match response.get_settings {
        None => Err(string_of("No getSettings in response")),
        Some(g) => match g.settings {
            None => Err(string_of("No settings in response")),
            Some(s) => Ok(s),
        },
    }
}

fn bad_request_error(error: i32) -> (e: String)
    ensures
        e@ == "Bad request error: "@ + signed_decimal(error as int),
{
    let mut e = string_of("Bad request error: ");
    push_signed_decimal(&mut e, error as i64);
    e
}

/// Whether the answer to a set-settings request over USB reports success:
/// a bad-request answer or a non-zero status is an error.
pub fn check_set_settings_response(response: &Response) -> (r: Result<(), String>)
    ensures
        match response.bad_request {
            Some(bad) => r matches Err(e) && e@ == "Bad request error: "@ + signed_decimal(bad.error as int),
            None => match response.set_settings {
                Some(s) if s.status != 0 => r matches Err(e)
                    && e@ == "SetSettings failed with status "@ + signed_decimal(s.status as int),
                _ => r is Ok,
            },
        },
{
    if let Some(bad) = &response.bad_request {
        return Err(bad_request_error(bad.error));
    }
    if let Some(set_resp) = &response.set_settings {
        if set_resp.status != 0 {
            let mut e = string_of("SetSettings failed with status ");
            push_signed_decimal(&mut e, set_resp.status as i64);
            return Err(e);
        }
    }
    Ok(())
}

/// Whether the answer to a set-settings request over BLE reports success:
/// only a bad-request answer is an error.
pub fn check_ble_set_settings_response(response: &Response) -> (r: Result<(), String>)
    ensures
        match response.bad_request {
            Some(bad) => r matches Err(e) && e@ == "Bad request error: "@ + signed_decimal(bad.error as int),
            None => r is Ok,
        },
{
    if let Some(bad) = &response.bad_request {
        return Err(bad_request_error(bad.error));
    }
    Ok(())
}

/// The battery information in the answer to a heartbeat.
pub fn heartbeat_battery(response: Response) -> (r: Option<HeartBeatBattery>)
    ensures
        r == (match response.heart_beat {
            Some(hb) => hb.battery,
            None => None,
        }),
{
    match response.heart_beat {
        Some(hb) => hb.battery,
        None => None,
    }
}

// ── Transport: protobuf over chunked HID ──

/// The text sent for the protobuf bytes `proto`: their base64 text and the end byte.
pub open spec fn app_payload(proto: Seq<u8>) -> Seq<u8> {
    base64_text(proto).push(END_BYTE)
}

/// The 64-byte report that carries `chunk`: the report ID, the chunk, and
/// zero bytes up to the report size.
pub open spec fn app_report(chunk: Seq<u8>) -> Seq<u8> {
    seq![APP_OUTPUT_REPORT_ID] + chunk + Seq::new((63 - chunk.len()) as nat, |i: int| 0u8)
}

fn report_for_chunk(chunk: &Vec<u8>) -> (r: Vec<u8>)
    requires
        chunk@.len() <= 63,
    ensures
        r@ == app_report(chunk@),
{
    let mut r: Vec<u8> = Vec::new();
    r.push(APP_OUTPUT_REPORT_ID);
    let mut i: usize = 0;
    while i < chunk.len()
        invariant
            i <= chunk@.len() <= 63,
            r@ == seq![APP_OUTPUT_REPORT_ID] + chunk@.take(i as int),
        decreases chunk@.len() - i,
    {
        r.push(chunk[i]);
        i = i + 1;
        assert(r@ =~= seq![APP_OUTPUT_REPORT_ID] + chunk@.take(i as int));
    }
    while r.len() < 64
        invariant
            1 + chunk@.len() <= r@.len() <= 64,
            r@ =~= seq![APP_OUTPUT_REPORT_ID] + chunk@ + Seq::new((r@.len() - 1 - chunk@.len()) as nat, |i: int| 0u8),
        decreases 64 - r@.len(),
    {
        r.push(0);
    }
    assert(r@ =~= app_report(chunk@));
    r
}

/// The HID reports that carry a request with protobuf bytes `proto`: the
/// base64 text and end byte, cut into 63-byte chunks, one report per chunk.
pub fn app_request_reports(proto: &[u8]) -> (reports: Vec<Vec<u8>>)
    requires
        proto@.len() <= usize::MAX / 2,
    ensures
        reports@.len() == piece_count(app_payload(proto@).len(), 63),
        forall|k: int| 0 <= k < reports@.len()
            ==> (#[trigger] reports@[k])@ == app_report(piece(app_payload(proto@), 63, k as nat)),
        reports@.map_values(|r: Vec<u8>| r@) == app_text_reports(base64_text(proto@)),
        base64_bytes(printable_bytes(recovered_text(reports@.map_values(|r: Vec<u8>| r@))))
            == Some(proto@),
{
    let mut payload = base64_encode(proto);
    payload.push(END_BYTE);
    let chunks = split_pieces(payload.as_slice(), CHUNK_DATA_SIZE);
    let mut reports: Vec<Vec<u8>> = Vec::new();
    let mut k: usize = 0;
    while k < chunks.len()
        invariant
            k <= chunks@.len(),
            payload@ == app_payload(proto@),
            chunks@.len() == piece_count(payload@.len(), 63),
            forall|j: int| 0 <= j < chunks@.len() ==> (#[trigger] chunks@[j])@ == piece(payload@, 63, j as nat),
            reports@.len() == k,
            forall|j: int| 0 <= j < k ==> (#[trigger] reports@[j])@ == app_report(piece(payload@, 63, j as nat)),
        decreases chunks@.len() - k,
    {
        assert(chunks@[k as int]@ == piece(payload@, 63, k as nat));
        proof {
            lemma_piece_len(payload@, 63, k as nat);
        }
        let report = report_for_chunk(&chunks[k]);
        reports.push(report);
        k = k + 1;
    }
    proof {
        let t = base64_text(proto@);
        assert(reports@.map_values(|r: Vec<u8>| r@) =~= app_text_reports(t));
        assert(!t.contains(END_BYTE)) by {
            if t.contains(END_BYTE) {
                let j = choose|j: int| 0 <= j < t.len() && t[j] == END_BYTE;
                assert(payload@[j] == t[j]);
            }
        }
        lemma_app_framing_recovers_text(t);
        assert forall|j: int| 0 <= j < t.len() implies is_printable_byte(#[trigger] t[j]) by {
            assert(payload@[j] == t[j]);
        }
        lemma_printable_identity(t);
    }
    reports
}

pub(crate) proof fn lemma_printable_identity(s: Seq<u8>)
    requires
        forall|j: int| 0 <= j < s.len() ==> is_printable_byte(#[trigger] s[j]),
    ensures
        printable_bytes(s) == s,
    decreases s.len(),
{
    if s.len() > 0 {
        lemma_printable_identity(s.drop_last());
        assert(s.drop_last().push(s.last()) =~= s);
    }
}

proof fn lemma_piece_len(data: Seq<u8>, size: nat, k: nat)
    requires
        size > 0,
        k * size <= data.len(),
    ensures
        piece(data, size, k).len() <= size,
{
    assert((k + 1) * size == k * size + size) by (nonlinear_arith);
}

/// `s` has `b` at `k`, and nowhere before.
pub open spec fn first_at(s: Seq<u8>, b: u8, k: int) -> bool {
    0 <= k < s.len() && s[k] == b && forall|j: int| 0 <= j < k ==> s[j] != b
}

/// Where `b` first occurs in `s` (meaningful where it occurs).
pub open spec fn first_index(s: Seq<u8>, b: u8) -> int {
    choose|k: int| first_at(s, b, k)
}

proof fn lemma_first_index(s: Seq<u8>, b: u8, k: int)
    requires
        first_at(s, b, k),
    ensures
        first_index(s, b) == k,
{
    let c = first_index(s, b);
    assert(first_at(s, b, c));
    if c < k {
        assert(s[c] != b);
    } else if k < c {
        assert(s[k] != b);
    }
}

/// Where `b` first occurs in `s`, if it does.
pub fn find_byte(s: &[u8], b: u8) -> (r: Option<usize>)
    ensures
        match r {
            Some(k) => first_at(s@, b, k as int) && first_index(s@, b) == k,
            None => !s@.contains(b),
        },
{
    let mut i: usize = 0;
    while i < s.len()
        invariant
            i <= s@.len(),
            forall|j: int| 0 <= j < i ==> s@[j] != b,
        decreases s@.len() - i,
    {
        if s[i] == b {
            proof {
                lemma_first_index(s@, b, i as int);
            }
            return Some(i);
        }
        i = i + 1;
    }
    None
}

/// How a read of the answer went.
#[derive(Debug)]
pub enum ReadProgress {
    /// More reports are needed.
    Pending,
    /// The end byte arrived; the answer is complete.
    Complete,
    /// The answer is given up, for the reason given.
    Failed(String),
}

/// One read taken in by the answer reader, from the bytes gathered so far
/// and the count of empty reads in a row: the bytes and the count after it,
/// and whether the answer is now complete (`Some(true)`), given up
/// (`Some(false)`), or still open (`None`).
pub open spec fn read_step(data: Seq<u8>, empty: nat, report: Seq<u8>) -> (Seq<u8>, nat, Option<bool>) {
    if report.len() == 0 {
        (data, empty + 1, if empty + 1 >= MAX_EMPTY_RETRIES { Some(false) } else { None })
    } else if report[0] != APP_INPUT_REPORT_ID {
        (data, 0, None)
    } else {
        let d = report.drop_first();
        if d.contains(END_BYTE) {
            (data + d.take(first_index(d, END_BYTE)), 0, Some(true))
        } else {
            (data + d, 0, None)
        }
    }
}

/// What the answer reader makes of the reads `reads`, from the bytes `data`
/// gathered so far, `retries` reads left and `empty` empty reads in a row:
/// `Some(Ok(answer))` where a read completes the answer, `Some(Err(reason))`
/// where it is given up, `None` where the reads run out first.
pub open spec fn read_answer(data: Seq<u8>, retries: nat, empty: nat, reads: Seq<Seq<u8>>)
    -> Option<Result<Seq<u8>, Seq<char>>>
    decreases reads.len(),
{
    if reads.len() == 0 {
        None
    } else if retries == 0 {
        Some(Err("Max read retries exceeded"@))
    } else {
        let (d, e, status) = read_step(data, empty, reads[0]);
        match status {
            Some(true) => Some(Ok(d)),
            Some(false) => Some(Err("No response data after retries"@)),
            None => read_answer(d, (retries - 1) as nat, e, reads.drop_first()),
        }
    }
}

/// The data bytes of the answer reports among `reads`, joined in order.
pub open spec fn answer_data(reads: Seq<Seq<u8>>) -> Seq<u8>
    decreases reads.len(),
{
    if reads.len() == 0 {
        Seq::empty()
    } else {
        (if reads[0].len() > 0 && reads[0][0] == APP_INPUT_REPORT_ID {
            reads[0].drop_first()
        } else {
            Seq::empty()
        }) + answer_data(reads.drop_first())
    }
}

/// No `MAX_EMPTY_RETRIES` empty reads come in a row in `reads`, counting
/// `empty` empty reads before them.
pub open spec fn empty_runs_short(empty: nat, reads: Seq<Seq<u8>>) -> bool
    decreases reads.len(),
{
    if reads.len() == 0 {
        true
    } else if reads[0].len() == 0 {
        empty + 1 < MAX_EMPTY_RETRIES && empty_runs_short(empty + 1, reads.drop_first())
    } else {
        empty_runs_short(0, reads.drop_first())
    }
}

/// Collects the answer to an app-protocol request from the HID reports that
/// the keyboard sends, with the read limits of the protocol.
pub struct AppResponseReader {
    /// The answer bytes gathered so far.
    pub data: Vec<u8>,
    /// Reads still allowed.
    pub retries_left: usize,
    /// Empty reads in a row.
    pub empty_count: usize,
}

impl AppResponseReader {
    /// A reader that has gathered nothing, with all reads left.
    pub fn new() -> (r: AppResponseReader)
        ensures
            r.data@ == Seq::<u8>::empty(),
            r.retries_left == MAX_READ_RETRIES,
            r.empty_count == 0,
    {
        AppResponseReader { data: Vec::new(), retries_left: MAX_READ_RETRIES, empty_count: 0 }
    }

    /// Takes one read from the allowance, or reports that none is left.
    pub fn start_read(&mut self) -> (r: Result<(), String>)
        ensures
            final(self).data == old(self).data,
            final(self).empty_count == old(self).empty_count,
            old(self).retries_left == 0 ==> (r matches Err(e) && e@ == "Max read retries exceeded"@
                && final(self).retries_left == 0),
            old(self).retries_left > 0 ==> (r is Ok
                && final(self).retries_left == old(self).retries_left - 1),
    {
        if self.retries_left == 0 {
            return Err(string_of("Max read retries exceeded"));
        }
        self.retries_left = self.retries_left - 1;
        Ok(())
    }

    /// Takes in the bytes of one read (empty where the read timed out).
    ///
    /// An empty read counts towards the empty-read limit; a report whose
    /// first byte is not the input report ID is skipped; otherwise its data
    /// bytes are gathered up to the end byte, which completes the answer.
    pub fn accept(&mut self, report: &[u8]) -> (r: ReadProgress)
        requires
            old(self).empty_count < MAX_EMPTY_RETRIES,
        ensures
            final(self).retries_left == old(self).retries_left,
            read_step(old(self).data@, old(self).empty_count as nat, report@) == (
                final(self).data@,
                final(self).empty_count as nat,
                match r {
                    ReadProgress::Pending => None,
                    ReadProgress::Complete => Some(true),
                    ReadProgress::Failed(_) => Some(false),
                },
            ),
            report@.len() == 0 ==> {
                &&& final(self).data == old(self).data
                &&& final(self).empty_count == old(self).empty_count + 1
                &&& if old(self).empty_count + 1 >= MAX_EMPTY_RETRIES {
                    r matches ReadProgress::Failed(e) && e@ == "No response data after retries"@
                } else {
                    r is Pending
                }
            },
            report@.len() > 0 && report@[0] != APP_INPUT_REPORT_ID ==> {
                &&& final(self).data == old(self).data
                &&& final(self).empty_count == 0
                &&& r is Pending
            },
            report@.len() > 0 && report@[0] == APP_INPUT_REPORT_ID ==> {
                let d = report@.drop_first();
                &&& final(self).empty_count == 0
                &&& if d.contains(END_BYTE) {
                    &&& final(self).data@ == old(self).data@ + d.take(first_index(d, END_BYTE))
                    &&& r is Complete
                } else {
                    &&& final(self).data@ == old(self).data@ + d
                    &&& r is Pending
                }
            },
    {
        if report.len() == 0 {
            self.empty_count = self.empty_count + 1;
            if self.empty_count >= MAX_EMPTY_RETRIES {
                return ReadProgress::Failed(string_of("No response data after retries"));
            }
            return ReadProgress::Pending;
        }
        self.empty_count = 0;
        if report[0] != APP_INPUT_REPORT_ID {
            return ReadProgress::Pending;
        }
        let d = copy_range(report, 1, report.len());
        assert(d@ =~= report@.drop_first());
        let ghost retries = self.retries_left;
        match find_byte(d.as_slice(), END_BYTE) {
            Some(end_pos) => {
                let mut i: usize = 0;
                let ghost before = self.data@;
                while i < end_pos
                    invariant
                        i <= end_pos < d@.len(),
                        self.data@ == before + d@.take(i as int),
                        self.retries_left == retries,
                        self.empty_count == 0,
                    decreases end_pos - i,
                {
                    self.data.push(d[i]);
                    i = i + 1;
                    assert(self.data@ =~= before + d@.take(i as int));
                }
                ReadProgress::Complete
            },
            None => {
                let mut i: usize = 0;
                let ghost before = self.data@;
                while i < d.len()
                    invariant
                        i <= d@.len(),
                        self.data@ == before + d@.take(i as int),
                        self.retries_left == retries,
                        self.empty_count == 0,
                    decreases d@.len() - i,
                {
                    self.data.push(d[i]);
                    i = i + 1;
                    assert(self.data@ =~= before + d@.take(i as int));
                }
                assert(d@.take(d@.len() as int) =~= d@);
                ReadProgress::Pending
            },
        }
    }
}

proof fn lemma_read_answer_prefix(t: Seq<u8>, data: Seq<u8>, retries: nat, empty: nat,
    reads: Seq<Seq<u8>>)
    requires
        !t.contains(END_BYTE),
        data.len() <= t.len(),
        data == t.take(data.len() as int),
        retries >= reads.len(),
        empty < MAX_EMPTY_RETRIES,
        empty_runs_short(empty, reads),
        (data + answer_data(reads)).len() > t.len(),
        (data + answer_data(reads))[t.len() as int] == END_BYTE,
        (data + answer_data(reads)).take(t.len() as int) == t,
    ensures
        read_answer(data, retries, empty, reads) == Some(Ok::<Seq<u8>, Seq<char>>(t)),
    decreases reads.len(),
{
    let combined = data + answer_data(reads);
    if reads.len() == 0 {
        assert(combined =~= data);
        return;
    }
    let x = reads[0];
    let rest = reads.drop_first();
    if x.len() == 0 || x[0] != APP_INPUT_REPORT_ID {
        assert(answer_data(reads) =~= answer_data(rest));
        let e: nat = if x.len() == 0 { empty + 1 } else { 0 };
        lemma_read_answer_prefix(t, data, (retries - 1) as nat, e, rest);
    } else {
        let d = x.drop_first();
        assert(answer_data(reads) == d + answer_data(rest));
        assert(combined =~= (data + d) + answer_data(rest));
        let m = t.len() - data.len();
        assert forall|j: int| 0 <= j < d.len() && data.len() + j < t.len() implies d[j] != END_BYTE by {
            assert(combined[data.len() + j] == d[j]);
            assert(combined.take(t.len() as int)[data.len() + j] == d[j]);
            assert(t[data.len() + j] == d[j]);
        }
        if d.contains(END_BYTE) {
            if m >= d.len() {
                let i = choose|i: int| 0 <= i < d.len() && d[i] == END_BYTE;
                assert(false);
            }
            assert(combined[t.len() as int] == d[m]);
            assert(first_at(d, END_BYTE, m));
            lemma_first_index(d, END_BYTE, m);
            assert(data + d.take(m) =~= combined.take(t.len() as int));
        } else {
            if m < d.len() {
                assert(combined[t.len() as int] == d[m]);
                assert(false);
            }
            let nd = data + d;
            assert(nd =~= combined.take(nd.len() as int));
            assert(nd =~= t.take(nd.len() as int));
            assert(nd + answer_data(rest) =~= combined);
            lemma_read_answer_prefix(t, nd, (retries - 1) as nat, 0, rest);
        }
    }
}

/// Read-back law of the app protocol: where the data of the answer reports
/// among the reads start with a text without the end byte and then the end
/// byte, the reads are no more than the reader allows and no four empty
/// reads come in a row, a fresh reader gives back the text. Reports of other
/// IDs may come in between, and what follows the end byte is ignored.
pub proof fn lemma_app_answer_read_back(t: Seq<u8>, reads: Seq<Seq<u8>>)
    requires
        !t.contains(END_BYTE),
        reads.len() <= MAX_READ_RETRIES,
        empty_runs_short(0, reads),
        answer_data(reads).len() > t.len(),
        answer_data(reads).take(t.len() + 1int) == t.push(END_BYTE),
    ensures
        read_answer(Seq::empty(), MAX_READ_RETRIES as nat, 0, reads) == Some(Ok::<Seq<u8>, Seq<char>>(t)),
{
    let a = answer_data(reads);
    assert(Seq::<u8>::empty() + a =~= a);
    assert(a[t.len() as int] == a.take(t.len() + 1int)[t.len() as int]);
    assert(a.take(t.len() as int) =~= a.take(t.len() + 1int).take(t.len() as int));
    assert(t.push(END_BYTE).take(t.len() as int) =~= t);
    assert(Seq::<u8>::empty() =~= t.take(0));
    lemma_read_answer_prefix(t, Seq::empty(), MAX_READ_RETRIES as nat, 0, reads);
}

/// Round-trip law of the app protocol: where the answer reports among the
/// reads carry the base64 text of the protobuf bytes `e` (non-empty text of
/// alphabet symbols that the engine reads as `e`) and then the end byte,
/// within the reads the reader allows and with no four empty reads in a
/// row, a fresh reader gathers that text, and it is the non-empty answer
/// whose printable bytes decode to `e`, which `decode_app_response` returns.
pub proof fn lemma_app_answer_round_trip(t: Seq<u8>, e: Seq<u8>, reads: Seq<Seq<u8>>)
    requires
        t.len() > 0,
        forall|i: int| 0 <= i < t.len() ==> is_base64_symbol(#[trigger] t[i]),
        base64_bytes(t) == Some(e),
        reads.len() <= MAX_READ_RETRIES,
        empty_runs_short(0, reads),
        answer_data(reads).len() > t.len(),
        answer_data(reads).take(t.len() + 1int) == t.push(END_BYTE),
    ensures
        read_answer(Seq::empty(), MAX_READ_RETRIES as nat, 0, reads) == Some(Ok::<Seq<u8>, Seq<char>>(t)),
        base64_bytes(printable_bytes(t)) == Some(e),
{
    assert(!t.contains(END_BYTE)) by {
        if t.contains(END_BYTE) {
            let i = choose|i: int| 0 <= i < t.len() && t[i] == END_BYTE;
            assert(is_base64_symbol(t[i]));
        }
    }
    assert forall|j: int| 0 <= j < t.len() implies is_printable_byte(#[trigger] t[j]) by {
        assert(is_base64_symbol(t[j]));
    }
    lemma_printable_identity(t);
    lemma_app_answer_read_back(t, reads);
}

/// A byte that survives the cleaning of an answer: neither a null byte nor
/// outside ASCII.
pub open spec fn is_printable_byte(b: u8) -> bool {
    0 < b && b < 128
}

/// The bytes of `s` that survive the cleaning of an answer, in order.
pub open spec fn printable_bytes(s: Seq<u8>) -> Seq<u8>
    decreases s.len(),
{
    if s.len() == 0 {
        Seq::empty()
    } else if is_printable_byte(s.last()) {
        printable_bytes(s.drop_last()).push(s.last())
    } else {
        printable_bytes(s.drop_last())
    }
}

/// Drops the null and non-ASCII bytes of `data`.
pub fn keep_printable(data: &[u8]) -> (r: Vec<u8>)
    ensures
        r@ == printable_bytes(data@),
{
    let mut r: Vec<u8> = Vec::new();
    let mut i: usize = 0;
    while i < data.len()
        invariant
            i <= data@.len(),
            r@ == printable_bytes(data@.take(i as int)),
        decreases data@.len() - i,
    {
        assert(data@.take(i + 1).drop_last() =~= data@.take(i as int));
        if data[i] > 0 && data[i] < 128 {
            r.push(data[i]);
        }
        i = i + 1;
    }
    assert(data@.take(data@.len() as int) =~= data@);
    r
}

/// The protobuf bytes of the answer gathered in `data`: its printable bytes
/// read as base64 text.
pub fn decode_app_response(data: &[u8]) -> (r: Result<Vec<u8>, String>)
    ensures
        data@.len() == 0 ==> (r matches Err(e) && e@ == "Empty response"@),
        data@.len() > 0 ==> match base64_bytes(printable_bytes(data@)) {
            Some(p) => r matches Ok(v) && v@ == p,
            None => r matches Err(e) && "Base64 decode failed: "@.is_prefix_of(e@),
        },
{
    if data.len() == 0 {
        return Err(string_of("Empty response"));
    }
    let clean = keep_printable(data);
    match base64_decode(clean.as_slice()) {
        Ok(v) => Ok(v),
        Err(detail) => {
            let mut e = string_of("Base64 decode failed: ");
            push_str(&mut e, detail.as_str());
            Err(e)
        },
    }
}

/// The data bytes of HID reports (each report without its report ID), joined
/// in order.
pub open spec fn reports_data(reports: Seq<Seq<u8>>) -> Seq<u8>
    decreases reports.len(),
{
    if reports.len() == 0 {
        Seq::empty()
    } else {
        reports_data(reports.drop_last()) + reports.last().drop_first()
    }
}

/// The text that a reader recovers from HID reports: their data bytes up to
/// the first end byte.
pub open spec fn recovered_text(reports: Seq<Seq<u8>>) -> Seq<u8> {
    let d = reports_data(reports);
    d.take(first_index(d, END_BYTE))
}

/// The reports that carry the text `t` and the end byte.
pub open spec fn app_text_reports(t: Seq<u8>) -> Seq<Seq<u8>> {
    let p = t.push(END_BYTE);
    Seq::new(piece_count(p.len(), 63), |k: int| app_report(piece(p, 63, k as nat)))
}

proof fn lemma_piece_bounds(n: int, c: int)
    by (nonlinear_arith)
    requires
        n > 0,
        c == (n + 63 - 1) / 63,
    ensures
        c * 63 >= n,
        c > 0,
        (c - 1) * 63 < n,
{
}

proof fn lemma_reports_data_prefix(t: Seq<u8>, m: nat)
    requires
        m <= piece_count(t.len() + 1, 63),
    ensures
        ({
            let p = t.push(END_BYTE);
            let c = piece_count(p.len(), 63);
            let d = reports_data(Seq::new(m, |k: int| app_report(piece(p, 63, k as nat))));
            if m < c {
                d == p.take((m * 63) as int)
            } else {
                d == p + Seq::new((c * 63 - p.len()) as nat, |i: int| 0u8)
            }
        }),
    decreases m,
{
    let p = t.push(END_BYTE);
    let n = p.len();
    let c = piece_count(n, 63);
    lemma_piece_bounds(n as int, c as int);
    let f = |k: int| app_report(piece(p, 63, k as nat));
    if m == 0 {
        assert(reports_data(Seq::new(0, f)) =~= p.take(0));
    } else {
        let mm = (m - 1) as nat;
        lemma_reports_data_prefix(t, mm);
        assert(Seq::new(m, f).drop_last() =~= Seq::new(mm, f));
        let prev = reports_data(Seq::new(mm, f));
        assert(prev == p.take((mm * 63) as int));
        assert(m * 63 == mm * 63 + 63) by (nonlinear_arith)
            requires
                m == mm + 1,
        ;
        assert(mm * 63 <= (c - 1) * 63) by (nonlinear_arith)
            requires
                mm <= c - 1,
        ;
        let chunk = piece(p, 63, mm);
        assert(app_report(chunk).drop_first() =~= chunk + Seq::new((63 - chunk.len()) as nat, |i: int| 0u8));
        if m < c {
            assert(m * 63 <= (c - 1) * 63) by (nonlinear_arith)
                requires
                    m <= c - 1,
            ;
            assert(chunk =~= p.subrange((mm * 63) as int, (m * 63) as int));
            assert(reports_data(Seq::new(m, f)) =~= p.take((m * 63) as int));
        } else {
            assert(chunk =~= p.subrange((mm * 63) as int, n as int));
            assert(reports_data(Seq::new(m, f)) =~= p + Seq::new((c * 63 - n) as nat, |i: int| 0u8));
        }
    }
}

/// Framing law of the app protocol: for a text without the end byte, the
/// reports that carry it, read as a reader does (data bytes joined and cut
/// at the first end byte), give the text back.
pub proof fn lemma_app_framing_recovers_text(t: Seq<u8>)
    requires
        !t.contains(END_BYTE),
    ensures
        recovered_text(app_text_reports(t)) == t,
{
    let p = t.push(END_BYTE);
    let c = piece_count(p.len(), 63);
    lemma_reports_data_prefix(t, c);
    let d = reports_data(app_text_reports(t));
    assert(d == p + Seq::new((c * 63 - p.len()) as nat, |i: int| 0u8));
    assert forall|j: int| 0 <= j < t.len() implies d[j] != END_BYTE by {
        assert(d[j] == t[j]);
        if t[j] == END_BYTE {
            assert(t.contains(END_BYTE));
        }
    }
    assert(first_at(d, END_BYTE, t.len() as int));
    lemma_first_index(d, END_BYTE, t.len() as int);
    assert(d.take(t.len() as int) =~= t);
}

} // verus!
