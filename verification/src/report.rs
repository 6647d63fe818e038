//! The reports that the command-line tasks print: firmware settings, device
//! detection and information, raw report dumps, and BLE information.

use vstd::prelude::*;
use crate::codec::{piece, piece_count, split_pieces};
use crate::proto::{AppSettings, GlobalSettings, ProfileSettings};
use crate::ble::BleDeviceInfo;
use crate::hid::{product_ids, unique_product_count, DeviceInfo};
use crate::proto::HeartBeatBattery;
use crate::text::{decimal, hex_digits, push_decimal, push_hex, push_signed_decimal, push_str,
    signed_decimal, string_of, Report, TextLines};

verus! {

/// Each byte of `s` as a space and two lower-case hexadecimal digits.
pub open spec fn spaced_hex(s: Seq<u8>) -> Seq<char>
    decreases s.len(),
{
    if s.len() == 0 {
        Seq::empty()
    } else {
        spaced_hex(s.drop_last()) + seq![' '] + hex_digits(s.last() as nat, 2, false)
    }
}

/// Appends each byte of `s` as a space and two hexadecimal digits.
pub fn push_spaced_hex(out: &mut String, s: &[u8])
    ensures
        final(out)@ == old(out)@ + spaced_hex(s@),
{
    let ghost start = out@;
    let mut i: usize = 0;
    while i < s.len()
        invariant
            i <= s@.len(),
            out@ == start + spaced_hex(s@.take(i as int)),
        decreases s@.len() - i,
    {
        assert(s@.take(i + 1).drop_last() =~= s@.take(i as int));
        crate::text::push_char(out, ' ');
        push_hex(out, s[i] as u64, 2, false);
        i = i + 1;
        assert(out@ =~= start + spaced_hex(s@.take(i as int)));
    }
    assert(s@.take(s@.len() as int) =~= s@);
}

/// A hex dump of `data`, 16 bytes per line: the first line starts with
/// `first`, the others with `rest`.
pub open spec fn hex_dump(first: Seq<char>, rest: Seq<char>, data: Seq<u8>) -> Seq<Seq<char>> {
    if data.len() == 0 {
        seq![first]
    } else {
        Seq::new(
            piece_count(data.len(), 16),
            |k: int| (if k == 0 { first } else { rest }) + spaced_hex(piece(data, 16, k as nat)),
        )
    }
}

/// The lines of a hex dump of `data`.
pub fn hex_dump_lines(first: &str, rest: &str, data: &[u8]) -> (r: TextLines)
    ensures
        r@ == hex_dump(first@, rest@, data@),
{
    let mut r = TextLines::new();
    if data.len() == 0 {
        r.push_text(first);
        assert(r@ =~= hex_dump(first@, rest@, data@));
        return r;
    }
    let pieces = split_pieces(data, 16);
    let mut k: usize = 0;
    while k < pieces.len()
        invariant
            k <= pieces@.len(),
            pieces@.len() == piece_count(data@.len(), 16),
            forall|j: int| 0 <= j < pieces@.len() ==> (#[trigger] pieces@[j])@ == piece(data@, 16, j as nat),
            r@ == hex_dump(first@, rest@, data@).take(k as int),
            data@.len() > 0,
        decreases pieces@.len() - k,
    {
        let mut line = if k == 0 { string_of(first) } else { string_of(rest) };
        push_spaced_hex(&mut line, pieces[k].as_slice());
        r.push(line);
        k = k + 1;
        assert(r@ =~= hex_dump(first@, rest@, data@).take(k as int));
    }
    assert(hex_dump(first@, rest@, data@).take(k as int) =~= hex_dump(first@, rest@, data@));
    r
}

/// "ON" or "OFF".
pub open spec fn on_off(v: bool) -> Seq<char> {
    if v { "ON"@ } else { "OFF"@ }
}

/// "YES" or "NO".
pub open spec fn yes_no(v: bool) -> Seq<char> {
    if v { "YES"@ } else { "NO"@ }
}

/// A line for a boolean setting, where it is set.
pub open spec fn flag_line(label: Seq<char>, o: Option<bool>, yes: Seq<char>, no: Seq<char>) -> Seq<Seq<char>> {
    match o {
        Some(v) => seq![label + if v { yes } else { no }],
        None => Seq::empty(),
    }
}

fn push_flag(lines: &mut TextLines, label: &str, o: Option<bool>, yes: &str, no: &str)
    ensures
        final(lines)@ == old(lines)@ + flag_line(label@, o, yes@, no@),
{
    if let Some(v) = o {
        let mut t = string_of(label);
        push_str(&mut t, if v { yes } else { no });
        lines.push(t);
    }
    assert(lines@ =~= old(lines)@ + flag_line(label@, o, yes@, no@));
}

/// The lines that describe global settings.
pub open spec fn global_lines(g: GlobalSettings) -> Seq<Seq<char>> {
    seq!["Global Settings:"@]
        + match g.current_ai_level {
            Some(l) => seq!["  AI Sensitivity:    "@ + decimal(l as nat) + "/9"@],
            None => Seq::empty(),
        }
        + flag_line("  1-finger tap:      "@, g.tap1f_enable, "ON"@, "OFF"@)
        + flag_line("  2-finger tap:      "@, g.tap2f_enable, "ON"@, "OFF"@)
        + flag_line("  Hold gesture:      "@, g.hold_enable, "ON"@, "OFF"@)
        + flag_line("  Swap clicks:       "@, g.swap_click_buttons, "YES"@, "NO"@)
        + flag_line("  Fn Lock:           "@, g.fn_lock, "ON"@, "OFF"@)
        + match g.dominant_hand {
            Some(v) => seq!["  Dominant hand:     "@ + if v == 0 { "Right"@ } else { "Left"@ }],
            None => Seq::empty(),
        }
        + flag_line("  Swap Fn/Ctrl:      "@, g.swap_fn_ctrl, "YES"@, "NO"@)
        + flag_line("  Auto brightness:   "@, g.auto_brightness_enable, "ON"@, "OFF"@)
        + flag_line("  Battery saving:    "@, g.battery_saving_mode_enable, "ON"@, "OFF"@)
}

/// The slider lines of a profile.
pub open spec fn slider_lines(p: ProfileSettings) -> Seq<Seq<char>> {
    match p.touch_zone {
        Some(tz) => match tz.slider {
            Some(sl) => (match sl.left {
                Some(l) => seq!["  Left slider:       sensitivity="@ + decimal(
                    match l.sensitivity { Some(v) => v as nat, None => 0 },
                )],
                None => Seq::empty(),
            }) + (match sl.right {
                Some(r) => seq!["  Right slider:      sensitivity="@ + decimal(
                    match r.sensitivity { Some(v) => v as nat, None => 0 },
                )],
                None => Seq::empty(),
            }),
            None => Seq::empty(),
        },
        None => Seq::empty(),
    }
}

/// The lines that describe the global profile.
pub open spec fn profile_lines(p: ProfileSettings) -> Seq<Seq<char>> {
    seq![""@, "Global Profile (id="@ + decimal(p.id as nat) + "):"@] + slider_lines(p)
}

/// The report of the keyboard's settings.
pub open spec fn settings_text(s: AppSettings) -> Seq<Seq<char>> {
    seq!["Keyboard Settings (from firmware)"@, "=================================="@, ""@]
        + match s.global { Some(g) => global_lines(g), None => Seq::empty() }
        + match s.global_profile { Some(p) => profile_lines(p), None => Seq::empty() }
}

fn global_report(g: &GlobalSettings) -> (r: TextLines)
    ensures
        r@ == global_lines(*g),
{
    let mut r = TextLines::new();
    r.push_text("Global Settings:");
    if let Some(level) = g.current_ai_level {
        let mut t = string_of("  AI Sensitivity:    ");
        push_decimal(&mut t, level as u64);
        push_str(&mut t, "/9");
        r.push(t);
    }
    push_flag(&mut r, "  1-finger tap:      ", g.tap1f_enable, "ON", "OFF");
    push_flag(&mut r, "  2-finger tap:      ", g.tap2f_enable, "ON", "OFF");
    push_flag(&mut r, "  Hold gesture:      ", g.hold_enable, "ON", "OFF");
    push_flag(&mut r, "  Swap clicks:       ", g.swap_click_buttons, "YES", "NO");
    push_flag(&mut r, "  Fn Lock:           ", g.fn_lock, "ON", "OFF");
    let ghost before_hand = r@;
    if let Some(v) = g.dominant_hand {
        let mut t = string_of("  Dominant hand:     ");
        push_str(&mut t, if v == 0 { "Right" } else { "Left" });
        r.push(t);
    }
    assert(r@ =~= before_hand + match g.dominant_hand {
        Some(v) => seq!["  Dominant hand:     "@ + if v == 0 { "Right"@ } else { "Left"@ }],
        None => Seq::<Seq<char>>::empty(),
    });
    push_flag(&mut r, "  Swap Fn/Ctrl:      ", g.swap_fn_ctrl, "YES", "NO");
    push_flag(&mut r, "  Auto brightness:   ", g.auto_brightness_enable, "ON", "OFF");
    push_flag(&mut r, "  Battery saving:    ", g.battery_saving_mode_enable, "ON", "OFF");
    assert(r@ =~= global_lines(*g));
    r
}

fn sensitivity_line(label: &str, s: Option<u32>) -> (t: String)
    ensures
        t@ == label@ + decimal(match s { Some(v) => v as nat, None => 0 }),
{
    let mut t = string_of(label);
    let v: u32 = match s { Some(v) => v, None => 0 };
    push_decimal(&mut t, v as u64);
    t
}

fn profile_report(p: &ProfileSettings) -> (r: TextLines)
    ensures
        r@ == profile_lines(*p),
{
    let mut r = TextLines::new();
    r.push_blank();
    let mut title = string_of("Global Profile (id=");
    push_decimal(&mut title, p.id as u64);
    push_str(&mut title, "):");
    r.push(title);
    let ghost head = r@;
    assert(head =~= seq![""@, "Global Profile (id="@ + decimal(p.id as nat) + "):"@]);
    if let Some(tz) = &p.touch_zone {
        if let Some(slider) = &tz.slider {
            let ghost l0 = r@;
            if let Some(left) = &slider.left {
                r.push(sensitivity_line("  Left slider:       sensitivity=", left.sensitivity));
            }
            let ghost l1 = r@;
            assert(l1 =~= l0 + match slider.left {
                Some(l) => seq!["  Left slider:       sensitivity="@ + decimal(
                    match l.sensitivity { Some(v) => v as nat, None => 0 },
                )],
                None => Seq::<Seq<char>>::empty(),
            });
            if let Some(right) = &slider.right {
                r.push(sensitivity_line("  Right slider:      sensitivity=", right.sensitivity));
            }
            assert(r@ =~= l1 + match slider.right {
                Some(rr) => seq!["  Right slider:      sensitivity="@ + decimal(
                    match rr.sensitivity { Some(v) => v as nat, None => 0 },
                )],
                None => Seq::<Seq<char>>::empty(),
            });
        }
    }
    assert(r@ =~= head + slider_lines(*p));
    assert(r@ =~= profile_lines(*p));
    r
}

proof fn lemma_contains_concat(a: Seq<Seq<char>>, b: Seq<Seq<char>>, x: Seq<char>)
    ensures
        a.contains(x) ==> (a + b).contains(x),
        b.contains(x) ==> (a + b).contains(x),
{
    if a.contains(x) {
        let i = choose|i: int| 0 <= i < a.len() && a[i] == x;
        assert((a + b)[i] == x);
    }
    if b.contains(x) {
        let i = choose|i: int| 0 <= i < b.len() && b[i] == x;
        assert((a + b)[a.len() + i] == x);
    }
}

proof fn lemma_flag_in_line(label: Seq<char>, v: bool, yes: Seq<char>, no: Seq<char>)
    ensures
        flag_line(label, Some(v), yes, no).contains(label + if v { yes } else { no }),
{
    assert(flag_line(label, Some(v), yes, no)[0] == label + if v { yes } else { no });
}

/// Settings report law: each global setting that the keyboard reports
/// appears in the report as a line with its label and its value: the AI
/// level as "n/9"; the taps, hold gesture, Fn Lock, auto brightness and
/// battery saving as "ON" exactly when enabled, else "OFF"; the click and
/// Fn/Ctrl swaps as "YES" or "NO"; the dominant hand as "Right" for 0,
/// else "Left".
pub proof fn lemma_settings_report_shows_values(s: AppSettings, g: GlobalSettings)
    requires
        s.global == Some(g),
    ensures
        g.current_ai_level matches Some(l)
            ==> settings_text(s).contains("  AI Sensitivity:    "@ + decimal(l as nat) + "/9"@),
        g.tap1f_enable matches Some(v)
            ==> settings_text(s).contains("  1-finger tap:      "@ + if v { "ON"@ } else { "OFF"@ }),
        g.tap2f_enable matches Some(v)
            ==> settings_text(s).contains("  2-finger tap:      "@ + if v { "ON"@ } else { "OFF"@ }),
        g.hold_enable matches Some(v)
            ==> settings_text(s).contains("  Hold gesture:      "@ + if v { "ON"@ } else { "OFF"@ }),
        g.swap_click_buttons matches Some(v)
            ==> settings_text(s).contains("  Swap clicks:       "@ + if v { "YES"@ } else { "NO"@ }),
        g.fn_lock matches Some(v)
            ==> settings_text(s).contains("  Fn Lock:           "@ + if v { "ON"@ } else { "OFF"@ }),
        g.dominant_hand matches Some(h)
            ==> settings_text(s).contains("  Dominant hand:     "@ + if h == 0 { "Right"@ } else { "Left"@ }),
        g.swap_fn_ctrl matches Some(v)
            ==> settings_text(s).contains("  Swap Fn/Ctrl:      "@ + if v { "YES"@ } else { "NO"@ }),
        g.auto_brightness_enable matches Some(v)
            ==> settings_text(s).contains("  Auto brightness:   "@ + if v { "ON"@ } else { "OFF"@ }),
        g.battery_saving_mode_enable matches Some(v)
            ==> settings_text(s).contains("  Battery saving:    "@ + if v { "ON"@ } else { "OFF"@ }),
{
    let p0 = seq!["Global Settings:"@];
    let ai = match g.current_ai_level {
        Some(l) => seq!["  AI Sensitivity:    "@ + decimal(l as nat) + "/9"@],
        None => Seq::<Seq<char>>::empty(),
    };
    let f1 = flag_line("  1-finger tap:      "@, g.tap1f_enable, "ON"@, "OFF"@);
    let f2 = flag_line("  2-finger tap:      "@, g.tap2f_enable, "ON"@, "OFF"@);
    let f3 = flag_line("  Hold gesture:      "@, g.hold_enable, "ON"@, "OFF"@);
    let f4 = flag_line("  Swap clicks:       "@, g.swap_click_buttons, "YES"@, "NO"@);
    let f5 = flag_line("  Fn Lock:           "@, g.fn_lock, "ON"@, "OFF"@);
    let hand = match g.dominant_hand {
        Some(v) => seq!["  Dominant hand:     "@ + if v == 0 { "Right"@ } else { "Left"@ }],
        None => Seq::<Seq<char>>::empty(),
    };
    let f6 = flag_line("  Swap Fn/Ctrl:      "@, g.swap_fn_ctrl, "YES"@, "NO"@);
    let f7 = flag_line("  Auto brightness:   "@, g.auto_brightness_enable, "ON"@, "OFF"@);
    let f8 = flag_line("  Battery saving:    "@, g.battery_saving_mode_enable, "ON"@, "OFF"@);
    let head = seq!["Keyboard Settings (from firmware)"@, "=================================="@, ""@];
    let tail = match s.global_profile { Some(p) => profile_lines(p), None => Seq::<Seq<char>>::empty() };
    // Each part is a block of the report.
    let gl = global_lines(g);
    assert(gl == p0 + ai + f1 + f2 + f3 + f4 + f5 + hand + f6 + f7 + f8);
    assert(settings_text(s) == head + gl + tail);
    assert forall|x: Seq<char>| ai.contains(x) || f1.contains(x) || f2.contains(x) || f3.contains(x)
        || f4.contains(x) || f5.contains(x) || hand.contains(x) || f6.contains(x) || f7.contains(x)
        || f8.contains(x) implies #[trigger] settings_text(s).contains(x) by {
        lemma_contains_concat(p0, ai, x);
        lemma_contains_concat(p0 + ai, f1, x);
        lemma_contains_concat(p0 + ai + f1, f2, x);
        lemma_contains_concat(p0 + ai + f1 + f2, f3, x);
        lemma_contains_concat(p0 + ai + f1 + f2 + f3, f4, x);
        lemma_contains_concat(p0 + ai + f1 + f2 + f3 + f4, f5, x);
        lemma_contains_concat(p0 + ai + f1 + f2 + f3 + f4 + f5, hand, x);
        lemma_contains_concat(p0 + ai + f1 + f2 + f3 + f4 + f5 + hand, f6, x);
        lemma_contains_concat(p0 + ai + f1 + f2 + f3 + f4 + f5 + hand + f6, f7, x);
        lemma_contains_concat(p0 + ai + f1 + f2 + f3 + f4 + f5 + hand + f6 + f7, f8, x);
        lemma_contains_concat(head, gl, x);
        lemma_contains_concat(head + gl, tail, x);
    }
    if let Some(l) = g.current_ai_level {
        assert(ai[0] == "  AI Sensitivity:    "@ + decimal(l as nat) + "/9"@);
    }
    if let Some(v) = g.tap1f_enable { lemma_flag_in_line("  1-finger tap:      "@, v, "ON"@, "OFF"@); }
    if let Some(v) = g.tap2f_enable { lemma_flag_in_line("  2-finger tap:      "@, v, "ON"@, "OFF"@); }
    if let Some(v) = g.hold_enable { lemma_flag_in_line("  Hold gesture:      "@, v, "ON"@, "OFF"@); }
    if let Some(v) = g.swap_click_buttons { lemma_flag_in_line("  Swap clicks:       "@, v, "YES"@, "NO"@); }
    if let Some(v) = g.fn_lock { lemma_flag_in_line("  Fn Lock:           "@, v, "ON"@, "OFF"@); }
    if let Some(h) = g.dominant_hand {
        assert(hand[0] == "  Dominant hand:     "@ + if h == 0 { "Right"@ } else { "Left"@ });
    }
    if let Some(v) = g.swap_fn_ctrl { lemma_flag_in_line("  Swap Fn/Ctrl:      "@, v, "YES"@, "NO"@); }
    if let Some(v) = g.auto_brightness_enable { lemma_flag_in_line("  Auto brightness:   "@, v, "ON"@, "OFF"@); }
    if let Some(v) = g.battery_saving_mode_enable {
        lemma_flag_in_line("  Battery saving:    "@, v, "ON"@, "OFF"@);
    }
}

/// The report of reading the keyboard's settings: the settings, or the error.
pub fn settings_report(result: &Result<AppSettings, String>) -> (r: Report)
    ensures
        match result {
            Ok(s) => r.out@ == settings_text(*s) && r.err@ == Seq::<Seq<char>>::empty(),
            Err(e) => r.out@ == Seq::<Seq<char>>::empty()
                && r.err@ == seq!["Failed to get settings: "@ + e@],
        },
{
    let mut out = TextLines::new();
    let mut err = TextLines::new();
    match result {
        Ok(settings) => {
            out.push_text("Keyboard Settings (from firmware)");
            out.push_text("==================================");
            out.push_blank();
            let ghost head = out@;
            assert(head =~= seq!["Keyboard Settings (from firmware)"@, "=================================="@, ""@]);
            if let Some(global) = &settings.global {
                let g = global_report(global);
                out.append(&g);
            }
            let ghost mid = out@;
            assert(mid =~= head + match settings.global { Some(g) => global_lines(g), None => Seq::<Seq<char>>::empty() });
            if let Some(profile) = &settings.global_profile {
                let p = profile_report(profile);
                out.append(&p);
            }
            assert(out@ =~= mid + match settings.global_profile { Some(p) => profile_lines(p), None => Seq::<Seq<char>>::empty() });
            assert(out@ =~= settings_text(*settings));
        },
        Err(e) => {
            let mut t = string_of("Failed to get settings: ");
            push_str(&mut t, e.as_str());
            err.push(t);
        },
    }
    Report { out, err }
}

/// The lines that describe one HID interface.
pub open spec fn device_lines(d: DeviceInfo) -> Seq<Seq<char>> {
    seq![
        "  "@ + d.product_name@ + " (VID: "@ + hex_digits(d.vendor_id as nat, 4, false) + ", PID: "@
            + hex_digits(d.product_id as nat, 4, false) + ")"@,
        "    Serial:    "@ + d.serial@,
        "    Interface: "@ + signed_decimal(d.interface_number as int),
        "    Path:      "@ + d.path@,
        "    Usage:     page=0x"@ + hex_digits(d.usage_page as nat, 4, false) + " usage=0x"@
            + hex_digits(d.usage as nat, 4, false),
        ""@,
    ]
}

/// The lines that describe each interface of `devices`, in order.
pub open spec fn devices_lines(devices: Seq<DeviceInfo>) -> Seq<Seq<char>>
    decreases devices.len(),
{
    if devices.len() == 0 {
        Seq::empty()
    } else {
        devices_lines(devices.drop_last()) + device_lines(devices.last())
    }
}

/// What the detection report says where no interface was found.
pub open spec fn troubleshooting_text() -> Seq<Seq<char>> {
    seq![
        "No Clevetura devices found."@,
        ""@,
        "Troubleshooting:"@,
        "  1. Ensure the keyboard is connected via USB"@,
        "  2. Check that udev rules are installed:"@,
        "     sudo cp resources/99-clevetura.rules /etc/udev/rules.d/"@,
        "     sudo udevadm control --reload-rules"@,
        "     sudo udevadm trigger"@,
        "  3. Reconnect the keyboard"@,
    ]
}

/// The header of the detection report.
pub open spec fn detection_header() -> Seq<Seq<char>> {
    seq!["Clevetura Device Detection Report"@, "=================================="@, ""@]
}

fn describe_device(d: &DeviceInfo) -> (r: TextLines)
    ensures
        r@ == device_lines(*d),
{
    let mut r = TextLines::new();
    let mut l1 = string_of("  ");
    push_str(&mut l1, d.product_name.as_str());
    push_str(&mut l1, " (VID: ");
    push_hex(&mut l1, d.vendor_id as u64, 4, false);
    push_str(&mut l1, ", PID: ");
    push_hex(&mut l1, d.product_id as u64, 4, false);
    push_str(&mut l1, ")");
    r.push(l1);
    let mut l2 = string_of("    Serial:    ");
    push_str(&mut l2, d.serial.as_str());
    r.push(l2);
    let mut l3 = string_of("    Interface: ");
    push_signed_decimal(&mut l3, d.interface_number as i64);
    r.push(l3);
    let mut l4 = string_of("    Path:      ");
    push_str(&mut l4, d.path.as_str());
    r.push(l4);
    let mut l5 = string_of("    Usage:     page=0x");
    push_hex(&mut l5, d.usage_page as u64, 4, false);
    push_str(&mut l5, " usage=0x");
    push_hex(&mut l5, d.usage as u64, 4, false);
    r.push(l5);
    r.push_blank();
    assert(r@ =~= device_lines(*d));
    r
}

/// The detection report for the result of enumerating the interfaces.
pub fn detection_report(result: &Result<Vec<DeviceInfo>, String>) -> (r: Report)
    ensures
        match result {
            Ok(devices) => r.err@ == Seq::<Seq<char>>::empty() && r.out@ == detection_header() + if devices@.len() == 0 {
                troubleshooting_text()
            } else {
                seq![
                    "Found "@ + decimal(product_ids(devices@).to_set().len()) + " device(s) with "@
                        + decimal(devices@.len()) + " HID interface(s):"@,
                    ""@,
                ] + devices_lines(devices@)
            },
            Err(e) => r.out@ == detection_header() && r.err@ == seq!["Error enumerating HID devices: "@ + e@],
        },
{
    let mut out = TextLines::new();
    let mut err = TextLines::new();
    out.push_text("Clevetura Device Detection Report");
    out.push_text("==================================");
    out.push_blank();
    let ghost head = out@;
    assert(head =~= detection_header());
    match result {
        Ok(devices) => {
            if devices.len() == 0 {
                out.push_text("No Clevetura devices found.");
                out.push_blank();
                out.push_text("Troubleshooting:");
                out.push_text("  1. Ensure the keyboard is connected via USB");
                out.push_text("  2. Check that udev rules are installed:");
                out.push_text("     sudo cp resources/99-clevetura.rules /etc/udev/rules.d/");
                out.push_text("     sudo udevadm control --reload-rules");
                out.push_text("     sudo udevadm trigger");
                out.push_text("  3. Reconnect the keyboard");
                assert(out@ =~= head + troubleshooting_text());
            } else {
                let unique = unique_product_count(devices);
                let mut found = string_of("Found ");
                push_decimal(&mut found, unique as u64);
                push_str(&mut found, " device(s) with ");
                push_decimal(&mut found, devices.len() as u64);
                push_str(&mut found, " HID interface(s):");
                out.push(found);
                out.push_blank();
                let ghost intro = out@;
                let mut i: usize = 0;
                while i < devices.len()
                    invariant
                        i <= devices@.len(),
                        out@ == intro + devices_lines(devices@.take(i as int)),
                    decreases devices@.len() - i,
                {
                    assert(devices@.take(i + 1).drop_last() =~= devices@.take(i as int));
                    let d = describe_device(&devices[i]);
                    out.append(&d);
                    i = i + 1;
                    assert(out@ =~= intro + devices_lines(devices@.take(i as int)));
                }
                assert(devices@.take(devices@.len() as int) =~= devices@);
                assert(out@ =~= head + seq![
                    "Found "@ + decimal(product_ids(devices@).to_set().len()) + " device(s) with "@
                        + decimal(devices@.len()) + " HID interface(s):"@,
                    ""@,
                ] + devices_lines(devices@));
            }
        },
        Err(e) => {
            let mut t = string_of("Error enumerating HID devices: ");
            push_str(&mut t, e.as_str());
            err.push(t);
        },
    }
    Report { out, err }
}

/// A line with a label and a text value, or the error in its place.
pub open spec fn value_line(label: Seq<char>, r: Result<String, String>) -> Seq<char> {
    label + match r {
        Ok(v) => v@,
        Err(e) => "(error: "@ + e@ + ")"@,
    }
}

fn value_text(label: &str, r: &Result<String, String>) -> (t: String)
    ensures
        t@ == value_line(label@, *r),
{
    let mut t = string_of(label);
    match r {
        Ok(v) => push_str(&mut t, v.as_str()),
        Err(e) => {
            push_str(&mut t, "(error: ");
            push_str(&mut t, e.as_str());
            push_str(&mut t, ")");
        },
    }
    t
}

/// What the information queries of an open keyboard answered, in the order
/// they are made.
pub struct DeviceInfoReads {
    pub authorize: Result<(), String>,
    pub firmware_version: Result<String, String>,
    pub protocol_version: Result<String, String>,
    pub serial_number: Result<String, String>,
    pub battery: Result<i8, String>,
    pub raw_info: Result<Vec<u8>, String>,
}

/// The device information report.
pub open spec fn device_info_text(d: DeviceInfoReads) -> Seq<Seq<char>> {
    seq![
        "Clevetura Device Info"@,
        "====================="@,
        ""@,
        "Authorization:     "@ + match d.authorize {
            Ok(()) => "OK"@,
            Err(e) => "(error: "@ + e@ + ")"@,
        },
        value_line("Firmware version:  "@, d.firmware_version),
        value_line("Protocol version:  "@, d.protocol_version),
        value_line("Serial number:     "@, d.serial_number),
        "Battery level:     "@ + match d.battery {
            Ok(b) => signed_decimal(b as int) + "%"@,
            Err(e) => "(error: "@ + e@ + ")"@,
        },
        ""@,
    ] + match d.raw_info {
        Ok(data) => seq!["Raw device info ("@ + decimal(data@.len()) + " bytes):"@] + hex_dump(""@, ""@, data@),
        Err(e) => seq!["Device info:       (error: "@ + e@ + ")"@],
    }
}

/// The device information report for what the queries answered.
pub fn device_info_report(d: &DeviceInfoReads) -> (r: TextLines)
    ensures
        r@ == device_info_text(*d),
{
    let mut r = TextLines::new();
    r.push_text("Clevetura Device Info");
    r.push_text("=====================");
    r.push_blank();
    let mut auth = string_of("Authorization:     ");
    match &d.authorize {
        Ok(()) => push_str(&mut auth, "OK"),
        Err(e) => {
            push_str(&mut auth, "(error: ");
            push_str(&mut auth, e.as_str());
            push_str(&mut auth, ")");
        },
    }
    assert(auth@ == "Authorization:     "@ + match d.authorize {
        Ok(()) => "OK"@,
        Err(e) => "(error: "@ + e@ + ")"@,
    });
    let ghost h0 = r@;
    r.push(auth);
    r.push(value_text("Firmware version:  ", &d.firmware_version));
    r.push(value_text("Protocol version:  ", &d.protocol_version));
    r.push(value_text("Serial number:     ", &d.serial_number));
    let mut batt = string_of("Battery level:     ");
    match &d.battery {
        Ok(b) => {
            push_signed_decimal(&mut batt, *b as i64);
            push_str(&mut batt, "%");
        },
        Err(e) => {
            push_str(&mut batt, "(error: ");
            push_str(&mut batt, e.as_str());
            push_str(&mut batt, ")");
        },
    }
    assert(batt@ == "Battery level:     "@ + match d.battery {
        Ok(b) => signed_decimal(b as int) + "%"@,
        Err(e) => "(error: "@ + e@ + ")"@,
    });
    r.push(batt);
    r.push_blank();
    let ghost head = r@;
    assert(h0 =~= seq!["Clevetura Device Info"@, "====================="@, ""@]);
    assert(head =~= seq![
        "Clevetura Device Info"@,
        "====================="@,
        ""@,
        "Authorization:     "@ + match d.authorize {
            Ok(()) => "OK"@,
            Err(e) => "(error: "@ + e@ + ")"@,
        },
        value_line("Firmware version:  "@, d.firmware_version),
        value_line("Protocol version:  "@, d.protocol_version),
        value_line("Serial number:     "@, d.serial_number),
        "Battery level:     "@ + match d.battery {
            Ok(b) => signed_decimal(b as int) + "%"@,
            Err(e) => "(error: "@ + e@ + ")"@,
        },
        ""@,
    ]);
    match &d.raw_info {
        Ok(data) => {
            let mut t = string_of("Raw device info (");
            push_decimal(&mut t, data.len() as u64);
            push_str(&mut t, " bytes):");
            r.push(t);
            let dump = hex_dump_lines("", "", data.as_slice());
            r.append(&dump);
        },
        Err(e) => {
            let mut t = string_of("Device info:       (error: ");
            push_str(&mut t, e.as_str());
            push_str(&mut t, ")");
            r.push(t);
        },
    }
    assert(r@ =~= device_info_text(*d));
    r
}

/// The lines for one feature report found by a probe: its ID and length,
/// the dump, and an empty line.
pub open spec fn feature_report_text(id: u8, data: Seq<u8>) -> Seq<Seq<char>> {
    seq!["Report 0x"@ + hex_digits(id as nat, 2, false) + " ("@ + decimal(data.len()) + " bytes):"@]
        + hex_dump(""@, ""@, data) + seq![""@]
}

/// The lines for the feature reports of one interface, in order.
pub open spec fn feature_reports_text(reports: Seq<(u8, Seq<u8>)>) -> Seq<Seq<char>>
    decreases reports.len(),
{
    if reports.len() == 0 {
        Seq::empty()
    } else {
        feature_reports_text(reports.drop_last()) + feature_report_text(reports.last().0, reports.last().1)
    }
}

/// The probe report of interface `iface`: the name and number of the
/// interface that opened and the feature reports found on it, or why it
/// could not be opened.
pub open spec fn probe_text(iface: i32, opened: Result<(Seq<char>, i32), Seq<char>>,
    reports: Seq<(u8, Seq<u8>)>) -> Seq<Seq<char>> {
    seq!["=== Interface "@ + signed_decimal(iface as int) + " ==="@] + match opened {
        Ok((name, number)) => seq!["Connected to "@ + name + " (interface "@ + signed_decimal(number as int) + ")"@, ""@]
            + feature_reports_text(reports)
            + if reports.len() == 0 {
                seq!["No feature reports found on this interface."@, ""@]
            } else {
                Seq::empty()
            },
        Err(e) => seq!["Could not open: "@ + e, ""@],
    }
}

/// The probe report of interface `iface`.
pub fn probe_report(iface: i32, opened: &Result<(String, i32), String>, reports: &Vec<(u8, Vec<u8>)>)
    -> (r: TextLines)
    ensures
        r@ == probe_text(
            iface,
            match opened { Ok((n, k)) => Ok((n@, *k)), Err(e) => Err(e@) },
            reports@.map_values(|p: (u8, Vec<u8>)| (p.0, p.1@)),
        ),
{
    let ghost rv = reports@.map_values(|p: (u8, Vec<u8>)| (p.0, p.1@));
    let mut r = TextLines::new();
    let mut title = string_of("=== Interface ");
    push_signed_decimal(&mut title, iface as i64);
    push_str(&mut title, " ===");
    r.push(title);
    let ghost head = r@;
    match opened {
        Ok((name, number)) => {
            let mut t = string_of("Connected to ");
            push_str(&mut t, name.as_str());
            push_str(&mut t, " (interface ");
            push_signed_decimal(&mut t, *number as i64);
            push_str(&mut t, ")");
            r.push(t);
            r.push_blank();
            let ghost intro = r@;
            let mut i: usize = 0;
            while i < reports.len()
                invariant
                    i <= reports@.len(),
                    rv == reports@.map_values(|p: (u8, Vec<u8>)| (p.0, p.1@)),
                    r@ == intro + feature_reports_text(rv.take(i as int)),
                decreases reports@.len() - i,
            {
                assert(rv.take(i + 1).drop_last() =~= rv.take(i as int));
                let (id, data) = &reports[i];
                let mut t = string_of("Report 0x");
                push_hex(&mut t, *id as u64, 2, false);
                push_str(&mut t, " (");
                push_decimal(&mut t, data.len() as u64);
                push_str(&mut t, " bytes):");
                let ghost before = r@;
                r.push(t);
                let dump = hex_dump_lines("", "", data.as_slice());
                r.append(&dump);
                r.push_blank();
                assert(r@ =~= before + feature_report_text(*id, data@));
                i = i + 1;
                assert(r@ =~= intro + feature_reports_text(rv.take(i as int)));
            }
            assert(rv.take(reports@.len() as int) =~= rv);
            let ghost listed = r@;
            if reports.len() == 0 {
                r.push_text("No feature reports found on this interface.");
                r.push_blank();
            }
            assert(r@ =~= listed + if rv.len() == 0 {
                seq!["No feature reports found on this interface."@, ""@]
            } else {
                Seq::<Seq<char>>::empty()
            });
        },
        Err(e) => {
            let mut t = string_of("Could not open: ");
            push_str(&mut t, e.as_str());
            r.push(t);
            r.push_blank();
        },
    }
    assert(r@ =~= probe_text(
        iface,
        match opened { Ok((n, k)) => Ok((n@, *k)), Err(e) => Err(e@) },
        rv,
    ));
    r
}

/// The changes between the last and the new contents of a watched report:
/// for each differing position, its index and both bytes.
pub open spec fn changes_text(last: Seq<u8>, data: Seq<u8>) -> Seq<char>
    decreases data.len(),
{
    if data.len() == 0 {
        Seq::empty()
    } else {
        let i = data.len() - 1;
        changes_text(last, data.drop_last()) + if data[i] != last[i] {
            " ["@ + decimal(i as nat) + "]: "@ + hex_digits(last[i] as nat, 2, false) + "->"@
                + hex_digits(data[i] as nat, 2, false)
        } else {
            Seq::empty()
        }
    }
}

/// Watches the contents of a feature report, reporting each change.
pub struct ReportWatch {
    /// The contents seen last (256 bytes; zero before the first read).
    pub last: Vec<u8>,
    /// No contents have been seen yet.
    pub first: bool,
}

/// What the watch prints for new contents `data`: nothing where they equal
/// the last ones (after the first read); otherwise the changes (after the
/// first read), the dump, and an empty line.
pub open spec fn watch_text(last: Seq<u8>, first: bool, data: Seq<u8>) -> Seq<Seq<char>> {
    if !first && data == last.take(data.len() as int) {
        Seq::empty()
    } else {
        (if first { Seq::empty() } else { seq!["Changed bytes:"@ + changes_text(last, data)] })
            + hex_dump("0xDB:"@, "     "@, data) + seq![""@]
    }
}

impl ReportWatch {
    /// A watch that has seen nothing.
    pub fn new() -> (r: ReportWatch)
        ensures
            r.first,
            r.last@ == Seq::new(256, |i: int| 0u8),
    {
        let mut last: Vec<u8> = Vec::new();
        while last.len() < 256
            invariant
                last@.len() <= 256,
                last@ =~= Seq::new(last@.len(), |i: int| 0u8),
            decreases 256 - last@.len(),
        {
            last.push(0);
        }
        ReportWatch { last, first: true }
    }

    /// Takes in new contents of the report; the lines to print are returned.
    pub fn observe(&mut self, data: &[u8]) -> (r: TextLines)
        requires
            data@.len() <= old(self).last@.len(),
        ensures
            r@ == watch_text(old(self).last@, old(self).first, data@),
            !final(self).first,
            final(self).last@ == data@ + old(self).last@.skip(data@.len() as int),
    {
        let n = data.len();
        let mut same = true;
        let mut i: usize = 0;
        while i < n
            invariant
                i <= n == data@.len() <= self.last@.len(),
                same == (forall|j: int| 0 <= j < i ==> data@[j] == self.last@[j]),
            decreases n - i,
        {
            if data[i] != self.last[i] {
                same = false;
            }
            i = i + 1;
        }
        if same {
            assert(data@ =~= self.last@.take(n as int));
        } else {
            assert(data@ != self.last@.take(n as int)) by {
                let j = choose|j: int| 0 <= j < n && data@[j] != self.last@[j];
                assert(self.last@.take(n as int)[j] == self.last@[j]);
            }
        }
        let mut r = TextLines::new();
        if !self.first && same {
            assert(r@ =~= watch_text(self.last@, self.first, data@));
            return r;
        }
        if !self.first {
            let mut t = string_of("Changed bytes:");
            let ghost start = t@;
            let mut j: usize = 0;
            while j < n
                invariant
                    j <= n == data@.len() <= self.last@.len(),
                    t@ == start + changes_text(self.last@, data@.take(j as int)),
                decreases n - j,
            {
                assert(data@.take(j + 1).drop_last() =~= data@.take(j as int));
                if data[j] != self.last[j] {
                    push_str(&mut t, " [");
                    push_decimal(&mut t, j as u64);
                    push_str(&mut t, "]: ");
                    push_hex(&mut t, self.last[j] as u64, 2, false);
                    push_str(&mut t, "->");
                    push_hex(&mut t, data[j] as u64, 2, false);
                }
                j = j + 1;
                assert(t@ =~= start + changes_text(self.last@, data@.take(j as int)));
            }
            assert(data@.take(n as int) =~= data@);
            r.push(t);
        }
        let ghost changes = r@;
        assert(changes =~= if self.first {
            Seq::<Seq<char>>::empty()
        } else {
            seq!["Changed bytes:"@ + changes_text(self.last@, data@)]
        });
        let dump = hex_dump_lines("0xDB:", "     ", data);
        r.append(&dump);
        r.push_blank();
        assert(r@ =~= watch_text(self.last@, self.first, data@));
        let ghost old_last = self.last@;
        let mut k: usize = 0;
        while k < n
            invariant
                k <= n == data@.len() <= old_last.len(),
                self.last@.len() == old_last.len(),
                self.last@ =~= data@.take(k as int) + old_last.skip(k as int),
            decreases n - k,
        {
            self.last.set(k, data[k]);
            k = k + 1;
        }
        self.first = false;
        r
    }
}

/// The BLE information report.
pub open spec fn ble_info_text(settings: Result<AppSettings, String>,
    battery: Result<Option<HeartBeatBattery>, String>) -> Seq<Seq<char>> {
    seq!["Clevetura BLE Device Info"@, "========================="@, ""@] + match settings {
        Ok(s) => match s.global {
            Some(g) => (match g.current_ai_level {
                Some(l) => seq!["AI Sensitivity:    "@ + decimal(l as nat) + "/9"@],
                None => Seq::empty(),
            }) + flag_line("1-finger tap:      "@, g.tap1f_enable, "ON"@, "OFF"@)
                + flag_line("2-finger tap:      "@, g.tap2f_enable, "ON"@, "OFF"@)
                + flag_line("Fn Lock:           "@, g.fn_lock, "ON"@, "OFF"@),
            None => Seq::empty(),
        },
        Err(e) => seq!["Settings:          (error: "@ + e@ + ")"@],
    } + seq![
        match battery {
            Ok(Some(b)) => "Battery:           "@ + signed_decimal(b.level as int) + "%"@
                + if b.charging { " (charging)"@ } else { ""@ },
            Ok(None) => "Battery:           (no data)"@,
            Err(e) => "Battery:           (error: "@ + e@ + ")"@,
        },
        ""@,
        "Disconnected."@,
    ]
}

/// The BLE information report for what the settings and heartbeat
/// requests answered.
pub fn ble_info_report(settings: &Result<AppSettings, String>,
    battery: &Result<Option<HeartBeatBattery>, String>) -> (r: TextLines)
    ensures
        r@ == ble_info_text(*settings, *battery),
{
    let mut r = TextLines::new();
    r.push_text("Clevetura BLE Device Info");
    r.push_text("=========================");
    r.push_blank();
    let ghost head = r@;
    match settings {
        Ok(s) => {
            if let Some(g) = &s.global {
                if let Some(level) = g.current_ai_level {
                    let mut t = string_of("AI Sensitivity:    ");
                    push_decimal(&mut t, level as u64);
                    push_str(&mut t, "/9");
                    r.push(t);
                }
                let ghost lvl = r@;
                assert(lvl =~= head + match g.current_ai_level {
                    Some(l) => seq!["AI Sensitivity:    "@ + decimal(l as nat) + "/9"@],
                    None => Seq::<Seq<char>>::empty(),
                });
                push_flag(&mut r, "1-finger tap:      ", g.tap1f_enable, "ON", "OFF");
                push_flag(&mut r, "2-finger tap:      ", g.tap2f_enable, "ON", "OFF");
                push_flag(&mut r, "Fn Lock:           ", g.fn_lock, "ON", "OFF");
            }
        },
        Err(e) => {
            let mut t = string_of("Settings:          (error: ");
            push_str(&mut t, e.as_str());
            push_str(&mut t, ")");
            r.push(t);
        },
    }
    let ghost mid = r@;
    assert(mid =~= head + match *settings {
        Ok(s) => match s.global {
            Some(g) => (match g.current_ai_level {
                Some(l) => seq!["AI Sensitivity:    "@ + decimal(l as nat) + "/9"@],
                None => Seq::empty(),
            }) + flag_line("1-finger tap:      "@, g.tap1f_enable, "ON"@, "OFF"@)
                + flag_line("2-finger tap:      "@, g.tap2f_enable, "ON"@, "OFF"@)
                + flag_line("Fn Lock:           "@, g.fn_lock, "ON"@, "OFF"@),
            None => Seq::empty(),
        },
        Err(e) => seq!["Settings:          (error: "@ + e@ + ")"@],
    });
    let b = match battery {
        Ok(Some(hb)) => {
            let mut b = string_of("Battery:           ");
            push_signed_decimal(&mut b, hb.level as i64);
            push_str(&mut b, "%");
            if hb.charging {
                push_str(&mut b, " (charging)");
            } else {
                push_str(&mut b, "");
            }
            assert(b@ =~= "Battery:           "@ + signed_decimal(hb.level as int) + "%"@
                + if hb.charging { " (charging)"@ } else { ""@ });
            b
        },
        Ok(None) => string_of("Battery:           (no data)"),
        Err(e) => {
            let mut b = string_of("Battery:           (error: ");
            push_str(&mut b, e.as_str());
            push_str(&mut b, ")");
            b
        },
    };
    assert(b@ =~= match *battery {
        Ok(Some(hb)) => "Battery:           "@ + signed_decimal(hb.level as int) + "%"@
            + if hb.charging { " (charging)"@ } else { ""@ },
        Ok(None) => "Battery:           (no data)"@,
        Err(e) => "Battery:           (error: "@ + e@ + ")"@,
    });
    r.push(b);
    r.push_blank();
    r.push_text("Disconnected.");
    assert(r@ =~= ble_info_text(*settings, *battery));
    r
}

/// The result of a BLE scan.
pub open spec fn ble_scan_text(devices: Seq<BleDeviceInfo>) -> Seq<Seq<char>> {
    if devices.len() == 0 {
        seq!["No Clevetura BLE devices found."@]
    } else {
        seq!["Found "@ + decimal(devices.len()) + " device(s):"@, ""@]
            + devices.map_values(|d: BleDeviceInfo| "  "@ + d.name@ + " ("@ + d.address@ + ")"@)
    }
}

/// The report of a BLE scan: the devices found, or the error.
pub fn ble_scan_report(result: &Result<Vec<BleDeviceInfo>, String>) -> (r: Report)
    ensures
        match result {
            Ok(d) => r.out@ == ble_scan_text(d@) && r.err@ == Seq::<Seq<char>>::empty(),
            Err(e) => r.out@ == Seq::<Seq<char>>::empty() && r.err@ == seq!["BLE scan error: "@ + e@],
        },
{
    let mut out = TextLines::new();
    let mut err = TextLines::new();
    match result {
        Ok(devices) => {
            if devices.len() == 0 {
                out.push_text("No Clevetura BLE devices found.");
                assert(out@ =~= ble_scan_text(devices@));
            } else {
                let mut t = string_of("Found ");
                push_decimal(&mut t, devices.len() as u64);
                push_str(&mut t, " device(s):");
                out.push(t);
                out.push_blank();
                let ghost intro = out@;
                let ghost lines = devices@.map_values(|d: BleDeviceInfo| "  "@ + d.name@ + " ("@ + d.address@ + ")"@);
                let mut i: usize = 0;
                while i < devices.len()
                    invariant
                        i <= devices@.len(),
                        lines == devices@.map_values(|d: BleDeviceInfo| "  "@ + d.name@ + " ("@ + d.address@ + ")"@),
                        out@ == intro + lines.take(i as int),
                    decreases devices@.len() - i,
                {
                    let mut l = string_of("  ");
                    push_str(&mut l, devices[i].name.as_str());
                    push_str(&mut l, " (");
                    push_str(&mut l, devices[i].address.as_str());
                    push_str(&mut l, ")");
                    out.push(l);
                    i = i + 1;
                    assert(out@ =~= intro + lines.take(i as int));
                }
                assert(lines.take(devices@.len() as int) =~= lines);
                assert(out@ =~= ble_scan_text(devices@));
            }
        },
        Err(e) => {
            let mut t = string_of("BLE scan error: ");
            push_str(&mut t, e.as_str());
            err.push(t);
        },
    }
    Report { out, err }
}

} // verus!
