//! Clevetura keyboard firmware protocol: request/response over the vendor
//! HID interface.
//!
//! - Output report ID 0x21: host to device, `[0x21, COMMAND_ID, ...payload]`
//!   padded to 64 bytes
//! - Input report ID 0x22: device to host, `[0x22, STATUS, ...payload]`
//!
//! This module builds the command reports, reads the answers and the values
//! in them, and holds the state that the host keeps of the keyboard.

use vstd::prelude::*;
use crate::codec::copy_range;
use crate::text::{decimal, format_version, hex_digits, push_decimal, push_hex, push_str,
    string_of, version_text};

verus! {

/// Report ID of command reports (host to device).
pub const OUTPUT_REPORT_ID: u8 = 0x21;
/// Report ID of answer reports (device to host).
pub const INPUT_REPORT_ID: u8 = 0x22;
/// Timeout of one read, in milliseconds.
pub const READ_TIMEOUT_MS: i32 = 2000;
/// Payload bytes that fit in a command report.
pub const MAX_COMMAND_PAYLOAD: usize = 61;

/// Command: revoke the authorization.
pub const CMD_DEAUTHORIZE: u8 = 120;
/// Command: authorize; payload is the 8-byte key.
pub const CMD_AUTHORIZE: u8 = 121;
/// Command: protocol version (3 bytes).
pub const CMD_GET_PROTOCOL_VERSION: u8 = 130;
/// Command: firmware version (3 bytes).
pub const CMD_GET_FW_VERSION: u8 = 131;
/// Command: device information (57 bytes).
pub const CMD_GET_DEVICE_INFO: u8 = 132;
/// Command: serial number (4 bytes).
pub const CMD_GET_SERIAL_NUMBER: u8 = 145;
/// Command: chip UID (8 bytes).
pub const CMD_GET_CHIP_UID: u8 = 149;
/// Command: firmware description (15 bytes).
pub const CMD_GET_FW_DESCRIPTION: u8 = 150;
/// Command: battery level (1 signed byte).
pub const CMD_GET_BAT_LEVEL: u8 = 153;

/// Answer status: success.
pub const STATUS_OK: u8 = 1;
/// Answer status: error.
pub const STATUS_ERROR: u8 = 2;

/// The key that authorizes a connection.
pub open spec fn auth_key() -> Seq<u8> {
    seq![0x96u8, 0x25, 0xa6, 0xd9, 0xfb, 0x64, 0xcd, 0xea]
}

/// The authorization key as bytes.
pub fn auth_key_bytes() -> (r: Vec<u8>)
    ensures
        r@ == auth_key(),
{
    let r: Vec<u8> = vec![0x96u8, 0x25, 0xa6, 0xd9, 0xfb, 0x64, 0xcd, 0xea];
    assert(r@ =~= auth_key());
    r
}

/// The 64-byte report of command `command_id` with `payload`: the report ID,
/// the command, the first 61 payload bytes at most, then zero bytes.
pub open spec fn command_report_bytes(command_id: u8, payload: Seq<u8>) -> Seq<u8> {
    let n = if payload.len() < 61 { payload.len() } else { 61 };
    seq![OUTPUT_REPORT_ID, command_id] + payload.take(n as int)
        + Seq::new((62 - n) as nat, |i: int| 0u8)
}

/// Builds the report that sends command `command_id` with `payload`.
pub fn command_report(command_id: u8, payload: &[u8]) -> (r: Vec<u8>)
    ensures
        r@ == command_report_bytes(command_id, payload@),
        r@.len() == 64,
{
    let n = if payload.len() < MAX_COMMAND_PAYLOAD { payload.len() } else { MAX_COMMAND_PAYLOAD };
    let mut r: Vec<u8> = Vec::new();
    r.push(OUTPUT_REPORT_ID);
    r.push(command_id);
    let mut i: usize = 0;
    while i < n
        invariant
            n <= payload@.len(),
            n <= 61,
            i <= n,
            r@ == seq![OUTPUT_REPORT_ID, command_id] + payload@.take(i as int),
        decreases n - i,
    {
        r.push(payload[i]);
        i = i + 1;
        assert(r@ =~= seq![OUTPUT_REPORT_ID, command_id] + payload@.take(i as int));
    }
    while r.len() < 64
        invariant
            2 + n <= r@.len() <= 64,
            n <= 61,
            r@ =~= seq![OUTPUT_REPORT_ID, command_id] + payload@.take(n as int)
                + Seq::new((r@.len() - 2 - n) as nat, |i: int| 0u8),
        decreases 64 - r@.len(),
    {
        r.push(0);
    }
    assert(r@ =~= command_report_bytes(command_id, payload@));
    r
}

/// The text of a device error for command `command_id`.
pub open spec fn device_error_text(command_id: u8) -> Seq<char> {
    "Device returned error for command 0x"@ + hex_digits(command_id as nat, 2, false)
}

fn device_error(command_id: u8) -> (e: String)
    ensures
        e@ == device_error_text(command_id),
{
    let mut e = string_of("Device returned error for command 0x");
    push_hex(&mut e, command_id as u64, 2, false);
    e
}

/// Reads the answer to command `command_id` from the bytes of one read
/// (empty where the read timed out). Answers are read until one starts with
/// the input report ID:
/// - an empty read gives the timeout error;
/// - a report that does not start with the input report ID is skipped:
///   `None`, and the next report is read;
/// - an answer report gives the error it reports (status 2), or else the
///   bytes after its status byte (none where the report ends before them).
pub fn parse_command_response(command_id: u8, read: &[u8]) -> (r: Option<Result<Vec<u8>, String>>)
    ensures
        read@.len() == 0 ==> (r matches Some(Err(e)) && e@ == "No response from device (timeout)"@),
        read@.len() > 0 && read@[0] != INPUT_REPORT_ID ==> r is None,
        read@.len() > 0 && read@[0] == INPUT_REPORT_ID ==> if read@.len() > 1 && read@[1] == STATUS_ERROR {
            r matches Some(Err(e)) && e@ == device_error_text(command_id)
        } else {
            r matches Some(Ok(p)) && p@ == if read@.len() > 2 {
                read@.subrange(2, read@.len() as int)
            } else {
                Seq::<u8>::empty()
            }
        },
{
    let len = read.len();
    if len == 0 {
        return Some(Err(string_of("No response from device (timeout)")));
    }
    if read[0] != INPUT_REPORT_ID {
        return None;
    }
    if len > 1 && read[1] == STATUS_ERROR {
        return Some(Err(device_error(command_id)));
    }
    if len > 2 {
        Some(Ok(copy_range(read, 2, len)))
    } else {
        Some(Ok(Vec::new()))
    }
}

/// The battery level in a battery answer: its first byte, read as signed.
pub fn battery_level_from_payload(payload: &[u8]) -> (r: Result<i8, String>)
    ensures
        payload@.len() == 0 ==> (r matches Err(e) && e@ == "Empty battery response"@),
        payload@.len() > 0 ==> r == Ok::<i8, String>(payload@[0] as i8),
{
    if payload.len() == 0 {
        return Err(string_of("Empty battery response"));
    }
    Ok(payload[0] as i8)
}

/// The error for a version answer of `len` bytes, named by `what`.
pub open spec fn short_version_text(what: Seq<char>, len: nat) -> Seq<char> {
    what + " version response too short ("@ + decimal(len) + " bytes)"@
}

fn version_from_payload(payload: &[u8], what: &str) -> (r: Result<String, String>)
    ensures
        payload@.len() < 3 ==> (r matches Err(e) && e@ == short_version_text(what@, payload@.len())),
        payload@.len() >= 3 ==> (r matches Ok(v)
            && v@ == version_text(payload@[0], payload@[1], payload@[2])),
{
    if payload.len() < 3 {
        let mut e = string_of(what);
        push_str(&mut e, " version response too short (");
        push_decimal(&mut e, payload.len() as u64);
        push_str(&mut e, " bytes)");
        return Err(e);
    }
    Ok(format_version(payload[0], payload[1], payload[2]))
}

/// The firmware version `major.minor.patch` in a firmware-version answer.
pub fn firmware_version_from_payload(payload: &[u8]) -> (r: Result<String, String>)
    ensures
        payload@.len() < 3 ==> (r matches Err(e) && e@ == short_version_text("Firmware"@, payload@.len())),
        payload@.len() >= 3 ==> (r matches Ok(v)
            && v@ == version_text(payload@[0], payload@[1], payload@[2])),
{
    version_from_payload(payload, "Firmware")
}

/// The protocol version `major.minor.patch` in a protocol-version answer.
pub fn protocol_version_from_payload(payload: &[u8]) -> (r: Result<String, String>)
    ensures
        payload@.len() < 3 ==> (r matches Err(e) && e@ == short_version_text("Protocol"@, payload@.len())),
        payload@.len() >= 3 ==> (r matches Ok(v)
            && v@ == version_text(payload@[0], payload@[1], payload@[2])),
{
    version_from_payload(payload, "Protocol")
}

/// The number in four little-endian bytes.
pub open spec fn le_u32(b0: u8, b1: u8, b2: u8, b3: u8) -> nat {
    b0 as nat + b1 as nat * 256 + b2 as nat * 65536 + b3 as nat * 16777216
}

/// Two lower-case hexadecimal digits per byte of `s`.
pub open spec fn hex_bytes(s: Seq<u8>) -> Seq<char>
    decreases s.len(),
{
    if s.len() == 0 {
        Seq::empty()
    } else {
        hex_bytes(s.drop_last()) + hex_digits(s.last() as nat, 2, false)
    }
}

/// The serial number text of a serial answer: the first four bytes as a
/// little-endian number in 12 upper-case hexadecimal digits; a shorter
/// answer as lower-case hexadecimal bytes.
pub open spec fn serial_text(p: Seq<u8>) -> Seq<char> {
    if p.len() >= 4 {
        hex_digits(le_u32(p[0], p[1], p[2], p[3]), 12, true)
    } else {
        hex_bytes(p)
    }
}

/// Appends two lower-case hexadecimal digits per byte of `s` to `out`.
pub fn push_hex_bytes(out: &mut String, s: &[u8])
    ensures
        final(out)@ == old(out)@ + hex_bytes(s@),
{
    let mut i: usize = 0;
    let ghost start = out@;
    while i < s.len()
        invariant
            i <= s@.len(),
            out@ == start + hex_bytes(s@.take(i as int)),
        decreases s@.len() - i,
    {
        assert(s@.take(i + 1).drop_last() =~= s@.take(i as int));
        push_hex(out, s[i] as u64, 2, false);
        i = i + 1;
        assert(out@ =~= start + hex_bytes(s@.take(i as int)));
    }
    assert(s@.take(s@.len() as int) =~= s@);
}

/// The serial number in a serial answer.
pub fn serial_number_from_payload(payload: &[u8]) -> (r: String)
    ensures
        r@ == serial_text(payload@),
{
    let mut r = String::new();
    if payload.len() >= 4 {
        let serial: u64 = payload[0] as u64 + payload[1] as u64 * 256 + payload[2] as u64 * 65536
            + payload[3] as u64 * 16777216;
        push_hex(&mut r, serial, 12, true);
    } else {
        push_hex_bytes(&mut r, payload);
    }
    assert(r@ =~= serial_text(payload@));
    r
}

/// Whether `level` is an AI sensitivity level the keyboard accepts (1-9).
pub fn check_sensitivity_level(level: u8) -> (r: Result<(), String>)
    ensures
        1 <= level <= 9 ==> r is Ok,
        !(1 <= level <= 9) ==> (r matches Err(e)
            && e@ == "Sensitivity must be 1-9, got "@ + decimal(level as nat)),
{
    if !(1 <= level && level <= 9) {
        let mut e = string_of("Sensitivity must be 1-9, got ");
        push_decimal(&mut e, level as u64);
        return Err(e);
    }
    Ok(())
}

/// Touch or typing mode of the keyboard.
#[derive(Debug, Clone, Copy, PartialEq, Eq, Structural)]
pub enum KeyboardMode {
    Typing,
    Touch,
    Unknown,
}

impl KeyboardMode {
    /// The name shown for this mode.
    pub fn display_name(&self) -> (r: &'static str)
        ensures
            r@ == match *self {
                KeyboardMode::Typing => "Typing"@,
                KeyboardMode::Touch => "Touch"@,
                KeyboardMode::Unknown => "Unknown"@,
            },
    {
        match self {
            KeyboardMode::Typing => "Typing",
            KeyboardMode::Touch => "Touch",
            KeyboardMode::Unknown => "Unknown",
        }
    }
}

/// Live state read from the keyboard.
#[derive(Debug, Clone)]
pub struct KeyboardState {
    pub connected: bool,
    pub battery_percent: Option<i8>,
    pub firmware_version: Option<String>,
    pub protocol_version: Option<String>,
    pub serial_number: Option<String>,
    pub mode: KeyboardMode,
}

/// The state of a keyboard that is not connected.
pub open spec fn disconnected_state() -> KeyboardState {
    KeyboardState {
        connected: false,
        battery_percent: None,
        firmware_version: None,
        protocol_version: None,
        serial_number: None,
        mode: KeyboardMode::Unknown,
    }
}

impl Default for KeyboardState {
    fn default() -> (r: KeyboardState)
        ensures
            r == disconnected_state(),
    {
        KeyboardState {
            connected: false,
            battery_percent: None,
            firmware_version: None,
            protocol_version: None,
            serial_number: None,
            mode: KeyboardMode::Unknown,
        }
    }
}

/// The answers of one round of state queries.
pub struct DeviceReads {
    pub battery: Result<i8, String>,
    pub firmware_version: Result<String, String>,
    pub protocol_version: Result<String, String>,
    pub serial_number: Result<String, String>,
}

/// The value of a query that succeeded.
pub open spec fn ok_value<T>(r: Result<T, String>) -> Option<T> {
    match r {
        Ok(v) => Some(v),
        Err(_) => None,
    }
}

fn ok_of<T>(r: Result<T, String>) -> (o: Option<T>)
    ensures
        o == ok_value(r),
{
    match r {
        Ok(v) => Some(v),
        Err(_) => None,
    }
}

impl KeyboardState {
    /// The state of a connected keyboard from the answers to the state queries.
    pub fn from_reads(reads: DeviceReads) -> (r: KeyboardState)
        ensures
            r == (KeyboardState {
                connected: true,
                battery_percent: ok_value(reads.battery),
                firmware_version: ok_value(reads.firmware_version),
                protocol_version: ok_value(reads.protocol_version),
                serial_number: ok_value(reads.serial_number),
                mode: KeyboardMode::Unknown,
            }),
    {
        KeyboardState {
            connected: true,
            battery_percent: ok_of(reads.battery),
            firmware_version: ok_of(reads.firmware_version),
            protocol_version: ok_of(reads.protocol_version),
            serial_number: ok_of(reads.serial_number),
            mode: KeyboardMode::Unknown,
        }
    }
}

/// The keyboard state for one poll: the state from the answers where the
/// keyboard could be opened (`Some`), the disconnected state otherwise.
pub fn poll_state(reads: Option<DeviceReads>) -> (r: KeyboardState)
    ensures
        match reads {
            Some(d) => r == (KeyboardState {
                connected: true,
                battery_percent: ok_value(d.battery),
                firmware_version: ok_value(d.firmware_version),
                protocol_version: ok_value(d.protocol_version),
                serial_number: ok_value(d.serial_number),
                mode: KeyboardMode::Unknown,
            }),
            None => r == disconnected_state(),
        },
{
    match reads {
        Some(d) => KeyboardState::from_reads(d),
        None => KeyboardState::default(),
    }
}

/// One of the two touch sliders.
#[derive(Debug, Clone, Copy, PartialEq, Eq, Structural)]
pub enum Slider {
    Left,
    Right,
}

} // verus!
