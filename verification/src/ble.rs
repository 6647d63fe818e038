//! Bluetooth Low Energy communication with Clevetura keyboards.
//!
//! Over BLE both protocol layers use one GATT characteristic for writes and
//! notifications, with the end byte (0x0A) framing of USB. Firmware commands
//! are `[COMMAND_ID, ...payload]` and answer `[STATUS, ...payload]`.
//! Protobuf requests carry a CRC-32 of their bytes: the protobuf bytes and the
//! little-endian checksum are base64-encoded and sent after a 0x23 byte.
//!
//! Service UUID: d0bf1500-c402-424a-80b0-bc7aeced077e
//! Characteristic UUID: d0bf0001-c402-424a-80b0-bc7aeced077e

use vstd::prelude::*;
use crate::codec::{base64_bytes, base64_decode, base64_encode, base64_text, copy_range, crc32,
    crc32_of, is_base64_symbol, joined, lemma_pieces_join, piece, piece_count, split_pieces};
use crate::keyboard::le_u32;
use crate::text::{format_version, version_text};
use crate::proto::{find_byte, first_index, keep_printable, printable_bytes, ReadProgress,
    END_BYTE};
use crate::text::{hex_digits, push_hex, push_str, same_text, string_of};

verus! {

/// Clevetura BLE service UUID.
pub const SERVICE_UUID: &'static str = "d0bf1500-c402-424a-80b0-bc7aeced077e";
/// Clevetura BLE characteristic UUID for data exchange.
pub const CHAR_UUID: &'static str = "d0bf0001-c402-424a-80b0-bc7aeced077e";
/// Bytes per BLE write.
pub const CHUNK_SIZE: usize = 56;
/// Seconds to wait for one notification.
pub const READ_TIMEOUT_SECS: u64 = 2;
/// The byte before the base64 text of a protobuf message.
pub const PROTO_MARKER: u8 = 0x23;

/// Information about a discovered BLE Clevetura device.
#[derive(Debug, Clone)]
pub struct BleDeviceInfo {
    pub name: String,
    pub address: String,
}

/// What discovery reports of one peripheral: its advertised service UUIDs
/// (as text), its local name, and its address (as text).
#[derive(Debug, Clone)]
pub struct BlePeripheral {
    pub services: Vec<String>,
    pub local_name: Option<String>,
    pub address: String,
}

/// The name shown for a peripheral: its local name, or "Clevetura".
pub open spec fn shown_name(p: BlePeripheral) -> Seq<char> {
    match p.local_name {
        Some(n) => n@,
        None => "Clevetura"@,
    }
}

/// The peripheral advertises the Clevetura service.
pub open spec fn has_clevetura_service(p: BlePeripheral) -> bool {
    exists|i: int| 0 <= i < p.services@.len() && (#[trigger] p.services@[i])@ == SERVICE_UUID@
}

/// Name and address of each Clevetura peripheral among `found`, in order.
pub open spec fn clevetura_devices(found: Seq<BlePeripheral>) -> Seq<(Seq<char>, Seq<char>)>
    decreases found.len(),
{
    if found.len() == 0 {
        Seq::empty()
    } else if has_clevetura_service(found.last()) {
        clevetura_devices(found.drop_last()).push((shown_name(found.last()), found.last().address@))
    } else {
        clevetura_devices(found.drop_last())
    }
}

fn advertises_service(p: &BlePeripheral) -> (r: bool)
    ensures
        r == has_clevetura_service(*p),
{
    let mut i: usize = 0;
    while i < p.services.len()
        invariant
            i <= p.services@.len(),
            forall|j: int| 0 <= j < i ==> (#[trigger] p.services@[j])@ != SERVICE_UUID@,
        decreases p.services@.len() - i,
    {
        if same_text(&p.services[i], SERVICE_UUID) {
            return true;
        }
        i = i + 1;
    }
    false
}

/// The Clevetura keyboards among the peripherals that a scan found: those
/// that advertise the Clevetura service, named by their local name or
/// "Clevetura".
pub fn select_ble_devices(found: &Vec<BlePeripheral>) -> (r: Vec<BleDeviceInfo>)
    ensures
        r@.map_values(|d: BleDeviceInfo| (d.name@, d.address@)) == clevetura_devices(found@),
{
    let mut r: Vec<BleDeviceInfo> = Vec::new();
    let mut i: usize = 0;
    while i < found.len()
        invariant
            i <= found@.len(),
            r@.map_values(|d: BleDeviceInfo| (d.name@, d.address@)) == clevetura_devices(found@.take(i as int)),
        decreases found@.len() - i,
    {
        assert(found@.take(i + 1).drop_last() =~= found@.take(i as int));
        let p = &found[i];
        if advertises_service(p) {
            let name = match &p.local_name {
                Some(n) => n.clone(),
                None => string_of("Clevetura"),
            };
            r.push(BleDeviceInfo { name, address: p.address.clone() });
        }
        i = i + 1;
        assert(r@.map_values(|d: BleDeviceInfo| (d.name@, d.address@)) =~= clevetura_devices(found@.take(i as int)));
    }
    assert(found@.take(found@.len() as int) =~= found@);
    r
}

/// The writes that send `data`: the data and the end byte, cut into pieces
/// of 56 bytes.
pub fn message_chunks(data: &[u8]) -> (r: Vec<Vec<u8>>)
    ensures
        r@.len() == piece_count(data@.len() + 1, 56),
        forall|k: int| 0 <= k < r@.len() ==> (#[trigger] r@[k])@ == piece(data@.push(END_BYTE), 56, k as nat),
        joined(r@.map_values(|c: Vec<u8>| c@)) == data@.push(END_BYTE),
{
    let mut payload = copy_range(data, 0, data.len());
    assert(payload@ =~= data@);
    payload.push(END_BYTE);
    let r = split_pieces(payload.as_slice(), CHUNK_SIZE);
    proof {
        lemma_pieces_join(payload@, 56);
        assert(r@.map_values(|c: Vec<u8>| c@) =~= Seq::new(
            piece_count(payload@.len(), 56),
            |k: int| piece(payload@, 56, k as nat),
        ));
    }
    r
}

/// What one wait for a notification brought.
pub enum Notification {
    /// A notification with these bytes.
    Data(Vec<u8>),
    /// The notification stream ended.
    Closed,
    /// No notification within the timeout.
    TimedOut,
}

/// Collects an answer from BLE notifications up to the end byte.
pub struct BleResponseReader {
    /// The answer bytes gathered so far.
    pub data: Vec<u8>,
}

impl BleResponseReader {
    /// A reader that has gathered nothing.
    pub fn new() -> (r: BleResponseReader)
        ensures
            r.data@ == Seq::<u8>::empty(),
    {
        BleResponseReader { data: Vec::new() }
    }

    /// Takes in what one wait for a notification brought: the bytes of a
    /// notification are gathered up to the end byte, which completes the
    /// answer; the end of the stream also completes it; a timeout fails it.
    pub fn accept(&mut self, n: &Notification) -> (r: ReadProgress)
        ensures
            match *n {
                Notification::Data(d) => if d@.contains(END_BYTE) {
                    &&& final(self).data@ == old(self).data@ + d@.take(first_index(d@, END_BYTE))
                    &&& r is Complete
                } else {
                    &&& final(self).data@ == old(self).data@ + d@
                    &&& r is Pending
                },
                Notification::Closed => final(self).data == old(self).data && r is Complete,
                Notification::TimedOut => final(self).data == old(self).data
                    && (r matches ReadProgress::Failed(e) && e@ == "BLE read timeout"@),
            },
    {
        match n {
            Notification::Data(d) => {
                let ghost before = self.data@;
                let (end, complete) = match find_byte(d.as_slice(), END_BYTE) {
                    Some(k) => (k, true),
                    None => (d.len(), false),
                };
                let mut i: usize = 0;
                while i < end
                    invariant
                        i <= end <= d@.len(),
                        self.data@ == before + d@.take(i as int),
                    decreases end - i,
                {
                    self.data.push(d[i]);
                    i = i + 1;
                    assert(self.data@ =~= before + d@.take(i as int));
                }
                if complete {
                    ReadProgress::Complete
                } else {
                    assert(d@.take(d@.len() as int) =~= d@);
                    ReadProgress::Pending
                }
            },
            Notification::Closed => ReadProgress::Complete,
            Notification::TimedOut => ReadProgress::Failed(string_of("BLE read timeout")),
        }
    }
}

/// The bytes of firmware command `command_id` with `payload`.
pub fn command_bytes(command_id: u8, payload: &[u8]) -> (r: Vec<u8>)
    ensures
        r@ == seq![command_id] + payload@,
{
    let mut r: Vec<u8> = Vec::new();
    r.push(command_id);
    let mut i: usize = 0;
    while i < payload.len()
        invariant
            i <= payload@.len(),
            r@ == seq![command_id] + payload@.take(i as int),
        decreases payload@.len() - i,
    {
        r.push(payload[i]);
        i = i + 1;
        assert(r@ =~= seq![command_id] + payload@.take(i as int));
    }
    assert(payload@.take(payload@.len() as int) =~= payload@);
    r
}

/// The text of a device error for command `command_id` over BLE.
pub open spec fn ble_device_error_text(command_id: u8) -> Seq<char> {
    "Device error for command 0x"@ + hex_digits(command_id as nat, 2, false)
}

/// Reads the answer to firmware command `command_id`: the bytes after the
/// status byte, or the error it reports.
pub fn parse_command_response(command_id: u8, response: &[u8]) -> (r: Result<Vec<u8>, String>)
    ensures
        response@.len() == 0 ==> (r matches Err(e) && e@ == "Empty response"@),
        response@.len() > 0 && response@[0] == 2 ==> (r matches Err(e)
            && e@ == ble_device_error_text(command_id)),
        response@.len() > 0 && response@[0] != 2 ==> (r matches Ok(p) && p@ == response@.drop_first()),
{
    if response.len() == 0 {
        return Err(string_of("Empty response"));
    }
    if response[0] == 2 {
        let mut e = string_of("Device error for command 0x");
        push_hex(&mut e, command_id as u64, 2, false);
        return Err(e);
    }
    let p = copy_range(response, 1, response.len());
    assert(p@ =~= response@.drop_first());
    Ok(p)
}

/// The four little-endian bytes of `v`.
pub open spec fn le_bytes(v: u32) -> Seq<u8> {
    seq![(v & 0xff) as u8, ((v >> 8) & 0xff) as u8, ((v >> 16) & 0xff) as u8, ((v >> 24) & 0xff) as u8]
}

proof fn lemma_le_bytes(v: u32)
    ensures
        le_u32(le_bytes(v)[0], le_bytes(v)[1], le_bytes(v)[2], le_bytes(v)[3]) == v,
{
    let b0 = (v & 0xff) as u8;
    let b1 = ((v >> 8) & 0xff) as u8;
    let b2 = ((v >> 16) & 0xff) as u8;
    let b3 = ((v >> 24) & 0xff) as u8;
    assert(b0 as u32 + b1 as u32 * 256 + b2 as u32 * 65536 + b3 as u32 * 16777216 == v
        && b0 as u32 + b1 as u32 * 256 + b2 as u32 * 65536 + b3 as u32 * 16777216
        == b0 as nat + b1 as nat * 256 + b2 as nat * 65536 + b3 as nat * 16777216) by (bit_vector)
        requires
            b0 == (v & 0xff) as u8,
            b1 == ((v >> 8) & 0xff) as u8,
            b2 == ((v >> 16) & 0xff) as u8,
            b3 == ((v >> 24) & 0xff) as u8,
    ;
}

/// The protobuf bytes and their CRC-32, little-endian.
pub open spec fn with_crc(proto: Seq<u8>) -> Seq<u8> {
    proto + le_bytes(crc32_of(proto))
}

/// The message sent for the protobuf bytes `proto` over BLE: the marker
/// byte, then the base64 text of the bytes followed by their CRC-32.
pub open spec fn ble_proto_message(proto: Seq<u8>) -> Seq<u8> {
    seq![PROTO_MARKER] + base64_text(with_crc(proto))
}

/// The base64 text of an answer: the answer without a leading marker byte,
/// cleaned of null and non-ASCII bytes.
pub open spec fn ble_answer_text(response: Seq<u8>) -> Seq<u8> {
    printable_bytes(
        if response.len() > 0 && response[0] == PROTO_MARKER { response.drop_first() } else { response },
    )
}

/// The protobuf bytes of a decoded answer: where it is longer than four
/// bytes and its last four bytes are the little-endian CRC-32 of the rest,
/// the rest; otherwise all of it.
pub open spec fn ble_answer_bytes(decoded: Seq<u8>) -> Seq<u8> {
    if decoded.len() > 4 {
        let end = decoded.len() - 4;
        if le_u32(decoded[end], decoded[end + 1], decoded[end + 2], decoded[end + 3])
            == crc32_of(decoded.take(end)) {
            decoded.take(end)
        } else {
            decoded
        }
    } else {
        decoded
    }
}

/// The protobuf bytes that a BLE answer carries, where its text decodes.
pub open spec fn ble_unwrapped(response: Seq<u8>) -> Option<Seq<u8>> {
    match base64_bytes(ble_answer_text(response)) {
        Some(d) => Some(ble_answer_bytes(d)),
        None => None,
    }
}

/// Wraps protobuf bytes for BLE: the CRC-32 is appended, the whole is
/// base64-encoded, and the marker byte goes first.
///
/// What this sends for non-empty `proto`, read back as an answer, with or
/// without the leading marker byte, gives `proto` again.
pub fn proto_message(proto: &[u8]) -> (r: Vec<u8>)
    requires
        proto@.len() <= usize::MAX / 4,
    ensures
        r@ == ble_proto_message(proto@),
        r@.len() == 1 + 4 * ((proto@.len() + 6) / 3),
        !r@.contains(END_BYTE),
        proto@.len() > 0 ==> ble_unwrapped(r@) == Some(proto@),
        proto@.len() > 0 ==> ble_unwrapped(r@.drop_first()) == Some(proto@),
{
    let crc = crc32(proto);
    let mut bytes = copy_range(proto, 0, proto.len());
    bytes.push(#[verifier::truncate] ((crc & 0xff) as u8));
    bytes.push(#[verifier::truncate] (((crc >> 8) & 0xff) as u8));
    bytes.push(#[verifier::truncate] (((crc >> 16) & 0xff) as u8));
    bytes.push(#[verifier::truncate] (((crc >> 24) & 0xff) as u8));
    assert(bytes@ =~= with_crc(proto@));
    let text = base64_encode(bytes.as_slice());
    let mut r: Vec<u8> = Vec::new();
    r.push(PROTO_MARKER);
    let mut i: usize = 0;
    while i < text.len()
        invariant
            i <= text@.len(),
            r@ == seq![PROTO_MARKER] + text@.take(i as int),
        decreases text@.len() - i,
    {
        r.push(text[i]);
        i = i + 1;
        assert(r@ =~= seq![PROTO_MARKER] + text@.take(i as int));
    }
    proof {
        assert(text@.take(text@.len() as int) =~= text@);
        assert(r@ == ble_proto_message(proto@));
        assert(!r@.contains(END_BYTE)) by {
            if r@.contains(END_BYTE) {
                let j = choose|j: int| 0 <= j < r@.len() && r@[j] == END_BYTE;
                if j > 0 {
                    assert(r@[j] == text@[j - 1]);
                    assert(is_base64_symbol(text@[j - 1]));
                }
            }
        }
        assert(r@.drop_first() =~= text@);
        assert forall|j: int| 0 <= j < text@.len() implies crate::proto::is_printable_byte(#[trigger] text@[j]) by {
            assert(is_base64_symbol(text@[j]));
        }
        crate::proto::lemma_printable_identity(text@);
        lemma_le_bytes(crc);
        let d = with_crc(proto@);
        let end = d.len() - 4;
        assert(d.take(end) =~= proto@);
        assert(d[end] == le_bytes(crc)[0] && d[end + 1] == le_bytes(crc)[1]
            && d[end + 2] == le_bytes(crc)[2] && d[end + 3] == le_bytes(crc)[3]);
        assert(ble_answer_text(r@) == text@);
        assert(text@.len() > 0 ==> is_base64_symbol(text@[0]));
        assert(ble_answer_text(r@.drop_first()) == text@);
        if proto@.len() > 0 {
            assert(ble_answer_bytes(d) == proto@);
        }
    }
    r
}

/// The protobuf bytes of a BLE answer: the answer without its leading
/// marker byte, cleaned, base64-decoded, and without a matching CRC-32.
pub fn proto_from_answer(response: &[u8]) -> (r: Result<Vec<u8>, String>)
    ensures
        response@.len() == 0 ==> (r matches Err(e) && e@ == "Empty protobuf response"@),
        response@.len() > 0 ==> match ble_unwrapped(response@) {
            Some(p) => r matches Ok(v) && v@ == p,
            None => r matches Err(e) && "Base64 decode failed: "@.is_prefix_of(e@),
        },
{
    if response.len() == 0 {
        return Err(string_of("Empty protobuf response"));
    }
    let data = if response[0] == PROTO_MARKER {
        copy_range(response, 1, response.len())
    } else {
        copy_range(response, 0, response.len())
    };
    assert(data@ =~= (if response@.len() > 0 && response@[0] == PROTO_MARKER {
        response@.drop_first()
    } else {
        response@
    }));
    let clean = keep_printable(data.as_slice());
    let decoded = match base64_decode(clean.as_slice()) {
        Ok(v) => v,
        Err(detail) => {
            let mut e = string_of("Base64 decode failed: ");
            push_str(&mut e, detail.as_str());
            return Err(e);
        },
    };
    if decoded.len() > 4 {
        let end = decoded.len() - 4;
        let response_crc: u64 = decoded[end] as u64 + decoded[end + 1] as u64 * 256
            + decoded[end + 2] as u64 * 65536 + decoded[end + 3] as u64 * 16777216;
        let body = copy_range(decoded.as_slice(), 0, end);
        assert(body@ =~= decoded@.take(end as int));
        let computed = crc32(body.as_slice());
        if response_crc == computed as u64 {
            Ok(body)
        } else {
            Ok(decoded)
        }
    } else {
        Ok(decoded)
    }
}

/// BLE framing law: the writes that carry a message, cut into pieces of 56
/// bytes, joined in order, are the message followed by the end byte.
pub proof fn lemma_message_chunks_join(data: Seq<u8>)
    ensures
        joined(Seq::new(piece_count(data.len() + 1, 56), |k: int| piece(data.push(END_BYTE), 56, k as nat)))
            == data.push(END_BYTE),
{
    lemma_pieces_join(data.push(END_BYTE), 56);
}

/// The firmware version `major.minor.patch` in a BLE firmware-version answer.
pub fn firmware_version_from_payload(payload: &[u8]) -> (r: Result<String, String>)
    ensures
        payload@.len() < 3 ==> (r matches Err(e) && e@ == "FW version response too short"@),
        payload@.len() >= 3 ==> (r matches Ok(v)
            && v@ == version_text(payload@[0], payload@[1], payload@[2])),
{
    if payload.len() < 3 {
        return Err(string_of("FW version response too short"));
    }
    Ok(format_version(payload[0], payload[1], payload[2]))
}

/// The protocol version `major.minor.patch` in a BLE protocol-version answer.
pub fn protocol_version_from_payload(payload: &[u8]) -> (r: Result<String, String>)
    ensures
        payload@.len() < 3 ==> (r matches Err(e) && e@ == "Protocol version response too short"@),
        payload@.len() >= 3 ==> (r matches Ok(v)
            && v@ == version_text(payload@[0], payload@[1], payload@[2])),
{
    if payload.len() < 3 {
        return Err(string_of("Protocol version response too short"));
    }
    Ok(format_version(payload[0], payload[1], payload[2]))
}

} // verus!
