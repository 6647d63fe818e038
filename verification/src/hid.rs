//! HID device discovery for Clevetura keyboards: which of the HID
//! interfaces present belong to a Clevetura keyboard, and how they are named.

use vstd::prelude::*;
use crate::text::string_of;

verus! {

/// Clevetura USB Vendor ID.
pub const VENDOR_ID: u16 = 0x36f7;

/// Product ID of the CLVX S.
pub const CLVX_S_PID: u16 = 0x5755;

/// The name of a known product ID.
pub open spec fn known_product(pid: u16) -> Option<Seq<char>> {
    if pid == CLVX_S_PID { Some("CLVX S"@) } else { None }
}

/// The name of product `pid`, where it is a known Clevetura product.
pub fn known_product_name(pid: u16) -> (r: Option<&'static str>)
    ensures
        match r {
            Some(n) => known_product(pid) == Some(n@),
            None => known_product(pid) is None,
        },
{
    if pid == CLVX_S_PID { Some("CLVX S") } else { None }
}

/// Information about a connected Clevetura device.
#[derive(Debug, Clone)]
pub struct DeviceInfo {
    pub product_name: String,
    pub vendor_id: u16,
    pub product_id: u16,
    pub serial: String,
    pub interface_number: i32,
    pub path: String,
    pub usage_page: u16,
    pub usage: u16,
}

/// What HID enumeration reports of one interface.
#[derive(Debug, Clone)]
pub struct HidDeviceRecord {
    pub vendor_id: u16,
    pub product_id: u16,
    pub product_string: Option<String>,
    pub serial_number: Option<String>,
    pub interface_number: i32,
    pub path: String,
    pub usage_page: u16,
    pub usage: u16,
}

/// The name shown for an interface: the known product name, else the
/// product string it reports, else "Unknown Clevetura".
pub open spec fn shown_product_name(r: HidDeviceRecord) -> Seq<char> {
    match known_product(r.product_id) {
        Some(n) => n,
        None => match r.product_string {
            Some(s) => s@,
            None => "Unknown Clevetura"@,
        },
    }
}

/// The serial shown for an interface: the one it reports, else "(unknown)".
pub open spec fn shown_serial(r: HidDeviceRecord) -> Seq<char> {
    match r.serial_number {
        Some(s) => s@,
        None => "(unknown)"@,
    }
}

/// `d` describes the interface `r`.
pub open spec fn describes(d: DeviceInfo, r: HidDeviceRecord) -> bool {
    &&& d.product_name@ == shown_product_name(r)
    &&& d.vendor_id == r.vendor_id
    &&& d.product_id == r.product_id
    &&& d.serial@ == shown_serial(r)
    &&& d.interface_number == r.interface_number
    &&& d.path@ == r.path@
    &&& d.usage_page == r.usage_page
    &&& d.usage == r.usage
}

/// The Clevetura interfaces among `found` (those with the Clevetura vendor
/// ID), in order.
pub open spec fn clevetura_records(found: Seq<HidDeviceRecord>) -> Seq<HidDeviceRecord> {
    found.filter(|r: HidDeviceRecord| r.vendor_id == VENDOR_ID)
}

/// Describes the Clevetura interfaces among the ones that enumeration found.
pub fn select_devices(found: &Vec<HidDeviceRecord>) -> (r: Vec<DeviceInfo>)
    ensures
        r@.len() == clevetura_records(found@).len(),
        forall|k: int| 0 <= k < r@.len() ==> describes(#[trigger] r@[k], clevetura_records(found@)[k]),
{
    let mut r: Vec<DeviceInfo> = Vec::new();
    let mut i: usize = 0;
    while i < found.len()
        invariant
            i <= found@.len(),
            r@.len() == clevetura_records(found@.take(i as int)).len(),
            forall|k: int| 0 <= k < r@.len() ==> describes(#[trigger] r@[k], clevetura_records(found@.take(i as int))[k]),
        decreases found@.len() - i,
    {
        let ghost prev = found@.take(i as int);
        assert(found@.take(i + 1).drop_last() =~= prev);
        reveal_with_fuel(Seq::filter, 1);
        let rec = &found[i];
        if rec.vendor_id == VENDOR_ID {
            let product_name = match known_product_name(rec.product_id) {
                Some(n) => string_of(n),
                None => match &rec.product_string {
                    Some(s) => s.clone(),
                    None => string_of("Unknown Clevetura"),
                },
            };
            let serial = match &rec.serial_number {
                Some(s) => s.clone(),
                None => string_of("(unknown)"),
            };
            r.push(DeviceInfo {
                product_name,
                vendor_id: rec.vendor_id,
                product_id: rec.product_id,
                serial,
                interface_number: rec.interface_number,
                path: rec.path.clone(),
                usage_page: rec.usage_page,
                usage: rec.usage,
            });
        }
        i = i + 1;
    }
    assert(found@.take(found@.len() as int) =~= found@);
    r
}

/// Whether a Clevetura keyboard is connected: enumeration succeeded and
/// found at least one interface.
pub fn is_connected(devices: &Result<Vec<DeviceInfo>, String>) -> (r: bool)
    ensures
        r == (devices matches Ok(d) && d@.len() > 0),
{
    match devices {
        Ok(d) => d.len() > 0,
        Err(_) => false,
    }
}

/// The product IDs of `devices`, in order.
pub open spec fn product_ids(devices: Seq<DeviceInfo>) -> Seq<u16> {
    devices.map_values(|d: DeviceInfo| d.product_id)
}

/// How many different products `devices` belong to.
pub fn unique_product_count(devices: &Vec<DeviceInfo>) -> (r: usize)
    ensures
        r == product_ids(devices@).to_set().len(),
{
    let mut seen: Vec<u16> = Vec::new();
    let mut i: usize = 0;
    while i < devices.len()
        invariant
            i <= devices@.len(),
            seen@.no_duplicates(),
            seen@.to_set() == product_ids(devices@.take(i as int)).to_set(),
            seen@.len() <= i,
        decreases devices@.len() - i,
    {
        let pid = devices[i].product_id;
        let mut found = false;
        let mut j: usize = 0;
        while j < seen.len()
            invariant
                j <= seen@.len(),
                found == (exists|k: int| 0 <= k < j && seen@[k] == pid),
            decreases seen@.len() - j,
        {
            if seen[j] == pid {
                found = true;
            }
            j = j + 1;
        }
        let ghost before = seen@;
        assert(product_ids(devices@.take(i + 1)) =~= product_ids(devices@.take(i as int)).push(pid));
        proof {
            seq_push_to_set(product_ids(devices@.take(i as int)), pid);
        }
        if !found {
            seen.push(pid);
            proof {
                seq_push_to_set(before, pid);
                assert(seen@.no_duplicates()) by {
                    assert forall|a: int, b: int| 0 <= a < seen@.len() && 0 <= b < seen@.len() && a != b
                        implies seen@[a] != seen@[b] by {
                        if a == before.len() as int {
                            assert(seen@[b] == before[b]);
                        } else if b == before.len() as int {
                            assert(seen@[a] == before[a]);
                        }
                    }
                }
            }
        } else {
            proof {
                let k = choose|k: int| 0 <= k < before.len() && before[k] == pid;
                assert(before.to_set().contains(pid)) by {
                    assert(before.contains(pid));
                }
                assert(before.to_set().insert(pid) =~= before.to_set());
            }
        }
        i = i + 1;
    }
    proof {
        seen@.unique_seq_to_set();
        assert(devices@.take(devices@.len() as int) =~= devices@);
    }
    seen.len()
}

proof fn seq_push_to_set(s: Seq<u16>, x: u16)
    ensures
        s.push(x).to_set() == s.to_set().insert(x),
{
    assert(s.push(x) =~= s + seq![x]);
    Seq::lemma_to_set_insert_commutes(s, x);
}

/// The first interface among `devices` with number `iface`, if any.
pub fn find_interface(devices: &Vec<DeviceInfo>, iface: i32) -> (r: Option<usize>)
    ensures
        match r {
            Some(k) => k < devices@.len() && devices@[k as int].interface_number == iface
                && forall|j: int| 0 <= j < k ==> (#[trigger] devices@[j]).interface_number != iface,
            None => forall|j: int| 0 <= j < devices@.len() ==> (#[trigger] devices@[j]).interface_number != iface,
        },
{
    let mut i: usize = 0;
    while i < devices.len()
        invariant
            i <= devices@.len(),
            forall|j: int| 0 <= j < i ==> (#[trigger] devices@[j]).interface_number != iface,
        decreases devices@.len() - i,
    {
        if devices[i].interface_number == iface {
            return Some(i);
        }
        i = i + 1;
    }
    None
}

} // verus!
