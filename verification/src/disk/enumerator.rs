//! What a device listing is made of: the rules that tell USB storage apart,
//! and read the interface, the vendor and product, the VID:PID and the
//! serial number out of the texts the system reports for a disk. Asking the
//! system for those texts is left to the caller.

use vstd::prelude::*;
use vstd::string::StringExecFns;
use vstd::utf8::{encode_utf8, is_char_boundary};
use crate::disk::device::{copy_texts, opt_text_view, UsbDevice, UsbDeviceView};
use crate::utils::text::{text_to_lowercase, unicode_lowercase, concat_text, contains_bytes, find_bytes, lemma_encode_utf8_concat, occurs_at, text_contains};

verus! {

/// The UTF-8 bytes of a text.
pub open spec fn utf8(s: Seq<char>) -> Seq<u8> {
    encode_utf8(s)
}

/// Whether the device path names a USB device: its lower-case form
/// contains "usb".
pub open spec fn is_usb_path(path: Seq<char>) -> bool {
    let lower = utf8(unicode_lowercase(path));
    contains_bytes(lower, utf8("usb"@)) || contains_bytes(lower, utf8("usbstor"@))
}

/// Whether the device path names a USB device.
pub fn is_usb_device(device_path: &str) -> (usb: bool)
    ensures
        usb == is_usb_path(device_path@),
{
    let lower = text_to_lowercase(device_path);
    text_contains(lower.as_str(), "usb") || text_contains(lower.as_str(), "usbstor")
}

/// The devices whose paths name a USB device, in the order given.
pub open spec fn usb_only(devices: Seq<UsbDevice>) -> Seq<UsbDevice>
    decreases devices.len(),
{
    if devices.len() == 0 {
        Seq::empty()
    } else if is_usb_path(devices[0].device_path@) {
        seq![devices[0]] + usb_only(devices.drop_first())
    } else {
        usb_only(devices.drop_first())
    }
}

/// The listing of USB disks: of the disks the system reports, those whose
/// paths name a USB device, in the order reported.
pub fn keep_usb_devices(candidates: Vec<UsbDevice>) -> (devices: Vec<UsbDevice>)
    ensures
        devices@ == usb_only(candidates@),
{
    let mut rest = candidates;
    let mut devices: Vec<UsbDevice> = Vec::new();
    while rest.len() > 0
        invariant
            usb_only(candidates@) == devices@ + usb_only(rest@),
        decreases rest.len(),
    {
        let ghost before = rest@;
        let d = rest.remove(0);
        assert(rest@ =~= before.drop_first());
        if is_usb_device(d.device_path.as_str()) {
            let ghost old_devices = devices@;
            devices.push(d);
            assert(old_devices + (seq![before[0]] + usb_only(rest@)) =~= devices@ + usb_only(rest@));
        }
    }
    assert(devices@ + usb_only(rest@) =~= devices@);
    devices
}

/// The interface type read from the hardware ids: "USB 3.0" or "USB 2.0"
/// when a USB vendor id is present together with a speed marker, else "USB".
pub open spec fn interface_type_of(ids: Seq<char>) -> Seq<char> {
    let b = utf8(ids);
    if contains_bytes(b, utf8("USB\\VID_"@)) {
        if contains_bytes(b, utf8("3.0"@)) || contains_bytes(b, utf8("USB30"@)) {
            "USB 3.0"@
        } else if contains_bytes(b, utf8("2.0"@)) || contains_bytes(b, utf8("USB20"@)) {
            "USB 2.0"@
        } else {
            "USB"@
        }
    } else {
        "USB"@
    }
}

/// The interface type read from the hardware ids.
pub fn get_usb_interface_type(hardware_ids: &str) -> (t: String)
    ensures
        t@ == interface_type_of(hardware_ids@),
{
    if text_contains(hardware_ids, "USB\\VID_") {
        if text_contains(hardware_ids, "3.0") || text_contains(hardware_ids, "USB30") {
            String::from_str("USB 3.0")
        } else if text_contains(hardware_ids, "2.0") || text_contains(hardware_ids, "USB20") {
            String::from_str("USB 2.0")
        } else {
            String::from_str("USB")
        }
    } else {
        String::from_str("USB")
    }
}

/// The first position at which `needle` occurs in `hay` (meaningful when it
/// occurs).
pub open spec fn first_at(hay: Seq<u8>, needle: Seq<u8>) -> int {
    choose|i: int| occurs_at(hay, needle, i) && forall|j: int| 0 <= j < i ==> !occurs_at(hay, needle, j)
}

/// The two first occurrences are the same position.
proof fn lemma_first_at_unique(hay: Seq<u8>, needle: Seq<u8>, i: int)
    requires
        occurs_at(hay, needle, i),
        forall|j: int| 0 <= j < i ==> !occurs_at(hay, needle, j),
    ensures
        first_at(hay, needle) == i,
{
    let k = first_at(hay, needle);
    assert(occurs_at(hay, needle, k) && forall|j: int| 0 <= j < k ==> !occurs_at(hay, needle, j));
    if k < i {
        assert(!occurs_at(hay, needle, k));
    }
    if i < k {
        assert(!occurs_at(hay, needle, i));
    }
}

/// The four bytes after the marker that starts at `at`, when they lie
/// within the text and the cut falls between characters.
pub open spec fn code_after_fits(b: Seq<u8>, at: int) -> bool {
    &&& at + 8 <= b.len()
    &&& is_char_boundary(b, at + 4)
    &&& is_char_boundary(b, at + 8)
}

/// The VID:PID read from the UTF-8 bytes `b` of the lower-cased hardware
/// ids: the four bytes after the first "vid_", a colon and the four bytes
/// after the first "pid_"; "unknown" when either marker is missing. `None`
/// when the four bytes run past the end or cut a character, where slicing
/// the text panics.
pub open spec fn vid_pid_bytes(b: Seq<u8>) -> Option<Seq<u8>> {
    let vid = utf8("vid_"@);
    let pid = utf8("pid_"@);
    if !contains_bytes(b, vid) || !contains_bytes(b, pid) {
        Some(utf8("Unknown"@))
    } else {
        let v = first_at(b, vid);
        let p = first_at(b, pid);
        if code_after_fits(b, v) && code_after_fits(b, p) {
            Some(b.subrange(v + 4, v + 8) + seq![58u8] + b.subrange(p + 4, p + 8))
        } else {
            None
        }
    }
}

/// The piece of `s` between two byte positions that fall between
/// characters.
fn byte_range(s: &str, from: usize, to: usize) -> (r: &str)
    requires
        from <= to <= encode_utf8(s@).len(),
        is_char_boundary(encode_utf8(s@), from as int),
        is_char_boundary(encode_utf8(s@), to as int),
    ensures
        encode_utf8(r@) == encode_utf8(s@).subrange(from as int, to as int),
{
    let (head, _) = s.split_at(to);
    proof {
        vstd::utf8::encode_utf8_valid_utf8(s@);
        lemma_boundary_in_prefix(encode_utf8(s@), to as int, from as int);
    }
    let (_, piece) = head.split_at(from);
    assert(encode_utf8(piece@) =~= encode_utf8(s@).subrange(from as int, to as int));
    piece
}

/// A character boundary before the end of a prefix that is itself cut at a
/// boundary is a boundary of the prefix.
proof fn lemma_boundary_in_prefix(b: Seq<u8>, end: int, at: int)
    requires
        vstd::utf8::valid_utf8(b),
        0 <= at <= end <= b.len(),
        is_char_boundary(b, end),
        is_char_boundary(b, at),
    ensures
        is_char_boundary(b.subrange(0, end), at),
{
    vstd::utf8::valid_utf8_split(b, end);
    let prefix = b.subrange(0, end);
    if at == end {
        vstd::utf8::is_char_boundary_start_end_of_seq(prefix);
    } else if at > 0 {
        vstd::utf8::is_char_boundary_iff_not_is_continuation_byte(b, at);
        vstd::utf8::is_char_boundary_iff_not_is_continuation_byte(prefix, at);
        assert(prefix[at] == b[at]);
    }
}

/// The VID:PID of a device, read from its hardware ids
/// ("USB\VID_1234&PID_5678" gives "1234:5678"). `None` where the four
/// characters after a marker run past the end of the text or cut a
/// character, inputs on which the listing panics.
pub fn extract_vid_pid(hardware_ids: &str) -> (r: Option<String>)
    ensures
        match vid_pid_bytes(utf8(unicode_lowercase(hardware_ids@))) {
            Some(b) => r matches Some(s) && utf8(s@) == b,
            None => r is None,
        },
{
    let lower = text_to_lowercase(hardware_ids);
    let ls = lower.as_str();
    let bytes = ls.as_bytes();
    let ghost b = utf8(unicode_lowercase(hardware_ids@));
    let vid_marker = "vid_";
    let pid_marker = "pid_";
    let vid_at = find_bytes(bytes, vid_marker.as_bytes());
    let pid_at = find_bytes(bytes, pid_marker.as_bytes());
    match (vid_at, pid_at) {
        (Some(v), Some(p)) => {
            proof {
                lemma_first_at_unique(b, utf8("vid_"@), v as int);
                lemma_first_at_unique(b, utf8("pid_"@), p as int);
            }
            let n = bytes.len();
            if n >= 8 && v <= n - 8 && p <= n - 8 && ls.is_char_boundary(v + 4) && ls.is_char_boundary(v + 8)
                && ls.is_char_boundary(p + 4) && ls.is_char_boundary(p + 8) {
                let vid = byte_range(ls, v + 4, v + 8);
                let pid = byte_range(ls, p + 4, p + 8);
                let colon = ":";
                let head = concat_text(vid, colon);
                let text = concat_text(head.as_str(), pid);
                proof {
                    reveal_strlit(":");
                    vstd::utf8::is_ascii_chars_encode_utf8(colon@);
                    assert(utf8(colon@) =~= seq![58u8]);
                    lemma_encode_utf8_concat(vid@, colon@);
                    lemma_encode_utf8_concat(vid@ + colon@, pid@);
                }
                Some(text)
            } else {
                None
            }
        },
        _ => Some(String::from_str("Unknown")),
    }
}

/// The serial number read from the hardware ids: what follows the last
/// backslash, or "Unknown" when there is none.
pub open spec fn serial_of(ids: Seq<char>) -> Seq<char> {
    if exists|i: int| 0 <= i < ids.len() && ids[i] == '\\' {
        let last = choose|i: int|
            0 <= i < ids.len() && ids[i] == '\\' && forall|j: int| i < j < ids.len() ==> ids[j] != '\\';
        ids.subrange(last + 1, ids.len() as int)
    } else {
        "Unknown"@
    }
}

/// The serial number read from the hardware ids.
pub fn extract_serial_number(hardware_ids: &str) -> (serial: String)
    ensures
        serial@ == serial_of(hardware_ids@),
{
    let n = hardware_ids.unicode_len();
    let mut k = n;
    while k > 0 && hardware_ids.get_char(k - 1) != '\\'
        invariant
            n == hardware_ids@.len(),
            k <= n,
            forall|j: int| k <= j < n ==> hardware_ids@[j] != '\\',
        decreases k,
    {
        k = k - 1;
    }
    if k == 0 {
        String::from_str("Unknown")
    } else {
        let ghost ids = hardware_ids@;
        let ghost i = (k - 1) as int;
        proof {
            assert(ids[i] == '\\');
            let last = choose|j: int|
                0 <= j < ids.len() && ids[j] == '\\' && forall|m: int| j < m < ids.len() ==> ids[m] != '\\';
            assert(0 <= last < ids.len() && ids[last] == '\\' && forall|m: int| last < m < ids.len() ==> ids[m]
                != '\\');
            if last < i {
                assert(ids[i] != '\\');
            }
            if i < last {
                assert(ids[last] != '\\');
            }
        }
        String::from_str(hardware_ids.substring_char(k, n))
    }
}

/// The vendor and product read from a device description: the text before
/// the first space and the text after it, or "Unknown" and the whole
/// description when it has no space.
pub open spec fn vendor_product_of(d: Seq<char>) -> (Seq<char>, Seq<char>) {
    if exists|i: int| 0 <= i < d.len() && d[i] == ' ' {
        let first = choose|i: int| 0 <= i < d.len() && d[i] == ' ' && forall|j: int| 0 <= j < i ==> d[j] != ' ';
        (d.subrange(0, first), d.subrange(first + 1, d.len() as int))
    } else {
        ("Unknown"@, d)
    }
}

/// The vendor and product read from a device description.
pub fn parse_vendor_product(description: &str) -> (r: (String, String))
    ensures
        (r.0@, r.1@) == vendor_product_of(description@),
{
    let n = description.unicode_len();
    let mut i: usize = 0;
    while i < n && description.get_char(i) != ' '
        invariant
            n == description@.len(),
            i <= n,
            forall|j: int| 0 <= j < i ==> description@[j] != ' ',
        decreases n - i,
    {
        i = i + 1;
    }
    if i == n {
        (String::from_str("Unknown"), String::from_str(description))
    } else {
        let ghost d = description@;
        proof {
            assert(d[i as int] == ' ');
            let first = choose|k: int| 0 <= k < d.len() && d[k] == ' ' && forall|j: int| 0 <= j < k ==> d[j] != ' ';
            assert(0 <= first < d.len() && d[first] == ' ' && forall|j: int| 0 <= j < first ==> d[j] != ' ');
            if first < i {
                assert(d[first] != ' ');
            }
            if i < first {
                assert(d[i as int] != ' ');
            }
        }
        (String::from_str(description.substring_char(0, i)), String::from_str(description.substring_char(i + 1, n)))
    }
}

/// The number of UTF-16 units before the terminating zero (all of them when
/// there is none).
pub open spec fn wide_len(units: Seq<u16>) -> nat
    decreases units.len(),
{
    if units.len() == 0 || units[0] == 0 {
        0
    } else {
        1 + wide_len(units.drop_first())
    }
}

/// The length of a zero-terminated UTF-16 string held in `units`.
pub fn wide_string_length(units: &[u16]) -> (len: usize)
    ensures
        len == wide_len(units@),
        len <= units@.len(),
{
    let mut i: usize = 0;
    assert(units@.subrange(0, units@.len() as int) =~= units@);
    while i < units.len() && units[i] != 0
        invariant
            i <= units@.len(),
            wide_len(units@) == i + wide_len(units@.subrange(i as int, units@.len() as int)),
        decreases units@.len() - i,
    {
        proof {
            let rest = units@.subrange(i as int, units@.len() as int);
            assert(rest.drop_first() =~= units@.subrange(i + 1, units@.len() as int));
        }
        i = i + 1;
    }
    proof {
        let rest = units@.subrange(i as int, units@.len() as int);
        assert(rest.len() == 0 || rest[0] == 0);
    }
    i
}

/// The listing entry of a disk, from what the system reports for it: the
/// device path, its friendly name, description and hardware ids when those
/// could be read, its capacity and its drive letters.
pub open spec fn device_entry(
    device_path: Seq<char>,
    friendly_name: Option<Seq<char>>,
    description: Option<Seq<char>>,
    hardware_ids: Option<Seq<char>>,
    capacity: u64,
    drive_letters: Seq<Seq<char>>,
    vid_pid: Seq<char>,
) -> UsbDeviceView {
    let ids = match hardware_ids {
        Some(h) => h,
        None => Seq::<char>::empty(),
    };
    let desc = match description {
        Some(d) => d,
        None => "USB Device"@,
    };
    UsbDeviceView {
        device_id: device_path,
        friendly_name: match friendly_name {
            Some(f) => f,
            None => "Unknown Device"@,
        },
        vendor: vendor_product_of(desc).0,
        product: vendor_product_of(desc).1,
        capacity,
        free_space: capacity,
        interface_type: interface_type_of(ids),
        device_path,
        drive_letters,
        serial_number: serial_of(ids),
        is_removable: true,
        is_mounted: drive_letters.len() > 0,
        current_file_system: None,
        partition_scheme: None,
        vid_pid,
    }
}

/// Builds the listing entry of a disk. `None` where reading the VID:PID
/// from the hardware ids would panic (see `extract_vid_pid`).
pub fn device_from_properties(
    device_path: &str,
    friendly_name: Option<String>,
    description: Option<String>,
    hardware_ids: Option<String>,
    capacity: u64,
    drive_letters: &Vec<String>,
) -> (d: Option<UsbDevice>)
    ensures
        ({
            let ids = match hardware_ids {
                Some(h) => h@,
                None => Seq::<char>::empty(),
            };
            match vid_pid_bytes(utf8(unicode_lowercase(ids))) {
                Some(code) => d matches Some(dev) && utf8(dev.vid_pid@) == code && dev@ == device_entry(
                    device_path@,
                    opt_text_view(friendly_name),
                    opt_text_view(description),
                    opt_text_view(hardware_ids),
                    capacity,
                    drive_letters@.map_values(|s: String| s@),
                    dev.vid_pid@,
                ),
                None => d is None,
            }
        }),
{
    let ids = match &hardware_ids {
        Some(h) => h.clone(),
        None => String::new(),
    };
    let vid_pid = match extract_vid_pid(ids.as_str()) {
        Some(v) => v,
        None => return None,
    };
    let desc = match &description {
        Some(t) => t.clone(),
        None => String::from_str("USB Device"),
    };
    let name = match &friendly_name {
        Some(f) => f.clone(),
        None => String::from_str("Unknown Device"),
    };
    let (vendor, product) = parse_vendor_product(desc.as_str());
    let letters = copy_texts(drive_letters);
    let mounted = drive_letters.len() > 0;
    Some(UsbDevice {
        device_id: String::from_str(device_path),
        friendly_name: name,
        vendor,
        product,
        capacity,
        free_space: capacity,
        interface_type: get_usb_interface_type(ids.as_str()),
        device_path: String::from_str(device_path),
        drive_letters: letters,
        serial_number: extract_serial_number(ids.as_str()),
        is_removable: true,
        is_mounted: mounted,
        current_file_system: None,
        partition_scheme: None,
        vid_pid,
    })
}

} // verus!
