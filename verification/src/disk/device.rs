//! USB device representation and the human-readable byte sizes shown for
//! devices and images.

use vstd::prelude::*;
use vstd::string::StringExecFns;
use vstd::arithmetic::div_mod::{lemma_div_denominator, lemma_fundamental_div_mod};
use crate::utils::text::{ascii_string, ascii_text, decimal_digits, is_ascii_bytes, lemma_decimal_digits_ascii, push_decimal};

verus! {

/// 2 to the power `n`.
pub open spec fn pow2(n: nat) -> nat
    decreases n,
{
    if n == 0 {
        1
    } else {
        2 * pow2((n - 1) as nat)
    }
}

/// How many low bits `n` loses when held in a 53-bit significand.
pub open spec fn dropped_bits(n: nat) -> nat
    decreases n,
{
    if n < 0x20_0000_0000_0000 {
        0
    } else {
        1 + dropped_bits(n / 2)
    }
}

/// `a / d` rounded to the nearest integer, ties to even.
pub open spec fn round_half_even(a: nat, d: nat) -> nat
    recommends
        d > 0,
{
    let q = a / d;
    let r = a % d;
    if 2 * r > d || (2 * r == d && q % 2 == 1) {
        q + 1
    } else {
        q
    }
}

/// The value of `n as f64`: `n` rounded to 53 significant bits, ties to
/// even.
pub open spec fn f64_value(n: nat) -> nat {
    let s = dropped_bits(n);
    round_half_even(n, pow2(s)) * pow2(s)
}

/// The unit a size is shown in: the largest of B, KB, MB, GB, TB that the
/// value reaches (a value of at least 1024 moves to the next unit, up to TB).
pub open spec fn unit_index(v: nat) -> nat {
    if v < 0x400 {
        0
    } else if v < 0x10_0000 {
        1
    } else if v < 0x4000_0000 {
        2
    } else if v < 0x100_0000_0000 {
        3
    } else {
        4
    }
}

/// 1024 to the power `k`.
pub open spec fn unit_divisor(k: nat) -> nat {
    if k == 0 {
        1
    } else if k == 1 {
        0x400
    } else if k == 2 {
        0x10_0000
    } else if k == 3 {
        0x4000_0000
    } else {
        0x100_0000_0000
    }
}

/// The ASCII name of unit `k`.
pub open spec fn unit_name(k: nat) -> Seq<u8> {
    if k == 0 {
        seq![0x42u8]
    } else if k == 1 {
        seq![0x4Bu8, 0x42]
    } else if k == 2 {
        seq![0x4Du8, 0x42]
    } else if k == 3 {
        seq![0x47u8, 0x42]
    } else {
        seq![0x54u8, 0x42]
    }
}

/// A count of hundredths written with two decimals: "12.34".
pub open spec fn hundredths_digits(q: nat) -> Seq<u8> {
    decimal_digits(q / 100) + seq![0x2Eu8, (48 + q / 10 % 10) as u8, (48 + q % 10) as u8]
}

/// What `format!("{:.2} {}", size, unit)` writes for `bytes`, where `size`
/// is `bytes as f64` divided by 1024 once per unit step: the exact quotient,
/// rounded to two decimals with ties to even, then the unit name.
pub open spec fn byte_size_digits(bytes: nat) -> Seq<u8> {
    let v = f64_value(bytes);
    let k = unit_index(v);
    hundredths_digits(round_half_even(v * 100, unit_divisor(k))) + seq![0x20u8] + unit_name(k)
}

/// `n as f64` as an exact integer.
fn f64_value_exec(n: u64) -> (v: u128)
    ensures
        v == f64_value(n as nat),
        v < 0x2_0000_0000_0000_0000,
{
    let mut m: u64 = n;
    let mut p: u64 = 1;
    let ghost mut s: nat = 0;
    while m >= 0x20_0000_0000_0000
        invariant
            p == pow2(s),
            m == n / p,
            p < 0x1000,
            p >= 1,
            dropped_bits(n as nat) == s + dropped_bits(m as nat),
        decreases m,
    {
        proof {
            lemma_fundamental_div_mod(n as int, p as int);
            assert(p * (n / p) <= n);
            assert(p * 0x20_0000_0000_0000 <= p * m) by (nonlinear_arith)
                requires m >= 0x20_0000_0000_0000, p >= 1;
            assert(p < 0x800);
            lemma_div_denominator(n as int, p as int, 2);
        }
        m = m / 2;
        p = p * 2;
        proof {
            s = s + 1;
        }
    }
    proof {
        lemma_fundamental_div_mod(n as int, p as int);
        assert(m * p <= n) by (nonlinear_arith)
            requires p * (n / p) <= n, m == n / p;
    }
    let rem = n - m * p;
    let half = p / 2;
    let q: u64 = if rem > half || (rem == half && p % 2 == 0 && rem * 2 == p && m % 2 == 1) {
        m + 1
    } else {
        m
    };
    proof {
        assert(rem == n % p);
        if p == 1 {
            assert(rem == 0);
        } else {
            assert(p % 2 == 0) by {
                assert(p == pow2(s));
                assert(s > 0);
            }
        }
    }
    assert((q as u128) * (p as u128) < 0x2_0000_0000_0000_0000) by (nonlinear_arith)
        requires q <= 0x20_0000_0000_0000, p < 0x1000;
    (q as u128) * (p as u128)
}


/// Hundredths, ASCII digits, a space and the unit name are ASCII.
proof fn lemma_byte_size_ascii(q: nat, k: nat)
    ensures
        is_ascii_bytes(hundredths_digits(q) + seq![0x20u8] + unit_name(k)),
{
    lemma_decimal_digits_ascii(q / 100);
    let t = hundredths_digits(q) + seq![0x20u8] + unit_name(k);
    assert forall|i: int| 0 <= i < t.len() implies #[trigger] t[i] < 128 by {
        if i < decimal_digits(q / 100).len() {
            assert(t[i] == decimal_digits(q / 100)[i]);
        }
    }
}

/// Format bytes to human-readable string
pub fn format_bytes(bytes: u64) -> (s: String)
    ensures
        s@ == ascii_text(byte_size_digits(bytes as nat)),
{
    let v = f64_value_exec(bytes);
    let (k, d): (u64, u128) = if v < 0x400 {
        (0, 1)
    } else if v < 0x10_0000 {
        (1, 0x400)
    } else if v < 0x4000_0000 {
        (2, 0x10_0000)
    } else if v < 0x100_0000_0000 {
        (3, 0x4000_0000)
    } else {
        (4, 0x100_0000_0000)
    };
    assert(k == unit_index(v as nat) && d == unit_divisor(k as nat));
    let a = v * 100;
    let quotient = a / d;
    let r = a % d;
    let q: u128 = if 2 * r > d || (2 * r == d && quotient % 2 == 1) { quotient + 1 } else { quotient };
    assert(q == round_half_even(a as nat, unit_divisor(k as nat)));
    assert(q < 0x1_0000_0000_0000_0000) by {
        if k == 0 {
            assert(a < 0x400 * 100);
        } else {
            assert(d >= 0x400);
            assert(a / d <= a / 0x400) by {
                vstd::arithmetic::div_mod::lemma_div_is_ordered_by_denominator(a as int, 0x400, d as int);
            }
        }
    }
    let q64 = q as u64;
    let mut out: Vec<u8> = Vec::new();
    push_decimal(q64 / 100, &mut out);
    out.push(0x2E);
    out.push((48 + q64 / 10 % 10) as u8);
    out.push((48 + q64 % 10) as u8);
    out.push(0x20);
    if k == 0 {
        out.push(0x42);
    } else {
        let first: u8 = if k == 1 { 0x4B } else if k == 2 { 0x4D } else if k == 3 { 0x47 } else { 0x54 };
        out.push(first);
        out.push(0x42);
    }
    proof {
        assert(out@ =~= byte_size_digits(bytes as nat));
        lemma_byte_size_ascii(q as nat, k as nat);
    }
    ascii_string(out.as_slice())
}


/// What `format!("{:.2}", size as f64 / 1024.0 / 1024.0)` writes: the
/// size in MiB with two decimals, ties to even.
pub open spec fn mib_digits(size: nat) -> Seq<u8> {
    hundredths_digits(round_half_even(f64_value(size) * 100, 0x10_0000))
}

/// The size in MiB with two decimals.
pub fn mib_text(size: u64) -> (s: String)
    ensures
        s@ == ascii_text(mib_digits(size as nat)),
{
    let v = f64_value_exec(size);
    let a = v * 100;
    let quotient = a / 0x10_0000;
    let r = a % 0x10_0000;
    let q: u128 = if 2 * r > 0x10_0000 || (2 * r == 0x10_0000 && quotient % 2 == 1) { quotient + 1 } else { quotient };
    assert(q == round_half_even(a as nat, 0x10_0000));
    assert(quotient < 0xFFFF_FFFF_FFFF_FFFF) by (nonlinear_arith)
        requires quotient == a / 0x10_0000, a == v * 100, v < 0x2_0000_0000_0000_0000;
    let q64 = q as u64;
    let mut out: Vec<u8> = Vec::new();
    push_decimal(q64 / 100, &mut out);
    out.push(0x2E);
    out.push((48 + q64 / 10 % 10) as u8);
    out.push((48 + q64 % 10) as u8);
    proof {
        assert(out@ =~= mib_digits(size as nat));
        lemma_decimal_digits_ascii(q as nat / 100);
        assert forall|i: int| 0 <= i < out@.len() implies #[trigger] out@[i] < 128 by {
            if i < decimal_digits(q as nat / 100).len() {
                assert(out@[i] == decimal_digits(q as nat / 100)[i]);
            }
        }
    }
    ascii_string(out.as_slice())
}

/// USB storage device information
#[derive(Debug, Clone)]
pub struct UsbDevice {
    /// Unique device identifier (e.g., "\\\\.\\PhysicalDrive1")
    pub device_id: String,
    /// User-friendly name
    pub friendly_name: String,
    /// Vendor name
    pub vendor: String,
    /// Product/model name
    pub product: String,
    /// Total capacity in bytes
    pub capacity: u64,
    /// Available free space in bytes
    pub free_space: u64,
    /// Interface type (USB 2.0, USB 3.0, etc.)
    pub interface_type: String,
    /// Device path for I/O operations
    pub device_path: String,
    /// Drive letter(s) if mounted
    pub drive_letters: Vec<String>,
    /// Serial number
    pub serial_number: String,
    /// Whether the device is removable
    pub is_removable: bool,
    /// Whether the device is currently mounted
    pub is_mounted: bool,
    /// Current file system
    pub current_file_system: Option<String>,
    /// Partition scheme (MBR/GPT/Unknown)
    pub partition_scheme: Option<String>,
    /// VID:PID string
    pub vid_pid: String,
}

/// The contents of a `UsbDevice`, with texts as character sequences.
pub struct UsbDeviceView {
    pub device_id: Seq<char>,
    pub friendly_name: Seq<char>,
    pub vendor: Seq<char>,
    pub product: Seq<char>,
    pub capacity: u64,
    pub free_space: u64,
    pub interface_type: Seq<char>,
    pub device_path: Seq<char>,
    pub drive_letters: Seq<Seq<char>>,
    pub serial_number: Seq<char>,
    pub is_removable: bool,
    pub is_mounted: bool,
    pub current_file_system: Option<Seq<char>>,
    pub partition_scheme: Option<Seq<char>>,
    pub vid_pid: Seq<char>,
}

/// The view of an optional text.
pub open spec fn opt_text_view(s: Option<String>) -> Option<Seq<char>> {
    match s {
        Some(t) => Some(t@),
        None => None,
    }
}

impl View for UsbDevice {
    type V = UsbDeviceView;

    open spec fn view(&self) -> UsbDeviceView {
        UsbDeviceView {
            device_id: self.device_id@,
            friendly_name: self.friendly_name@,
            vendor: self.vendor@,
            product: self.product@,
            capacity: self.capacity,
            free_space: self.free_space,
            interface_type: self.interface_type@,
            device_path: self.device_path@,
            drive_letters: self.drive_letters@.map_values(|s: String| s@),
            serial_number: self.serial_number@,
            is_removable: self.is_removable,
            is_mounted: self.is_mounted,
            current_file_system: opt_text_view(self.current_file_system),
            partition_scheme: opt_text_view(self.partition_scheme),
            vid_pid: self.vid_pid@,
        }
    }
}

/// The contents of a device list.
pub open spec fn devices_view(devices: Seq<UsbDevice>) -> Seq<UsbDeviceView> {
    devices.map_values(|d: UsbDevice| d@)
}

/// A copy of an optional text.
pub fn copy_opt_text(s: &Option<String>) -> (r: Option<String>)
    ensures
        opt_text_view(r) == opt_text_view(*s),
{
    match s {
        Some(t) => Some(t.clone()),
        None => None,
    }
}

/// A copy of a list of texts.
pub fn copy_texts(v: &Vec<String>) -> (r: Vec<String>)
    ensures
        r@.map_values(|s: String| s@) == v@.map_values(|s: String| s@),
{
    let mut r: Vec<String> = Vec::new();
    let mut i: usize = 0;
    while i < v.len()
        invariant
            i <= v@.len(),
            r@.len() == i,
            forall|j: int| 0 <= j < i ==> #[trigger] r@[j]@ == v@[j]@,
        decreases v@.len() - i,
    {
        r.push(v[i].clone());
        i = i + 1;
    }
    assert(r@.map_values(|s: String| s@) =~= v@.map_values(|s: String| s@));
    r
}

impl UsbDevice {
    /// A copy with the same contents.
    pub fn duplicate(&self) -> (r: Self)
        ensures
            r@ == self@,
    {
        UsbDevice {
            device_id: self.device_id.clone(),
            friendly_name: self.friendly_name.clone(),
            vendor: self.vendor.clone(),
            product: self.product.clone(),
            capacity: self.capacity,
            free_space: self.free_space,
            interface_type: self.interface_type.clone(),
            device_path: self.device_path.clone(),
            drive_letters: copy_texts(&self.drive_letters),
            serial_number: self.serial_number.clone(),
            is_removable: self.is_removable,
            is_mounted: self.is_mounted,
            current_file_system: copy_opt_text(&self.current_file_system),
            partition_scheme: copy_opt_text(&self.partition_scheme),
            vid_pid: self.vid_pid.clone(),
        }
    }
}

/// A copy of a device list with the same contents.
pub fn copy_devices(v: &Vec<UsbDevice>) -> (r: Vec<UsbDevice>)
    ensures
        devices_view(r@) == devices_view(v@),
{
    let mut r: Vec<UsbDevice> = Vec::new();
    let mut i: usize = 0;
    while i < v.len()
        invariant
            i <= v@.len(),
            r@.len() == i,
            forall|j: int| 0 <= j < i ==> #[trigger] r@[j]@ == v@[j]@,
        decreases v@.len() - i,
    {
        r.push(v[i].duplicate());
        i = i + 1;
    }
    assert(devices_view(r@) =~= devices_view(v@));
    r
}

/// The human-readable form of a byte count.
pub open spec fn byte_size_text(bytes: u64) -> Seq<char> {
    ascii_text(byte_size_digits(bytes as nat))
}

/// "name - id (capacity - interface)".
pub open spec fn summary_text(name: Seq<char>, id: Seq<char>, capacity: Seq<char>, interface: Seq<char>) -> Seq<char> {
    name + " - "@ + id + " ("@ + capacity + " - "@ + interface + ")"@
}

impl UsbDevice {
    /// Format capacity as human-readable string
    pub fn capacity_display(&self) -> (s: String)
        ensures
            s@ == byte_size_text(self.capacity),
    {
        format_bytes(self.capacity)
    }

    /// Format free space as human-readable string
    pub fn free_space_display(&self) -> (s: String)
        ensures
            s@ == byte_size_text(self.free_space),
    {
        format_bytes(self.free_space)
    }

    /// Get a summary string for display
    pub fn display_summary(&self) -> (s: String)
        ensures
            s@ == summary_text(self.friendly_name@, self.device_id@, byte_size_text(self.capacity), self.interface_type@),
    {
        let capacity = self.capacity_display();
        let mut s = self.friendly_name.clone();
        s.append(" - ");
        s.append(self.device_id.as_str());
        s.append(" (");
        s.append(capacity.as_str());
        s.append(" - ");
        s.append(self.interface_type.as_str());
        s.append(")");
        s
    }
}

/// Device capability information
#[derive(Debug, Clone)]
pub struct DeviceCapabilities {
    pub supports_usb_boot: bool,
    pub supports_efi_boot: bool,
    pub max_partition_count: u32,
    pub sector_size: u32,
    pub physical_sector_size: u32,
}

impl Default for DeviceCapabilities {
    fn default() -> (c: Self)
        ensures
            c.supports_usb_boot,
            c.supports_efi_boot,
            c.max_partition_count == 4,
            c.sector_size == 512,
            c.physical_sector_size == 512,
    {
        Self {
            supports_usb_boot: true,
            supports_efi_boot: true,
            max_partition_count: 4,
            sector_size: 512,
            physical_sector_size: 512,
        }
    }
}

} // verus!
