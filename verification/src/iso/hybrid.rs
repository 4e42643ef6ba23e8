//! Hybrid ISO detection: images that are both an ISO 9660 file system and a
//! bootable disk image.

use vstd::prelude::*;
use vstd::string::StringExecFns;
use vstd::utf8::encode_utf8;
use crate::iso::image::{can_read, has_boot_signature, read_exact, IsoError};
use crate::iso::parser::cd001;
use crate::utils::text::{bytes_equal, contains_bytes, lossy_utf8, text_contains, text_from_bytes};

verus! {

/// Hybrid ISO detection result
#[derive(Debug, Clone)]
pub struct HybridIsoInfo {
    pub is_hybrid: bool,
    pub has_mbr: bool,
    pub has_gpt: bool,
    pub has_isolinux: bool,
    pub has_syslinux: bool,
    pub has_grub: bool,
    pub boot_offset: u64,
    pub iso_offset: u64,
    pub partition_count: u32,
}

/// Nothing detected.
pub open spec fn no_hybrid_info() -> HybridIsoInfo {
    HybridIsoInfo {
        is_hybrid: false,
        has_mbr: false,
        has_gpt: false,
        has_isolinux: false,
        has_syslinux: false,
        has_grub: false,
        boot_offset: 0,
        iso_offset: 0,
        partition_count: 0,
    }
}

impl Default for HybridIsoInfo {
    fn default() -> (info: Self)
        ensures
            info == no_hybrid_info(),
    {
        Self {
            is_hybrid: false,
            has_mbr: false,
            has_gpt: false,
            has_isolinux: false,
            has_syslinux: false,
            has_grub: false,
            boot_offset: 0,
            iso_offset: 0,
            partition_count: 0,
        }
    }
}

/// Partition entry `i` of an MBR sector has a non-zero type byte.
pub open spec fn entry_in_use(mbr: Seq<u8>, i: int) -> bool {
    mbr[446 + i * 16 + 4] != 0
}

/// The number of MBR partition entries whose type byte is non-zero.
pub open spec fn mbr_partition_count(mbr: Seq<u8>) -> nat {
    (if entry_in_use(mbr, 0) { 1nat } else { 0nat }) + (if entry_in_use(mbr, 1) { 1nat } else { 0nat })
        + (if entry_in_use(mbr, 2) { 1nat } else { 0nat }) + (if entry_in_use(mbr, 3) { 1nat } else { 0nat })
}

/// Count MBR partitions
pub fn count_mbr_partitions(mbr: &[u8]) -> (count: u32)
    requires
        mbr@.len() >= 499,
    ensures
        count == mbr_partition_count(mbr@),
{
    let mut count: u32 = 0;
    let mut i: usize = 0;
    while i < 4
        invariant
            i <= 4,
            mbr@.len() >= 499,
            count == (if i > 0 && entry_in_use(mbr@, 0) { 1nat } else { 0nat })
                + (if i > 1 && entry_in_use(mbr@, 1) { 1nat } else { 0nat })
                + (if i > 2 && entry_in_use(mbr@, 2) { 1nat } else { 0nat })
                + (if i > 3 && entry_in_use(mbr@, 3) { 1nat } else { 0nat }),
        decreases 4 - i,
    {
        let offset = 446 + i * 16;
        if mbr[offset + 4] != 0 {
            count = count + 1;
        }
        i = i + 1;
    }
    count
}

/// The protective-MBR entry pattern that marks a GPT disk.
pub open spec fn gpt_protective_entry() -> Seq<u8> {
    seq![0x00u8, 0x00, 0x01, 0x00, 0xEE, 0x00, 0x00, 0x00, 0x01, 0x00, 0x00, 0x00, 0xFF, 0xFF, 0xFF, 0xFF]
}

/// The 64 bytes at 0x8000, decoded as `from_utf8_lossy` does, contain one
/// of the two spellings.
pub open spec fn marker_in(h: Seq<u8>, upper: Seq<char>, lower: Seq<char>) -> bool {
    let content = encode_utf8(lossy_utf8(h.subrange(0x8000, 0x8040)));
    contains_bytes(content, encode_utf8(upper)) || contains_bytes(content, encode_utf8(lower))
}

/// Whether the bootloader marker is in the 64 bytes at 0x8000.
fn check_marker(head: &[u8], upper: &str, lower: &str) -> (r: Result<bool, IsoError>)
    ensures
        match r {
            Ok(b) => can_read(head@, 0x8000, 64) && b == marker_in(head@, upper@, lower@),
            Err(e) => !can_read(head@, 0x8000, 64) && e == IsoError::UnexpectedEof,
        },
{
    let buffer = read_exact(head, 0x8000, 64)?;
    let content = text_from_bytes(buffer);
    Ok(text_contains(content.as_str(), upper) || text_contains(content.as_str(), lower))
}

/// Check for ISOLINUX bootloader
pub fn check_for_isolinux(head: &[u8]) -> (r: Result<bool, IsoError>)
    ensures
        match r {
            Ok(b) => can_read(head@, 0x8000, 64) && b == marker_in(head@, "ISOLINUX"@, "isolinux"@),
            Err(e) => !can_read(head@, 0x8000, 64) && e == IsoError::UnexpectedEof,
        },
{
    check_marker(head, "ISOLINUX", "isolinux")
}

/// Check for SYSLINUX bootloader
pub fn check_for_syslinux(head: &[u8]) -> (r: Result<bool, IsoError>)
    ensures
        match r {
            Ok(b) => can_read(head@, 0x8000, 64) && b == marker_in(head@, "SYSLINUX"@, "syslinux"@),
            Err(e) => !can_read(head@, 0x8000, 64) && e == IsoError::UnexpectedEof,
        },
{
    check_marker(head, "SYSLINUX", "syslinux")
}

/// Check for GRUB bootloader
pub fn check_for_grub(head: &[u8]) -> (r: Result<bool, IsoError>)
    ensures
        match r {
            Ok(b) => can_read(head@, 0x8000, 64) && b == marker_in(head@, "GRUB"@, "grub"@),
            Err(e) => !can_read(head@, 0x8000, 64) && e == IsoError::UnexpectedEof,
        },
{
    check_marker(head, "GRUB", "grub")
}

/// What hybrid detection finds in an image whose first 32832 bytes are
/// available.
pub open spec fn hybrid_info_of(h: Seq<u8>) -> HybridIsoInfo {
    let has_mbr = has_boot_signature(h);
    let isolinux = marker_in(h, "ISOLINUX"@, "isolinux"@);
    let syslinux = marker_in(h, "SYSLINUX"@, "syslinux"@);
    let grub = marker_in(h, "GRUB"@, "grub"@);
    HybridIsoInfo {
        is_hybrid: has_mbr || isolinux || syslinux || grub,
        has_mbr,
        has_gpt: has_mbr && h.subrange(446, 462) == gpt_protective_entry(),
        has_isolinux: isolinux,
        has_syslinux: syslinux,
        has_grub: grub,
        boot_offset: 0,
        iso_offset: if h.subrange(32769, 32774) == cd001() { 32768 } else { 0 },
        partition_count: if has_mbr { mbr_partition_count(h) as u32 } else { 0 },
    }
}

/// The reads of the MBR sector, the ISO 9660 identifier and the bootloader
/// area need the image's first 32832 bytes.
pub open spec fn detect_hybrid_spec(h: Seq<u8>) -> Result<HybridIsoInfo, IsoError> {
    if can_read(h, 0x8000, 64) {
        Ok(hybrid_info_of(h))
    } else {
        Err(IsoError::UnexpectedEof)
    }
}

/// Detect if an ISO is a hybrid image
pub fn detect_hybrid_iso(head: &[u8]) -> (r: Result<HybridIsoInfo, IsoError>)
    ensures
        r == detect_hybrid_spec(head@),
{
    let mut info = HybridIsoInfo::default();
    let mbr_sector = read_exact(head, 0, 512)?;
    if mbr_sector[510] == 0x55 && mbr_sector[511] == 0xAA {
        info.has_mbr = true;
        info.is_hybrid = true;
        info.partition_count = count_mbr_partitions(mbr_sector);
        let pattern: [u8; 16] = [
            0x00, 0x00, 0x01, 0x00, 0xEE, 0x00, 0x00, 0x00, 0x01, 0x00, 0x00, 0x00, 0xFF, 0xFF, 0xFF, 0xFF,
        ];
        assert(pattern@ =~= gpt_protective_entry());
        assert(mbr_sector@.subrange(446, 462) =~= head@.subrange(446, 462));
        if bytes_equal(&mbr_sector[446..462], pattern.as_slice()) {
            info.has_gpt = true;
        }
        assert(mbr_partition_count(mbr_sector@) == mbr_partition_count(head@));
    }
    let iso_signature = read_exact(head, 32769, 5)?;
    let cd: [u8; 5] = [0x43, 0x44, 0x30, 0x30, 0x31];
    assert(cd@ =~= cd001());
    if bytes_equal(iso_signature, cd.as_slice()) {
        info.iso_offset = 32768;
    }
    info.has_isolinux = check_for_isolinux(head)?;
    info.has_syslinux = check_for_syslinux(head)?;
    info.has_grub = check_for_grub(head)?;
    if info.has_isolinux || info.has_syslinux || info.has_grub {
        info.is_hybrid = true;
    }
    Ok(info)
}

/// Write mode for hybrid ISOs
#[derive(Debug, Clone, Copy, PartialEq, Eq, Structural)]
pub enum HybridWriteMode {
    /// Standard ISO 9660 copy
    StandardIso,
    /// DD-style raw copy (preserves MBR/boot sectors)
    DdRaw,
    /// ISO hybrid mode (ISOLINUX/SYSLINUX)
    IsoHybrid,
}

/// The display name of each write mode.
pub open spec fn write_mode_name(m: HybridWriteMode) -> Seq<char> {
    match m {
        HybridWriteMode::StandardIso => "Standard ISO"@,
        HybridWriteMode::DdRaw => "DD Raw Copy"@,
        HybridWriteMode::IsoHybrid => "ISO Hybrid"@,
    }
}

impl HybridWriteMode {
    /// The display name.
    pub fn to_string(&self) -> (s: String)
        ensures
            s@ == write_mode_name(*self),
    {
        match self {
            HybridWriteMode::StandardIso => String::from_str("Standard ISO"),
            HybridWriteMode::DdRaw => String::from_str("DD Raw Copy"),
            HybridWriteMode::IsoHybrid => String::from_str("ISO Hybrid"),
        }
    }
}

/// The recommended mode: a raw copy whenever there is an MBR, the hybrid
/// mode for ISOLINUX/SYSLINUX images, a standard copy otherwise.
pub open spec fn recommended_write_mode(info: HybridIsoInfo) -> HybridWriteMode {
    if info.has_mbr {
        HybridWriteMode::DdRaw
    } else if info.has_isolinux || info.has_syslinux {
        HybridWriteMode::IsoHybrid
    } else {
        HybridWriteMode::StandardIso
    }
}

/// Get recommended write mode for hybrid ISO
pub fn get_recommended_write_mode(info: &HybridIsoInfo) -> (mode: HybridWriteMode)
    ensures
        mode == recommended_write_mode(*info),
{
    if info.has_mbr && info.has_gpt {
        HybridWriteMode::DdRaw
    } else if info.has_mbr {
        HybridWriteMode::DdRaw
    } else if info.has_isolinux || info.has_syslinux {
        HybridWriteMode::IsoHybrid
    } else {
        HybridWriteMode::StandardIso
    }
}

} // verus!
