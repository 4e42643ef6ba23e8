//! ISO image parsing: image type detection and the metadata of ISO 9660,
//! raw disk (IMG), UDF and unrecognised images.

use vstd::prelude::*;
use vstd::string::StringExecFns;
use crate::iso::image::{can_read, has_boot_signature, read_exact, read_count, IsoError};
use crate::disk::device::{byte_size_text, copy_opt_text, copy_texts, format_bytes};
use crate::utils::text::{bytes_equal, lossy_utf8, text_from_bytes, trim_end_chars, trim_end_text};

verus! {

/// ISO image type
#[derive(Debug, Clone, Copy, PartialEq, Eq, Structural)]
pub enum IsoType {
    Iso9660,
    HybridIso,
    Img,
    Udf,
    Unknown,
}

/// The display name of each image type.
pub open spec fn iso_type_name(t: IsoType) -> Seq<char> {
    match t {
        IsoType::Iso9660 => "ISO 9660"@,
        IsoType::HybridIso => "Hybrid ISO"@,
        IsoType::Img => "IMG/Raw Image"@,
        IsoType::Udf => "UDF"@,
        IsoType::Unknown => "Unknown"@,
    }
}

impl IsoType {
    /// The display name.
    pub fn to_string(&self) -> (s: String)
        ensures
            s@ == iso_type_name(*self),
    {
        match self {
            IsoType::Iso9660 => String::from_str("ISO 9660"),
            IsoType::HybridIso => String::from_str("Hybrid ISO"),
            IsoType::Img => String::from_str("IMG/Raw Image"),
            IsoType::Udf => String::from_str("UDF"),
            IsoType::Unknown => String::from_str("Unknown"),
        }
    }
}

/// ISO image information
#[derive(Debug, Clone)]
pub struct IsoInfo {
    /// Volume label
    pub label: String,
    /// Total size in bytes
    pub size: u64,
    /// ISO type
    pub iso_type: IsoType,
    /// Bootable status
    pub is_bootable: bool,
    /// Boot mode support
    pub boot_modes: Vec<String>,
    /// File system type
    pub file_system: String,
    /// Creation date
    pub creation_date: String,
    /// Publisher
    pub publisher: String,
    /// Architecture (x86, x64, ARM, etc.)
    pub architecture: String,
    /// Has UEFI boot
    pub has_uefi_boot: bool,
    /// Has BIOS boot
    pub has_bios_boot: bool,
    /// El Torito boot catalog present
    pub has_eltorito: bool,
    /// Hybrid ISO (ISO + USB image)
    pub is_hybrid: bool,
    /// MD5 hash (optional)
    pub md5_hash: Option<String>,
    /// SHA1 hash (optional)
    pub sha1_hash: Option<String>,
    /// SHA256 hash (optional)
    pub sha256_hash: Option<String>,
    /// Estimated write time (seconds)
    pub estimated_write_time: u64,
}

/// The contents of an `IsoInfo`, with texts as character sequences.
pub struct IsoInfoView {
    pub label: Seq<char>,
    pub size: u64,
    pub iso_type: IsoType,
    pub is_bootable: bool,
    pub boot_modes: Seq<Seq<char>>,
    pub file_system: Seq<char>,
    pub creation_date: Seq<char>,
    pub publisher: Seq<char>,
    pub architecture: Seq<char>,
    pub has_uefi_boot: bool,
    pub has_bios_boot: bool,
    pub has_eltorito: bool,
    pub is_hybrid: bool,
    pub md5_hash: Option<Seq<char>>,
    pub sha1_hash: Option<Seq<char>>,
    pub sha256_hash: Option<Seq<char>>,
    pub estimated_write_time: u64,
}

/// The view of an optional text.
pub open spec fn opt_text(s: Option<String>) -> Option<Seq<char>> {
    match s {
        Some(t) => Some(t@),
        None => None,
    }
}

/// The views of a list of texts.
pub open spec fn texts(v: Seq<String>) -> Seq<Seq<char>> {
    v.map_values(|s: String| s@)
}

impl View for IsoInfo {
    type V = IsoInfoView;

    open spec fn view(&self) -> IsoInfoView {
        IsoInfoView {
            label: self.label@,
            size: self.size,
            iso_type: self.iso_type,
            is_bootable: self.is_bootable,
            boot_modes: texts(self.boot_modes@),
            file_system: self.file_system@,
            creation_date: self.creation_date@,
            publisher: self.publisher@,
            architecture: self.architecture@,
            has_uefi_boot: self.has_uefi_boot,
            has_bios_boot: self.has_bios_boot,
            has_eltorito: self.has_eltorito,
            is_hybrid: self.is_hybrid,
            md5_hash: opt_text(self.md5_hash),
            sha1_hash: opt_text(self.sha1_hash),
            sha256_hash: opt_text(self.sha256_hash),
            estimated_write_time: self.estimated_write_time,
        }
    }
}

impl IsoInfo {
    /// A copy with the same contents.
    pub fn duplicate(&self) -> (r: Self)
        ensures
            r@ == self@,
    {
        let boot_modes = copy_texts(&self.boot_modes);
        let md5_hash = copy_opt_text(&self.md5_hash);
        let sha1_hash = copy_opt_text(&self.sha1_hash);
        let sha256_hash = copy_opt_text(&self.sha256_hash);
        let r = IsoInfo {
            label: self.label.clone(),
            size: self.size,
            iso_type: self.iso_type,
            is_bootable: self.is_bootable,
            boot_modes,
            file_system: self.file_system.clone(),
            creation_date: self.creation_date.clone(),
            publisher: self.publisher.clone(),
            architecture: self.architecture.clone(),
            has_uefi_boot: self.has_uefi_boot,
            has_bios_boot: self.has_bios_boot,
            has_eltorito: self.has_eltorito,
            is_hybrid: self.is_hybrid,
            md5_hash,
            sha1_hash,
            sha256_hash,
            estimated_write_time: self.estimated_write_time,
        };
        assert(opt_text(r.md5_hash) == opt_text(self.md5_hash));
        r
    }
}

/// The ISO 9660 standard identifier "CD001".
pub open spec fn cd001() -> Seq<u8> {
    seq![0x43u8, 0x44, 0x30, 0x30, 0x31]
}

/// The UDF beginning-extended-area identifier "BEA01".
pub open spec fn bea01() -> Seq<u8> {
    seq![0x42u8, 0x45, 0x41, 0x30, 0x31]
}

/// The UDF NSR descriptor prefix "NSR".
pub open spec fn nsr() -> Seq<u8> {
    seq![0x4Eu8, 0x53, 0x52]
}

/// The El Torito boot system identifier: "EL TORITO SPECIFICATION" padded
/// with zeros to the 32 bytes of the field.
pub open spec fn eltorito_id() -> Seq<u8> {
    seq![
        0x45u8, 0x4C, 0x20, 0x54, 0x4F, 0x52, 0x49, 0x54, 0x4F, 0x20, 0x53, 0x50, 0x45, 0x43,
        0x49, 0x46, 0x49, 0x43, 0x41, 0x54, 0x49, 0x4F, 0x4E, 0, 0, 0, 0, 0, 0, 0, 0, 0,
    ]
}

/// "EFI PART"
pub open spec fn efi_part() -> Seq<u8> {
    seq![0x45u8, 0x46, 0x49, 0x20, 0x50, 0x41, 0x52, 0x54]
}

/// Image type detection, step by step as the reads happen: fewer than 8
/// bytes is `Unknown`; an image that ends before the end of the ISO 9660
/// standard identifier "CD001" (bytes 32769..32774, after the descriptor
/// type byte of sector 16) fails; then ISO 9660 (hybrid when sector 0 carries
/// the boot signature), UDF, a raw image with a boot signature, or unknown.
pub open spec fn detect_iso_type_spec(h: Seq<u8>) -> Result<IsoType, IsoError> {
    if read_count(h, 0, 32768) < 8 {
        Ok(IsoType::Unknown)
    } else if !can_read(h, 32769, 5) {
        Err(IsoError::UnexpectedEof)
    } else if h.subrange(32769, 32774) == cd001() {
        if has_boot_signature(h) {
            Ok(IsoType::HybridIso)
        } else {
            Ok(IsoType::Iso9660)
        }
    } else if h.subrange(0, 5) == bea01() || h.subrange(0, 3) == nsr() {
        Ok(IsoType::Udf)
    } else if has_boot_signature(h) {
        Ok(IsoType::Img)
    } else {
        Ok(IsoType::Unknown)
    }
}

/// Detect the type of ISO image
pub fn detect_iso_type(head: &[u8]) -> (r: Result<IsoType, IsoError>)
    ensures
        r == detect_iso_type_spec(head@),
{
    let available = if head.len() < 32768 { head.len() } else { 32768 };
    if available < 8 {
        return Ok(IsoType::Unknown);
    }
    let iso_signature = read_exact(head, 32769, 5)?;
    if bytes_equal(iso_signature, &[0x43, 0x44, 0x30, 0x30, 0x31]) {
        assert(seq![0x43u8, 0x44, 0x30, 0x30, 0x31] =~= cd001());
        // The whole image is at least 32774 bytes here, so the two reads at
        // 0x8000 and at 510 both return two bytes.
        if head[510] == 0x55 && head[511] == 0xAA {
            return Ok(IsoType::HybridIso);
        }
        return Ok(IsoType::Iso9660);
    }
    assert(seq![0x43u8, 0x44, 0x30, 0x30, 0x31] =~= cd001());
    let udf_check = &head[0..8];
    assert(udf_check@.subrange(0, 5) =~= head@.subrange(0, 5));
    assert(udf_check@.subrange(0, 3) =~= head@.subrange(0, 3));
    if bytes_equal(&udf_check[0..5], &[0x42, 0x45, 0x41, 0x30, 0x31]) || bytes_equal(
        &udf_check[0..3],
        &[0x4E, 0x53, 0x52],
    ) {
        assert(seq![0x42u8, 0x45, 0x41, 0x30, 0x31] =~= bea01());
        assert(seq![0x4Eu8, 0x53, 0x52] =~= nsr());
        return Ok(IsoType::Udf);
    }
    assert(seq![0x42u8, 0x45, 0x41, 0x30, 0x31] =~= bea01());
    assert(seq![0x4Eu8, 0x53, 0x52] =~= nsr());
    if head[510] == 0x55 && head[511] == 0xAA {
        return Ok(IsoType::Img);
    }
    Ok(IsoType::Unknown)
}


/// Whether one of the texts equals `s`.
pub fn texts_contain(v: &Vec<String>, s: &str) -> (r: bool)
    ensures
        r == texts(v@).contains(s@),
{
    let mut i: usize = 0;
    while i < v.len()
        invariant
            i <= v@.len(),
            forall|j: int| 0 <= j < i ==> v@[j]@ != s@,
        decreases v@.len() - i,
    {
        let t = String::from_str(s);
        if v[i] == t {
            assert(texts(v@)[i as int] == s@);
            return true;
        }
        i = i + 1;
    }
    proof {
        if texts(v@).contains(s@) {
            let k = choose|k: int| 0 <= k < texts(v@).len() && texts(v@)[k] == s@;
            assert(v@[k]@ == s@);
        }
    }
    false
}

/// A text field of a volume descriptor: decoded as `from_utf8_lossy` does
/// and stripped of trailing whitespace.
pub open spec fn descriptor_text(field: Seq<u8>) -> Seq<char> {
    trim_end_chars(lossy_utf8(field))
}

/// `t`, or `default` when `t` is empty.
pub open spec fn or_default(t: Seq<char>, default: Seq<char>) -> Seq<char> {
    if t.len() == 0 {
        default
    } else {
        t
    }
}

/// Decodes and trims a descriptor text field.
fn descriptor_text_exec(field: &[u8]) -> (s: String)
    ensures
        s@ == descriptor_text(field@),
{
    let decoded = text_from_bytes(field);
    trim_end_text(decoded.as_str())
}

/// The El Torito test: the boot system identifier, bytes 7..39 of the boot
/// record volume descriptor (sector 17), is the El Torito one.
pub open spec fn eltorito_matches(h: Seq<u8>) -> bool {
    h.subrange(34823, 34855) == eltorito_id()
}

/// The boot record at sector 17 carries the El Torito identifier.
pub open spec fn check_eltorito_boot_spec(h: Seq<u8>) -> Result<bool, IsoError> {
    if can_read(h, 34816, 2048) {
        Ok(eltorito_matches(h))
    } else {
        Err(IsoError::UnexpectedEof)
    }
}

/// Check for El Torito boot catalog
pub fn check_eltorito_boot(head: &[u8]) -> (r: Result<bool, IsoError>)
    ensures
        r == check_eltorito_boot_spec(head@),
{
    let boot_record = read_exact(head, 34816, 2048)?;
    let signature = &boot_record[7..39];
    assert(signature@ =~= head@.subrange(34823, 34855));
    let id: [u8; 32] = [
        0x45, 0x4C, 0x20, 0x54, 0x4F, 0x52, 0x49, 0x54, 0x4F, 0x20, 0x53, 0x50, 0x45, 0x43,
        0x49, 0x46, 0x49, 0x43, 0x41, 0x54, 0x49, 0x4F, 0x4E, 0, 0, 0, 0, 0, 0, 0, 0, 0,
    ];
    assert(id@ =~= eltorito_id());
    Ok(bytes_equal(signature, id.as_slice()))
}

/// The first MBR partition entry has type 0xEF (EFI System Partition).
pub open spec fn check_uefi_boot_spec(h: Seq<u8>) -> Result<bool, IsoError> {
    if can_read(h, 446, 16) {
        Ok(h[450] == 0xEF)
    } else {
        Err(IsoError::UnexpectedEof)
    }
}

/// Check for UEFI boot files
pub fn check_uefi_boot(head: &[u8]) -> (r: Result<bool, IsoError>)
    ensures
        r == check_uefi_boot_spec(head@),
{
    let partition_entry = read_exact(head, 446, 16)?;
    Ok(partition_entry[4] == 0xEF)
}

/// The first sector ends with the boot signature.
pub open spec fn check_bios_boot_spec(h: Seq<u8>) -> Result<bool, IsoError> {
    if can_read(h, 0, 512) {
        Ok(has_boot_signature(h))
    } else {
        Err(IsoError::UnexpectedEof)
    }
}

/// Check for BIOS boot
pub fn check_bios_boot(head: &[u8]) -> (r: Result<bool, IsoError>)
    ensures
        r == check_bios_boot_spec(head@),
{
    let mbr = read_exact(head, 0, 512)?;
    Ok(mbr[510] == 0x55 && mbr[511] == 0xAA)
}

/// Sector 1 begins with the GPT signature "EFI PART".
pub open spec fn check_efi_partition_spec(h: Seq<u8>) -> Result<bool, IsoError> {
    if can_read(h, 512, 8) {
        Ok(h.subrange(512, 520) == efi_part())
    } else {
        Err(IsoError::UnexpectedEof)
    }
}

/// Check for EFI partition
pub fn check_efi_partition(head: &[u8]) -> (r: Result<bool, IsoError>)
    ensures
        r == check_efi_partition_spec(head@),
{
    let gpt_header = read_exact(head, 512, 8)?;
    let sig: [u8; 8] = [0x45, 0x46, 0x49, 0x20, 0x50, 0x41, 0x52, 0x54];
    assert(sig@ =~= efi_part());
    Ok(bytes_equal(gpt_header, sig.as_slice()))
}

/// The architecture guessed from the first bytes: an x86 jump (0xEB or
/// 0xE9) or anything else gives "x86/x64", the ARM branch pattern
/// 00 00 00 EA gives "ARM".
pub open spec fn architecture_of(h: Seq<u8>) -> Seq<char> {
    if h[0] == 0xEB || h[0] == 0xE9 {
        "x86/x64"@
    } else if h.subrange(0, 4) == seq![0x00u8, 0x00, 0x00, 0xEA] {
        "ARM"@
    } else {
        "x86/x64"@
    }
}

/// Detect architecture from boot files
pub fn detect_architecture(head: &[u8]) -> (r: Result<String, IsoError>)
    ensures
        match r {
            Ok(a) => can_read(head@, 0, 64) && a@ == architecture_of(head@),
            Err(e) => !can_read(head@, 0, 64) && e == IsoError::UnexpectedEof,
        },
{
    let header = read_exact(head, 0, 64)?;
    if header[0] == 0xEB || header[0] == 0xE9 {
        return Ok(String::from_str("x86/x64"));
    }
    let arm: [u8; 4] = [0x00, 0x00, 0x00, 0xEA];
    assert(header@.subrange(0, 4) =~= head@.subrange(0, 4));
    assert(arm@ =~= seq![0x00u8, 0x00, 0x00, 0xEA]);
    if bytes_equal(&header[0..4], arm.as_slice()) {
        return Ok(String::from_str("ARM"));
    }
    Ok(String::from_str("x86/x64"))
}

/// The boot modes listed for the detected boot methods, in the order they
/// are checked.
pub open spec fn boot_modes_of(eltorito: bool, uefi: bool, bios: bool) -> Seq<Seq<char>> {
    (if eltorito { seq!["El Torito"@] } else { seq![] }) + (if uefi { seq!["UEFI"@] } else { seq![] })
        + (if bios { seq!["BIOS"@] } else { seq![] })
}

/// The estimated write time in seconds at 10 MiB/s.
pub open spec fn write_time_estimate(size: u64) -> u64 {
    (size / 10485760) as u64
}

/// The information of an ISO 9660 image whose first 36864 bytes are
/// available.
pub open spec fn iso9660_view(h: Seq<u8>, size: u64, iso_type: IsoType) -> IsoInfoView {
    let eltorito = eltorito_matches(h);
    let uefi = h[450] == 0xEF;
    let bios = has_boot_signature(h);
    IsoInfoView {
        label: or_default(descriptor_text(h.subrange(32808, 32840)), "NO_LABEL"@),
        size,
        iso_type,
        is_bootable: eltorito,
        boot_modes: boot_modes_of(eltorito, uefi, bios),
        file_system: "ISO 9660"@,
        creation_date: or_default(descriptor_text(h.subrange(33581, 33599)), "Unknown"@),
        publisher: or_default(descriptor_text(h.subrange(33086, 33214)), "Unknown"@),
        architecture: architecture_of(h),
        has_uefi_boot: uefi,
        has_bios_boot: bios,
        has_eltorito: eltorito,
        is_hybrid: iso_type == IsoType::HybridIso,
        md5_hash: None,
        sha1_hash: None,
        sha256_hash: None,
        estimated_write_time: write_time_estimate(size),
    }
}

/// The reads of the primary volume descriptor (sector 16) and of the
/// boot record (sector 17) need the image's first 36864 bytes.
pub open spec fn parse_iso9660_spec(h: Seq<u8>, size: u64, iso_type: IsoType) -> Result<IsoInfoView, IsoError> {
    if can_read(h, 34816, 2048) {
        Ok(iso9660_view(h, size, iso_type))
    } else {
        Err(IsoError::UnexpectedEof)
    }
}

/// Texts that the boot mode list names.
proof fn lemma_boot_mode_names()
    ensures
        "El Torito"@ != "UEFI"@,
        "El Torito"@ != "BIOS"@,
        "UEFI"@ != "BIOS"@,
{
    reveal_strlit("El Torito");
    reveal_strlit("UEFI");
    reveal_strlit("BIOS");
    assert("UEFI"@[0] != "BIOS"@[0]);
}

/// Parse ISO 9660 file system
pub fn parse_iso9660(head: &[u8], size: u64, iso_type: IsoType) -> (r: Result<IsoInfo, IsoError>)
    ensures
        match r {
            Ok(info) => parse_iso9660_spec(head@, size, iso_type) == Ok::<IsoInfoView, IsoError>(info@),
            Err(e) => parse_iso9660_spec(head@, size, iso_type) == Err::<IsoInfoView, IsoError>(e),
        },
{
    let pvd = read_exact(head, 32768, 2048)?;
    let label = descriptor_text_exec(&pvd[40..72]);
    let publisher = descriptor_text_exec(&pvd[318..446]);
    let creation_date = descriptor_text_exec(&pvd[813..831]);
    assert(pvd@.subrange(40, 72) =~= head@.subrange(32808, 32840));
    assert(pvd@.subrange(318, 446) =~= head@.subrange(33086, 33214));
    assert(pvd@.subrange(813, 831) =~= head@.subrange(33581, 33599));

    let mut is_bootable = false;
    let mut has_uefi_boot = false;
    let mut has_bios_boot = false;
    let mut has_eltorito = false;
    let mut boot_modes: Vec<String> = Vec::new();
    proof {
        lemma_boot_mode_names();
    }

    if check_eltorito_boot(head)? {
        is_bootable = true;
        has_eltorito = true;
        boot_modes.push(String::from_str("El Torito"));
    }
    let ghost after_eltorito = texts(boot_modes@);
    assert(after_eltorito =~= if has_eltorito { seq!["El Torito"@] } else { seq![] });

    if check_uefi_boot(head)? {
        has_uefi_boot = true;
        if !texts_contain(&boot_modes, "UEFI") {
            boot_modes.push(String::from_str("UEFI"));
        }
    }
    assert(texts(boot_modes@) =~= after_eltorito + (if has_uefi_boot { seq!["UEFI"@] } else { seq![] }));
    let ghost after_uefi = texts(boot_modes@);

    if check_bios_boot(head)? {
        has_bios_boot = true;
        if !texts_contain(&boot_modes, "BIOS") {
            boot_modes.push(String::from_str("BIOS"));
        }
    }
    assert(texts(boot_modes@) =~= after_uefi + (if has_bios_boot { seq!["BIOS"@] } else { seq![] }));

    let architecture = detect_architecture(head)?;
    let estimated_write_time = size / (10 * 1024 * 1024);

    let info = IsoInfo {
        label: if label.as_str().is_empty() { String::from_str("NO_LABEL") } else { label },
        size,
        iso_type,
        is_bootable,
        boot_modes,
        file_system: String::from_str("ISO 9660"),
        creation_date: if creation_date.as_str().is_empty() { String::from_str("Unknown") } else { creation_date },
        publisher: if publisher.as_str().is_empty() { String::from_str("Unknown") } else { publisher },
        architecture,
        has_uefi_boot,
        has_bios_boot,
        has_eltorito,
        is_hybrid: iso_type == IsoType::HybridIso,
        md5_hash: None,
        sha1_hash: None,
        sha256_hash: None,
        estimated_write_time,
    };
    assert(info@ == iso9660_view(head@, size, iso_type));
    Ok(info)
}


/// The information of a raw disk image.
pub open spec fn img_view(h: Seq<u8>, size: u64) -> IsoInfoView {
    let bios = has_boot_signature(h);
    let uefi = h.subrange(512, 520) == efi_part();
    IsoInfoView {
        label: "IMG_IMAGE"@,
        size,
        iso_type: IsoType::Img,
        is_bootable: bios,
        boot_modes: (if bios { seq!["BIOS"@] } else { seq![] }) + (if uefi { seq!["UEFI"@] } else { seq![] }),
        file_system: "Raw Image"@,
        creation_date: "Unknown"@,
        publisher: "Unknown"@,
        architecture: "Unknown"@,
        has_uefi_boot: uefi,
        has_bios_boot: bios,
        has_eltorito: false,
        is_hybrid: false,
        md5_hash: None,
        sha1_hash: None,
        sha256_hash: None,
        estimated_write_time: write_time_estimate(size),
    }
}

/// Reading the MBR and the GPT signature needs the first 520 bytes.
pub open spec fn parse_img_spec(h: Seq<u8>, size: u64) -> Result<IsoInfoView, IsoError> {
    if can_read(h, 0, 520) {
        Ok(img_view(h, size))
    } else {
        Err(IsoError::UnexpectedEof)
    }
}

/// Parse raw IMG file
pub fn parse_img(head: &[u8], size: u64) -> (r: Result<IsoInfo, IsoError>)
    ensures
        match r {
            Ok(info) => parse_img_spec(head@, size) == Ok::<IsoInfoView, IsoError>(info@),
            Err(e) => parse_img_spec(head@, size) == Err::<IsoInfoView, IsoError>(e),
        },
{
    let mbr = read_exact(head, 0, 512)?;
    let is_bootable = mbr[510] == 0x55 && mbr[511] == 0xAA;
    let mut boot_modes: Vec<String> = Vec::new();
    let mut has_uefi_boot = false;
    let mut has_bios_boot = false;
    if is_bootable {
        boot_modes.push(String::from_str("BIOS"));
        has_bios_boot = true;
    }
    let ghost after_bios = texts(boot_modes@);
    assert(after_bios =~= if is_bootable { seq!["BIOS"@] } else { seq![] });
    if check_efi_partition(head)? {
        has_uefi_boot = true;
        boot_modes.push(String::from_str("UEFI"));
    }
    assert(texts(boot_modes@) =~= after_bios + (if has_uefi_boot { seq!["UEFI"@] } else { seq![] }));
    let estimated_write_time = size / (10 * 1024 * 1024);
    let info = IsoInfo {
        label: String::from_str("IMG_IMAGE"),
        size,
        iso_type: IsoType::Img,
        is_bootable,
        boot_modes,
        file_system: String::from_str("Raw Image"),
        creation_date: String::from_str("Unknown"),
        publisher: String::from_str("Unknown"),
        architecture: String::from_str("Unknown"),
        has_uefi_boot,
        has_bios_boot,
        has_eltorito: false,
        is_hybrid: false,
        md5_hash: None,
        sha1_hash: None,
        sha256_hash: None,
        estimated_write_time,
    };
    assert(info@ == img_view(head@, size));
    Ok(info)
}

/// The information given for an image that is not inspected further.
pub open spec fn plain_view(size: u64, iso_type: IsoType, label: Seq<char>, file_system: Seq<char>) -> IsoInfoView {
    IsoInfoView {
        label,
        size,
        iso_type,
        is_bootable: false,
        boot_modes: seq![],
        file_system,
        creation_date: "Unknown"@,
        publisher: "Unknown"@,
        architecture: "Unknown"@,
        has_uefi_boot: false,
        has_bios_boot: false,
        has_eltorito: false,
        is_hybrid: false,
        md5_hash: None,
        sha1_hash: None,
        sha256_hash: None,
        estimated_write_time: write_time_estimate(size),
    }
}

/// Parse UDF file system
pub fn parse_udf(size: u64) -> (info: IsoInfo)
    ensures
        info@ == plain_view(size, IsoType::Udf, "UDF_VOLUME"@, "UDF"@),
{
    let info = IsoInfo {
        label: String::from_str("UDF_VOLUME"),
        size,
        iso_type: IsoType::Udf,
        is_bootable: false,
        boot_modes: Vec::new(),
        file_system: String::from_str("UDF"),
        creation_date: String::from_str("Unknown"),
        publisher: String::from_str("Unknown"),
        architecture: String::from_str("Unknown"),
        has_uefi_boot: false,
        has_bios_boot: false,
        has_eltorito: false,
        is_hybrid: false,
        md5_hash: None,
        sha1_hash: None,
        sha256_hash: None,
        estimated_write_time: size / (10 * 1024 * 1024),
    };
    assert(texts(info.boot_modes@) =~= Seq::<Seq<char>>::empty());
    assert(info@ == plain_view(size, IsoType::Udf, "UDF_VOLUME"@, "UDF"@));
    info
}

/// Parse unknown image type
pub fn parse_unknown(size: u64) -> (info: IsoInfo)
    ensures
        info@ == plain_view(size, IsoType::Unknown, "UNKNOWN"@, "Unknown"@),
{
    let info = IsoInfo {
        label: String::from_str("UNKNOWN"),
        size,
        iso_type: IsoType::Unknown,
        is_bootable: false,
        boot_modes: Vec::new(),
        file_system: String::from_str("Unknown"),
        creation_date: String::from_str("Unknown"),
        publisher: String::from_str("Unknown"),
        architecture: String::from_str("Unknown"),
        has_uefi_boot: false,
        has_bios_boot: false,
        has_eltorito: false,
        is_hybrid: false,
        md5_hash: None,
        sha1_hash: None,
        sha256_hash: None,
        estimated_write_time: size / (10 * 1024 * 1024),
    };
    assert(texts(info.boot_modes@) =~= Seq::<Seq<char>>::empty());
    assert(info@ == plain_view(size, IsoType::Unknown, "UNKNOWN"@, "Unknown"@));
    info
}

/// What parsing an image gives: its type, then the information for it.
pub open spec fn parse_iso_spec(h: Seq<u8>, size: u64) -> Result<IsoInfoView, IsoError> {
    match detect_iso_type_spec(h) {
        Err(e) => Err(e),
        Ok(t) => match t {
            IsoType::Iso9660 | IsoType::HybridIso => parse_iso9660_spec(h, size, t),
            IsoType::Img => parse_img_spec(h, size),
            IsoType::Udf => Ok(plain_view(size, IsoType::Udf, "UDF_VOLUME"@, "UDF"@)),
            IsoType::Unknown => Ok(plain_view(size, IsoType::Unknown, "UNKNOWN"@, "Unknown"@)),
        },
    }
}

/// Parse an ISO/IMG image of `size` bytes from its first bytes and extract
/// information.
pub fn parse_iso(head: &[u8], size: u64) -> (r: Result<IsoInfo, IsoError>)
    ensures
        match r {
            Ok(info) => parse_iso_spec(head@, size) == Ok::<IsoInfoView, IsoError>(info@),
            Err(e) => parse_iso_spec(head@, size) == Err::<IsoInfoView, IsoError>(e),
        },
{
    let iso_type = detect_iso_type(head)?;
    match iso_type {
        IsoType::Iso9660 | IsoType::HybridIso => parse_iso9660(head, size, iso_type),
        IsoType::Img => parse_img(head, size),
        IsoType::Udf => Ok(parse_udf(size)),
        IsoType::Unknown => Ok(parse_unknown(size)),
    }
}

/// The image's type is recognised (not `Unknown`) and detection succeeds.
pub fn is_valid_iso(head: &[u8]) -> (r: bool)
    ensures
        r == (detect_iso_type_spec(head@) is Ok && detect_iso_type_spec(head@)->Ok_0 != IsoType::Unknown),
{
    match detect_iso_type(head) {
        Ok(t) => t != IsoType::Unknown,
        Err(_) => false,
    }
}


/// Get ISO file size display
pub fn format_size(size: u64) -> (s: String)
    ensures
        s@ == byte_size_text(size),
{
    format_bytes(size)
}

} // verus!
