//! Boot record analysis: El Torito catalogs, MBR/GPT boot sectors and
//! bootloader markers.

use vstd::prelude::*;
use vstd::string::StringExecFns;
use vstd::utf8::{
    decode_utf8, encode_utf8, encode_utf8_decode_utf8, encode_utf8_valid_utf8, is_char_boundary,
    is_char_boundary_iff_not_is_continuation_byte, valid_utf8,
};
use crate::iso::image::{can_read, has_boot_signature, read_exact, IsoError};
use crate::iso::parser::{efi_part, eltorito_id};
use crate::utils::le::{le_value, lemma_le32_value};
use crate::utils::text::{
    bytes_equal, contains_bytes, decimal_string, decimal_text, find_bytes, lossy_utf8, occurs_at,
    text_contains, text_from_bytes,
};

verus! {

/// Boot type
#[derive(Debug, Clone, Copy, PartialEq, Eq, Structural)]
pub enum BootType {
    Unknown,
    Bios,
    Uefi,
    Hybrid,
    ElTorito,
    Grub,
    Syslinux,
    Isolinux,
    WindowsBootManager,
}

/// The display name of each boot type.
pub open spec fn boot_type_name(t: BootType) -> Seq<char> {
    match t {
        BootType::Unknown => "Unknown"@,
        BootType::Bios => "BIOS"@,
        BootType::Uefi => "UEFI"@,
        BootType::Hybrid => "Hybrid"@,
        BootType::ElTorito => "El Torito"@,
        BootType::Grub => "GRUB"@,
        BootType::Syslinux => "SYSLINUX"@,
        BootType::Isolinux => "ISOLINUX"@,
        BootType::WindowsBootManager => "Windows Boot Manager"@,
    }
}

impl BootType {
    /// The display name.
    pub fn to_string(&self) -> (s: String)
        ensures
            s@ == boot_type_name(*self),
    {
        match self {
            BootType::Unknown => String::from_str("Unknown"),
            BootType::Bios => String::from_str("BIOS"),
            BootType::Uefi => String::from_str("UEFI"),
            BootType::Hybrid => String::from_str("Hybrid"),
            BootType::ElTorito => String::from_str("El Torito"),
            BootType::Grub => String::from_str("GRUB"),
            BootType::Syslinux => String::from_str("SYSLINUX"),
            BootType::Isolinux => String::from_str("ISOLINUX"),
            BootType::WindowsBootManager => String::from_str("Windows Boot Manager"),
        }
    }
}

/// Boot record information
#[derive(Debug, Clone)]
pub struct BootRecordInfo {
    pub boot_type: BootType,
    pub boot_loader: String,
    pub version: String,
    pub architecture: String,
    pub is_efi: bool,
    pub is_legacy: bool,
    pub boot_file_path: String,
    pub partition_guid: Option<String>,
}

/// The contents of a `BootRecordInfo`, with texts as character sequences.
pub struct BootRecordView {
    pub boot_type: BootType,
    pub boot_loader: Seq<char>,
    pub version: Seq<char>,
    pub architecture: Seq<char>,
    pub is_efi: bool,
    pub is_legacy: bool,
    pub boot_file_path: Seq<char>,
    pub partition_guid: Option<Seq<char>>,
}

impl View for BootRecordInfo {
    type V = BootRecordView;

    open spec fn view(&self) -> BootRecordView {
        BootRecordView {
            boot_type: self.boot_type,
            boot_loader: self.boot_loader@,
            version: self.version@,
            architecture: self.architecture@,
            is_efi: self.is_efi,
            is_legacy: self.is_legacy,
            boot_file_path: self.boot_file_path@,
            partition_guid: match self.partition_guid {
                Some(g) => Some(g@),
                None => None,
            },
        }
    }
}

/// The boot catalog sector that the El Torito boot record (sector 17)
/// points to, when the record's boot system identifier (bytes 7..39) is the
/// El Torito one.
pub open spec fn eltorito_catalog_spec(h: Seq<u8>) -> Result<u32, IsoError> {
    if !can_read(h, 34816, 2048) {
        Err(IsoError::UnexpectedEof)
    } else if h.subrange(34823, 34855) != eltorito_id() {
        Err(IsoError::NotElTorito)
    } else {
        Ok(le_value(h.subrange(34887, 34891)) as u32)
    }
}

/// The El Torito step of the boot record analysis up to the boot catalog
/// pointer (bytes 71..75 of the boot record, little-endian).
pub fn eltorito_catalog_lba(head: &[u8]) -> (r: Result<u32, IsoError>)
    ensures
        r == eltorito_catalog_spec(head@),
{
    let boot_record = read_exact(head, 34816, 2048)?;
    let signature = &boot_record[7..39];
    assert(signature@ =~= head@.subrange(34823, 34855));
    let id: [u8; 32] = [
        0x45, 0x4C, 0x20, 0x54, 0x4F, 0x52, 0x49, 0x54, 0x4F, 0x20, 0x53, 0x50, 0x45, 0x43,
        0x49, 0x46, 0x49, 0x43, 0x41, 0x54, 0x49, 0x4F, 0x4E, 0, 0, 0, 0, 0, 0, 0, 0, 0,
    ];
    assert(id@ =~= eltorito_id());
    if !bytes_equal(signature, id.as_slice()) {
        return Err(IsoError::NotElTorito);
    }
    let b0 = boot_record[71] as u32;
    let b1 = boot_record[72] as u32;
    let b2 = boot_record[73] as u32;
    let b3 = boot_record[74] as u32;
    proof {
        let field = head@.subrange(34887, 34891);
        reveal_with_fuel(le_value, 5);
        assert(field.drop_first().drop_first().drop_first().drop_first() =~= Seq::<u8>::empty());
        assert(le_value(field) == b0 + 256 * (b1 + 256 * (b2 + 256 * b3)));
    }
    Ok(b0 + 256 * (b1 + 256 * (b2 + 256 * b3)))
}

/// The architecture named by an El Torito platform ID.
pub open spec fn platform_architecture(platform_id: u8) -> Seq<char> {
    if platform_id == 0x00 {
        "x86"@
    } else if platform_id == 0x01 {
        "PowerPC"@
    } else if platform_id == 0x02 {
        "x86_64"@
    } else if platform_id == 0xEF {
        "EFI"@
    } else {
        "Unknown"@
    }
}

/// The record the boot catalog describes: the boot indicator (0x88 for a
/// bootable default entry) and the platform ID of the validation entry.
pub open spec fn eltorito_record_view(catalog_lba: u32, catalog: Seq<u8>) -> BootRecordView {
    let platform_id = catalog[0x21];
    BootRecordView {
        boot_type: if catalog[0x20] == 0x88 { BootType::ElTorito } else { BootType::Unknown },
        boot_loader: "El Torito"@,
        version: "1.0"@,
        architecture: platform_architecture(platform_id),
        is_efi: platform_id == 0xEF,
        is_legacy: platform_id == 0x00,
        boot_file_path: "Boot Catalog at LBA "@ + decimal_text(catalog_lba as nat),
        partition_guid: None,
    }
}

/// The El Torito boot record from its boot catalog sector (`catalog`: the
/// bytes read at `catalog_lba * 2048`, as many as the image holds).
pub fn eltorito_record(catalog_lba: u32, catalog: &[u8]) -> (r: Result<BootRecordInfo, IsoError>)
    ensures
        match r {
            Ok(rec) => can_read(catalog@, 0, 2048) && rec@ == eltorito_record_view(catalog_lba, catalog@),
            Err(e) => !can_read(catalog@, 0, 2048) && e == IsoError::UnexpectedEof,
        },
{
    let catalog = read_exact(catalog, 0, 2048)?;
    let boot_indicator = catalog[0x20];
    let boot_type = if boot_indicator == 0x88 { BootType::ElTorito } else { BootType::Unknown };
    let platform_id = catalog[0x21];
    let architecture = if platform_id == 0x00 {
        String::from_str("x86")
    } else if platform_id == 0x01 {
        String::from_str("PowerPC")
    } else if platform_id == 0x02 {
        String::from_str("x86_64")
    } else if platform_id == 0xEF {
        String::from_str("EFI")
    } else {
        String::from_str("Unknown")
    };
    let path = String::from_str("Boot Catalog at LBA ");
    let lba_text = decimal_string(catalog_lba as u64);
    let boot_file_path = path.concat(lba_text.as_str());
    Ok(BootRecordInfo {
        boot_type,
        boot_loader: String::from_str("El Torito"),
        version: String::from_str("1.0"),
        architecture,
        is_efi: platform_id == 0xEF,
        is_legacy: platform_id == 0x00,
        boot_file_path,
        partition_guid: None,
    })
}

/// The UEFI record: a GPT header ("EFI PART" at LBA 1, bytes 512..520,
/// checked when the image reaches that far) or an EFI system partition
/// (type 0xEF) in the first MBR entry.
pub open spec fn uefi_record_spec(h: Seq<u8>) -> Result<BootRecordView, IsoError> {
    if !can_read(h, 0, 512) {
        Err(IsoError::UnexpectedEof)
    } else if can_read(h, 512, 8) && h.subrange(512, 520) == efi_part() {
        Ok(uefi_view(Some("C12A7328-F81F-11D2-BA4B-00A0C93EC93B"@)))
    } else if h[450] == 0xEF {
        Ok(uefi_view(None))
    } else {
        Err(IsoError::NoUefiBoot)
    }
}

/// A UEFI record with the given partition type GUID.
pub open spec fn uefi_view(guid: Option<Seq<char>>) -> BootRecordView {
    BootRecordView {
        boot_type: BootType::Uefi,
        boot_loader: "UEFI"@,
        version: "2.0"@,
        architecture: "x86_64"@,
        is_efi: true,
        is_legacy: false,
        boot_file_path: "EFI/BOOT/BOOTX64.EFI"@,
        partition_guid: guid,
    }
}

/// Analyze UEFI boot: the GPT header at LBA 1, then the first MBR entry.
pub fn analyze_uefi_boot(head: &[u8]) -> (r: Result<BootRecordInfo, IsoError>)
    ensures
        match r {
            Ok(rec) => uefi_record_spec(head@) == Ok::<BootRecordView, IsoError>(rec@),
            Err(e) => uefi_record_spec(head@) == Err::<BootRecordView, IsoError>(e),
        },
{
    let mbr = read_exact(head, 0, 512)?;
    let sig: [u8; 8] = [0x45, 0x46, 0x49, 0x20, 0x50, 0x41, 0x52, 0x54];
    assert(sig@ =~= efi_part());
    if head.len() >= 520 && bytes_equal(&head[512..520], sig.as_slice()) {
        return Ok(BootRecordInfo {
            boot_type: BootType::Uefi,
            boot_loader: String::from_str("UEFI"),
            version: String::from_str("2.0"),
            architecture: String::from_str("x86_64"),
            is_efi: true,
            is_legacy: false,
            boot_file_path: String::from_str("EFI/BOOT/BOOTX64.EFI"),
            partition_guid: Some(String::from_str("C12A7328-F81F-11D2-BA4B-00A0C93EC93B")),
        });
    }
    if mbr[450] == 0xEF {
        return Ok(BootRecordInfo {
            boot_type: BootType::Uefi,
            boot_loader: String::from_str("UEFI"),
            version: String::from_str("2.0"),
            architecture: String::from_str("x86_64"),
            is_efi: true,
            is_legacy: false,
            boot_file_path: String::from_str("EFI/BOOT/BOOTX64.EFI"),
            partition_guid: None,
        });
    }
    Err(IsoError::NoUefiBoot)
}

/// The legacy BIOS record: a boot signature and an active first entry.
pub open spec fn bios_record_spec(h: Seq<u8>) -> Result<BootRecordView, IsoError> {
    if !can_read(h, 0, 512) {
        Err(IsoError::UnexpectedEof)
    } else if !has_boot_signature(h) {
        Err(IsoError::NoBootSignature)
    } else if h[446] != 0x80 {
        Err(IsoError::NoActivePartition)
    } else {
        Ok(
            BootRecordView {
                boot_type: BootType::Bios,
                boot_loader: "MBR"@,
                version: "1.0"@,
                architecture: "x86"@,
                is_efi: false,
                is_legacy: true,
                boot_file_path: "MBR Boot Code"@,
                partition_guid: None,
            },
        )
    }
}

/// Analyze BIOS boot
pub fn analyze_bios_boot(head: &[u8]) -> (r: Result<BootRecordInfo, IsoError>)
    ensures
        match r {
            Ok(rec) => bios_record_spec(head@) == Ok::<BootRecordView, IsoError>(rec@),
            Err(e) => bios_record_spec(head@) == Err::<BootRecordView, IsoError>(e),
        },
{
    let mbr = read_exact(head, 0, 512)?;
    if mbr[510] != 0x55 || mbr[511] != 0xAA {
        return Err(IsoError::NoBootSignature);
    }
    let has_active_partition = mbr[446] == 0x80;
    if !has_active_partition {
        return Err(IsoError::NoActivePartition);
    }
    Ok(BootRecordInfo {
        boot_type: BootType::Bios,
        boot_loader: String::from_str("MBR"),
        version: String::from_str("1.0"),
        architecture: String::from_str("x86"),
        is_efi: false,
        is_legacy: true,
        boot_file_path: String::from_str("MBR Boot Code"),
        partition_guid: None,
    })
}

/// The UTF-8 bytes of the 128 bytes at 0x8000 as `from_utf8_lossy`
/// decodes them.
pub open spec fn loader_area_text(h: Seq<u8>) -> Seq<u8> {
    encode_utf8(lossy_utf8(h.subrange(0x8000, 0x8080)))
}

/// `p` is where `needle` first occurs in `hay`.
pub open spec fn first_occurrence(hay: Seq<u8>, needle: Seq<u8>, p: int) -> bool {
    occurs_at(hay, needle, p) && forall|j: int| 0 <= j < p ==> !occurs_at(hay, needle, j)
}

/// Taking the ten bytes from the first "GRUB " stays within the text and
/// ends on a character boundary (the analysis slices there, which panics
/// otherwise).
pub open spec fn grub_version_in_bounds(h: Seq<u8>) -> bool {
    let text = loader_area_text(h);
    forall|p: int| first_occurrence(text, encode_utf8("GRUB "@), p)
        ==> p + 10 <= text.len() && is_char_boundary(text, p + 10)
}

/// The GRUB record: a "GRUB" or "grub" marker, with the version taken as
/// the ten bytes from the first "GRUB ".
pub open spec fn grub_record_ok(h: Seq<u8>, rec: BootRecordView) -> bool {
    let text = loader_area_text(h);
    &&& contains_bytes(text, encode_utf8("GRUB"@)) || contains_bytes(text, encode_utf8("grub"@))
    &&& rec.boot_type == BootType::Grub
    &&& rec.boot_loader == "GRUB"@
    &&& (if contains_bytes(text, encode_utf8("GRUB "@)) {
        exists|p: int| first_occurrence(text, encode_utf8("GRUB "@), p)
            && rec.version == decode_utf8(text.subrange(p, p + 10))
    } else {
        rec.version == "Unknown"@
    })
    &&& rec.architecture == "x86/x64"@
    &&& rec.is_efi == contains_bytes(text, encode_utf8("EFI"@))
    &&& rec.is_legacy
    &&& rec.boot_file_path == "boot/grub"@
    &&& rec.partition_guid is None
}

/// Analyze GRUB bootloader
pub fn analyze_grub(head: &[u8]) -> (r: Result<BootRecordInfo, IsoError>)
    requires
        can_read(head@, 0x8000, 128) ==> grub_version_in_bounds(head@),
    ensures
        match r {
            Ok(rec) => can_read(head@, 0x8000, 128) && grub_record_ok(head@, rec@),
            Err(e) => if !can_read(head@, 0x8000, 128) {
                e == IsoError::UnexpectedEof
            } else {
                e == IsoError::NoGrub && !contains_bytes(loader_area_text(head@), encode_utf8("GRUB"@))
                    && !contains_bytes(loader_area_text(head@), encode_utf8("grub"@))
            },
        },
{
    let buffer = read_exact(head, 0x8000, 128)?;
    let content = text_from_bytes(buffer);
    assert(buffer@ =~= head@.subrange(0x8000, 0x8080));
    let text = content.as_str();
    if !text_contains(text, "GRUB") && !text_contains(text, "grub") {
        return Err(IsoError::NoGrub);
    }
    let bytes = text.as_bytes();
    let version = match find_bytes(bytes, "GRUB ".as_bytes()) {
        Some(pos) => {
            proof {
                broadcast use encode_utf8_valid_utf8, encode_utf8_decode_utf8;
                reveal_strlit("GRUB ");
                assert(bytes@ == loader_area_text(head@));
                assert(first_occurrence(bytes@, encode_utf8("GRUB "@), pos as int));
                assert(pos + 10 <= bytes@.len() && is_char_boundary(bytes@, pos + 10));
                vstd::utf8::is_ascii_chars_encode_utf8("GRUB "@);
                assert(bytes@.subrange(pos as int, pos + 5) == encode_utf8("GRUB "@));
                assert(bytes@[pos as int] == bytes@.subrange(pos as int, pos + 5)[0]);
                assert(encode_utf8("GRUB "@)[0] == 0x47);
                is_char_boundary_iff_not_is_continuation_byte(bytes@, pos as int);
            }
            let n = bytes.len();
            let (_, back) = text.split_at(pos);
            proof {
                broadcast use encode_utf8_valid_utf8, encode_utf8_decode_utf8;
                let all = bytes@;
                let rest = all.subrange(pos as int, all.len() as int);
                assert(encode_utf8(back@) =~= rest);
                vstd::utf8::valid_utf8_split(all, pos as int);
                if pos + 10 < all.len() {
                    is_char_boundary_iff_not_is_continuation_byte(all, pos + 10);
                    is_char_boundary_iff_not_is_continuation_byte(rest, 10);
                    assert(rest[10] == all[pos + 10]);
                } else {
                    vstd::utf8::is_char_boundary_start_end_of_seq(rest);
                }
            }
            let (piece, _) = back.split_at(10);
            proof {
                broadcast use encode_utf8_decode_utf8;
                assert(encode_utf8(piece@) =~= bytes@.subrange(pos as int, pos + 10));
            }
            String::from_str(piece)
        },
        None => String::from_str("Unknown"),
    };
    Ok(BootRecordInfo {
        boot_type: BootType::Grub,
        boot_loader: String::from_str("GRUB"),
        version,
        architecture: String::from_str("x86/x64"),
        is_efi: text_contains(text, "EFI"),
        is_legacy: true,
        boot_file_path: String::from_str("boot/grub"),
        partition_guid: None,
    })
}


/// The SYSLINUX/ISOLINUX record: ISOLINUX takes precedence over SYSLINUX.
pub open spec fn syslinux_record_spec(h: Seq<u8>) -> Result<BootRecordView, IsoError> {
    let text = loader_area_text(h);
    if !can_read(h, 0x8000, 128) {
        Err(IsoError::UnexpectedEof)
    } else if contains_bytes(text, encode_utf8("ISOLINUX"@)) {
        Ok(syslinux_view(BootType::Isolinux, "ISOLINUX"@, "boot/isolinux"@))
    } else if contains_bytes(text, encode_utf8("SYSLINUX"@)) {
        Ok(syslinux_view(BootType::Syslinux, "SYSLINUX"@, "boot/syslinux"@))
    } else {
        Err(IsoError::NoSyslinux)
    }
}

/// A SYSLINUX-family record.
pub open spec fn syslinux_view(boot_type: BootType, loader: Seq<char>, path: Seq<char>) -> BootRecordView {
    BootRecordView {
        boot_type,
        boot_loader: loader,
        version: "Unknown"@,
        architecture: "x86"@,
        is_efi: false,
        is_legacy: true,
        boot_file_path: path,
        partition_guid: None,
    }
}

/// Analyze SYSLINUX/ISOLINUX
pub fn analyze_syslinux(head: &[u8]) -> (r: Result<BootRecordInfo, IsoError>)
    ensures
        match r {
            Ok(rec) => syslinux_record_spec(head@) == Ok::<BootRecordView, IsoError>(rec@),
            Err(e) => syslinux_record_spec(head@) == Err::<BootRecordView, IsoError>(e),
        },
{
    let buffer = read_exact(head, 0x8000, 128)?;
    let content = text_from_bytes(buffer);
    assert(buffer@ =~= head@.subrange(0x8000, 0x8080));
    let text = content.as_str();
    let (boot_type, loader, path) = if text_contains(text, "ISOLINUX") {
        (BootType::Isolinux, String::from_str("ISOLINUX"), String::from_str("boot/isolinux"))
    } else if text_contains(text, "SYSLINUX") {
        (BootType::Syslinux, String::from_str("SYSLINUX"), String::from_str("boot/syslinux"))
    } else {
        return Err(IsoError::NoSyslinux);
    };
    Ok(BootRecordInfo {
        boot_type,
        boot_loader: loader,
        version: String::from_str("Unknown"),
        architecture: String::from_str("x86"),
        is_efi: false,
        is_legacy: true,
        boot_file_path: path,
        partition_guid: None,
    })
}

/// Whether the GRUB step can take its version without cutting past the
/// end of the text or inside a character (it panics otherwise).
pub fn grub_version_fits(head: &[u8]) -> (fits: bool)
    ensures
        fits == (can_read(head@, 0x8000, 128) ==> grub_version_in_bounds(head@)),
{
    if head.len() < 0x8080 {
        return true;
    }
    let buffer = &head[0x8000..0x8080];
    let content = text_from_bytes(buffer);
    assert(buffer@ =~= head@.subrange(0x8000, 0x8080));
    let text = content.as_str();
    let bytes = text.as_bytes();
    let ghost t = loader_area_text(head@);
    assert(bytes@ == t);
    let marker = "GRUB ";
    match find_bytes(bytes, marker.as_bytes()) {
        Some(pos) => {
            proof {
                assert(first_occurrence(t, encode_utf8("GRUB "@), pos as int));
                assert forall|p: int| first_occurrence(t, encode_utf8("GRUB "@), p) implies p == pos by {
                    if p < pos {
                        assert(!occurs_at(t, encode_utf8("GRUB "@), p));
                    }
                    if pos < p {
                        assert(!occurs_at(t, encode_utf8("GRUB "@), pos as int));
                    }
                }
            }
            let n = bytes.len();
            pos <= n && n - pos >= 10 && text.is_char_boundary(pos + 10)
        },
        None => {
            proof {
                assert forall|p: int| !first_occurrence(t, encode_utf8("GRUB "@), p) by {
                    if first_occurrence(t, encode_utf8("GRUB "@), p) {
                        assert(contains_bytes(t, encode_utf8("GRUB "@)));
                    }
                }
            }
            true
        },
    }
}

/// The record a step found, as a sequence of none or one.
pub open spec fn found(r: Result<BootRecordView, IsoError>) -> Seq<BootRecordView> {
    match r {
        Ok(v) => seq![v],
        Err(_) => Seq::empty(),
    }
}

/// The El Torito record, when the boot record volume descriptor is an El
/// Torito one and the boot catalog it points to could be read.
pub open spec fn eltorito_found(h: Seq<u8>, catalog: Option<Seq<u8>>) -> Seq<BootRecordView> {
    match eltorito_catalog_spec(h) {
        Ok(lba) => match catalog {
            Some(c) => if can_read(c, 0, 2048) {
                seq![eltorito_record_view(lba, c)]
            } else {
                Seq::empty()
            },
            None => Seq::empty(),
        },
        Err(_) => Seq::empty(),
    }
}

/// The GRUB step's contribution: none when its area cannot be read, holds
/// no marker, or its version would be cut badly; otherwise one record.
pub open spec fn grub_found_ok(h: Seq<u8>, g: Seq<BootRecordView>) -> bool {
    let text = loader_area_text(h);
    if can_read(h, 0x8000, 128) && grub_version_in_bounds(h) && (contains_bytes(text, encode_utf8("GRUB"@))
        || contains_bytes(text, encode_utf8("grub"@))) {
        g.len() == 1 && grub_record_ok(h, g[0])
    } else {
        g.len() == 0
    }
}

/// The contents of a list of records.
pub open spec fn records_view(v: Seq<BootRecordInfo>) -> Seq<BootRecordView> {
    v.map_values(|r: BootRecordInfo| r@)
}

/// The records found by the five analyses of an image, in order: El Torito,
/// UEFI, BIOS, GRUB, SYSLINUX, each kept when it succeeds. `head` holds the
/// image's first bytes (any number of them); `catalog` holds the 2048 bytes
/// of the El Torito boot catalog, read by the caller at the sector that
/// `eltorito_catalog_lba` names, when it could be read. A GRUB version that
/// would be cut past the end of its text or inside a character is skipped
/// with its record, where slicing it would panic.
pub fn analyze_boot_records(head: &[u8], catalog: Option<&[u8]>) -> (records: Vec<BootRecordInfo>)
    ensures
        records@.len() <= 5,
        exists|g: Seq<BootRecordView>|
            #[trigger] grub_found_ok(head@, g) && records_view(records@) == eltorito_found(
                head@,
                match catalog {
                    Some(c) => Some(c@),
                    None => None,
                },
            ) + found(uefi_record_spec(head@)) + found(bios_record_spec(head@)) + g + found(
                syslinux_record_spec(head@),
            ),
{
    let ghost cat = match catalog {
        Some(c) => Some(c@),
        None => None::<Seq<u8>>,
    };
    let mut records: Vec<BootRecordInfo> = Vec::new();
    if let Ok(lba) = eltorito_catalog_lba(head) {
        if let Some(c) = catalog {
            if let Ok(rec) = eltorito_record(lba, c) {
                records.push(rec);
            }
        }
    }
    let ghost e = records_view(records@);
    assert(e =~= eltorito_found(head@, cat));
    if let Ok(rec) = analyze_uefi_boot(head) {
        records.push(rec);
    }
    let ghost u = records_view(records@);
    assert(u =~= e + found(uefi_record_spec(head@)));
    if let Ok(rec) = analyze_bios_boot(head) {
        records.push(rec);
    }
    let ghost b = records_view(records@);
    assert(b =~= u + found(bios_record_spec(head@)));
    if grub_version_fits(head) {
        if let Ok(rec) = analyze_grub(head) {
            records.push(rec);
        }
    }
    let ghost gr = records_view(records@);
    let ghost g = gr.subrange(b.len() as int, gr.len() as int);
    assert(gr =~= b + g);
    assert(grub_found_ok(head@, g));
    if let Ok(rec) = analyze_syslinux(head) {
        records.push(rec);
    }
    assert(records_view(records@) =~= gr + found(syslinux_record_spec(head@)));
    records
}

/// Some record supports EFI boot.
pub open spec fn any_efi(records: Seq<BootRecordInfo>) -> bool {
    exists|i: int| 0 <= i < records.len() && #[trigger] records[i].is_efi
}

/// Some record supports legacy boot.
pub open spec fn any_legacy(records: Seq<BootRecordInfo>) -> bool {
    exists|i: int| 0 <= i < records.len() && #[trigger] records[i].is_legacy
}

/// The recommendation for the boot methods found.
pub open spec fn recommended_boot_mode(has_uefi: bool, has_legacy: bool) -> Seq<char> {
    if has_uefi && has_legacy {
        "UEFI + CSM (Legacy)"@
    } else if has_uefi {
        "UEFI Only"@
    } else if has_legacy {
        "Legacy BIOS Only"@
    } else {
        "Unknown"@
    }
}

/// Get recommended boot mode based on boot records
pub fn get_recommended_boot_mode(records: &[BootRecordInfo]) -> (mode: String)
    ensures
        mode@ == recommended_boot_mode(any_efi(records@), any_legacy(records@)),
{
    let mut has_uefi = false;
    let mut has_legacy = false;
    let mut i: usize = 0;
    while i < records.len()
        invariant
            i <= records@.len(),
            has_uefi == exists|j: int| 0 <= j < i && #[trigger] records@[j].is_efi,
            has_legacy == exists|j: int| 0 <= j < i && #[trigger] records@[j].is_legacy,
        decreases records@.len() - i,
    {
        if records[i].is_efi {
            has_uefi = true;
        }
        if records[i].is_legacy {
            has_legacy = true;
        }
        i = i + 1;
    }
    if has_uefi && has_legacy {
        String::from_str("UEFI + CSM (Legacy)")
    } else if has_uefi {
        String::from_str("UEFI Only")
    } else if has_legacy {
        String::from_str("Legacy BIOS Only")
    } else {
        String::from_str("Unknown")
    }
}

} // verus!
