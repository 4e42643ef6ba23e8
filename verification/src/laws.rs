//! Properties that relate several parts of the library: what the partition
//! and format layouts look like to the image inspection, and facts that
//! hold of every input of the layout, text and progress rules.

use vstd::prelude::*;
use crate::disk::format::{fat32_boot_sector_bytes, fat32_sectors_per_fat};
use crate::disk::partition::{
    efi_part_signature, entry_bytes, gpt_fields_with_crc, gpt_header_bytes, gpt_header_fields,
    header_crc_ok, is_gpt_header_for, partition_size_lba, protective_mbr_bytes, table_mbr_bytes,
    backup_entries_lba, entry_area, gpt_entries_concat, gpt_entry_bytes, gpt_layout, lemma_utf16le_len, is_backup_of, is_single_esp, GptEntryArray, GptHeader,
};
use crate::disk::format::fs_argument;
use crate::iso::boot::{any_efi, any_legacy, eltorito_record_view, recommended_boot_mode, BootRecordInfo};
use crate::iso::hybrid::{recommended_write_mode, HybridIsoInfo, HybridWriteMode};
use crate::iso::parser::{boot_modes_of, detect_iso_type_spec, eltorito_matches, parse_iso_spec, IsoType};
use crate::iso::image::can_read;
use crate::state::app_state::FileSystem;
use crate::utils::crc::crc32;
use crate::disk::writer::{complete_percent_bits, device_path_of, stage_percent_bits, write_stages};
use crate::iso::boot::bios_record_spec;
use crate::iso::hybrid::{gpt_protective_entry, mbr_partition_count};
use crate::iso::image::has_boot_signature;
use crate::iso::parser::{check_bios_boot_spec, check_efi_partition_spec, efi_part};
use crate::state::app_state::{log_after_add, BootMode, LogEntryView};
use crate::utils::hash::{ascii_lower, equal_ignoring_ascii_case};
use crate::utils::le::{group_le_lengths, le32, lemma_le32_bytes};

verus! {

broadcast use group_le_lengths;

/// The Master Boot Record the library writes for an MBR table is a boot
/// sector (512 bytes ending in 0x55 0xAA) with exactly one partition entry
/// in use: the first, active (0x80), of type FAT32 with LBA (0x0C),
/// starting at sector 2048 and running to the end of the disk (as far as
/// the 32-bit size field reaches).
pub proof fn lemma_table_mbr_shape(mode: BootMode, total_sectors: u64)
    ensures
        table_mbr_bytes(mode, total_sectors).subrange(454, 462) == le32(2048) + le32(
            partition_size_lba(total_sectors) as nat,
        ),
        total_sectors > 2048 ==> partition_size_lba(total_sectors) as int == if total_sectors - 2048 > u32::MAX {
            u32::MAX as int
        } else {
            total_sectors - 2048
        },
        table_mbr_bytes(mode, total_sectors).len() == 512,
        table_mbr_bytes(mode, total_sectors)[510] == 0x55,
        table_mbr_bytes(mode, total_sectors)[511] == 0xAA,
        table_mbr_bytes(mode, total_sectors)[446] == 0x80,
        table_mbr_bytes(mode, total_sectors)[450] == 0x0C,
        mbr_partition_count(table_mbr_bytes(mode, total_sectors)) == 1,
{
    let b = table_mbr_bytes(mode, total_sectors);
    assert(b.subrange(454, 462) =~= le32(2048) + le32(partition_size_lba(total_sectors) as nat));
    assert(b[446] == 0x80);
    assert(b[450] == 0x0C);
    assert(b[466] == 0);
    assert(b[482] == 0);
    assert(b[498] == 0);
    assert(b[510] == 0x55);
    assert(b[511] == 0xAA);
}

/// An image whose first sector is the library's MBR reads back as BIOS
/// bootable: the BIOS check finds the boot signature, and the boot record
/// analysis finds an active first partition.
pub proof fn lemma_table_mbr_reads_bootable(mode: BootMode, total_sectors: u64, rest: Seq<u8>)
    ensures
        check_bios_boot_spec(table_mbr_bytes(mode, total_sectors) + rest) == Ok::<bool, crate::iso::image::IsoError>(true),
        bios_record_spec(table_mbr_bytes(mode, total_sectors) + rest) is Ok,
        mbr_partition_count(table_mbr_bytes(mode, total_sectors) + rest) == 1,
{
    lemma_table_mbr_shape(mode, total_sectors);
    let h = table_mbr_bytes(mode, total_sectors) + rest;
    let b = table_mbr_bytes(mode, total_sectors);
    assert(h[510] == b[510] && h[511] == b[511] && h[446] == b[446]);
    assert(has_boot_signature(h));
    assert(h[450] == b[450] && h[466] == b[466] && h[482] == b[482] && h[498] == b[498]);
}

/// The protective MBR the library writes before a GPT is a boot sector
/// with one entry in use, of type 0xEE. Its entry starts at CHS (0, 0, 0),
/// so the hybrid-image check, which looks for the entry that starts at CHS
/// (0, 1, 0), does not report a GPT for it.
pub proof fn lemma_protective_mbr_reads_back(rest: Seq<u8>)
    ensures
        protective_mbr_bytes().len() == 512,
        has_boot_signature(protective_mbr_bytes() + rest),
        (protective_mbr_bytes() + rest)[450] == 0xEE,
        mbr_partition_count(protective_mbr_bytes() + rest) == 1,
        (protective_mbr_bytes() + rest).subrange(446, 462) != gpt_protective_entry(),
{
    let b = protective_mbr_bytes();
    let h = b + rest;
    assert(b.len() == 512);
    assert(h[510] == b[510] && h[511] == b[511]);
    assert(b[450] == 0xEE);
    assert(h[450] == b[450] && h[466] == b[466] && h[482] == b[482] && h[498] == b[498]);
    assert(b[466] == 0 && b[482] == 0 && b[498] == 0);
    assert(h.subrange(446, 462)[2] == h[448]);
    assert(h[448] == b[448]);
    assert(b[448] == 0);
    assert(gpt_protective_entry()[2] == 1);
}

/// A GPT header sector is 512 bytes starting with "EFI PART".
pub proof fn lemma_gpt_header_sector(h: crate::disk::partition::GptHeader, disk_size: u64, sector_size: u64)
    requires
        sector_size > 0,
        is_gpt_header_for(h, disk_size, sector_size, h.disk_guid@),
    ensures
        gpt_header_bytes(h).len() == 512,
        gpt_header_bytes(h).subrange(0, 8) == efi_part_signature(),
{
    assert(gpt_header_fields(h).len() == 92);
    assert(gpt_header_bytes(h).subrange(0, 8) =~= h.signature@);
}

/// A sealed GPT header sector passes the firmware's check: bytes 16..20
/// hold, little-endian, the CRC-32 of the first 92 bytes of the sector
/// taken with those four bytes zeroed.
pub proof fn lemma_gpt_header_checksum_in_sector(h: crate::disk::partition::GptHeader)
    requires
        header_crc_ok(h),
    ensures
        gpt_header_bytes(h).subrange(16, 20) == le32(h.crc32 as nat),
        h.crc32 == crc32(
            gpt_header_bytes(h).subrange(0, 16) + seq![0u8, 0u8, 0u8, 0u8] + gpt_header_bytes(h).subrange(20, 92),
        ),
{
    let b = gpt_header_bytes(h);
    let f = gpt_header_fields(h);
    let z = gpt_fields_with_crc(h, 0);
    lemma_le32_bytes(0);
    assert(f.len() == 92);
    assert(b.subrange(0, 92) =~= f);
    assert(b.subrange(16, 20) =~= le32(h.crc32 as nat));
    assert(b.subrange(0, 16) + seq![0u8, 0u8, 0u8, 0u8] + b.subrange(20, 92) =~= z);
}

/// On a disk with 512-byte sectors, the GPT the library lays down (the
/// protective MBR in sector 0, the header in sector 1) is recognised by the
/// image inspection: the BIOS check sees the boot signature and the EFI
/// check sees "EFI PART" at byte 512.
pub proof fn lemma_gpt_layout_detected(
    h: crate::disk::partition::GptHeader,
    disk_size: u64,
    rest: Seq<u8>,
)
    requires
        is_gpt_header_for(h, disk_size, 512, h.disk_guid@),
    ensures
        check_bios_boot_spec(protective_mbr_bytes() + gpt_header_bytes(h) + rest) == Ok::<
            bool,
            crate::iso::image::IsoError,
        >(true),
        check_efi_partition_spec(protective_mbr_bytes() + gpt_header_bytes(h) + rest) == Ok::<
            bool,
            crate::iso::image::IsoError,
        >(true),
{
    lemma_gpt_header_sector(h, disk_size, 512);
    lemma_protective_mbr_reads_back(gpt_header_bytes(h) + rest);
    let b = protective_mbr_bytes();
    let d = b + gpt_header_bytes(h) + rest;
    assert(d =~= b + (gpt_header_bytes(h) + rest));
    assert(d.subrange(512, 520) =~= gpt_header_bytes(h).subrange(0, 8));
    assert(efi_part() == efi_part_signature());
}

/// A FAT32 boot sector the library writes is one sector long, starts with
/// the jump code EB 58 90, names the file system "FAT32   " at byte 82 and
/// ends in 0x55 0xAA at bytes 510 and 511.
pub proof fn lemma_fat32_boot_sector_shape(total_sectors: u64, sector_size: u32, serial: u32)
    requires
        512 <= sector_size,
    ensures
        fat32_boot_sector_bytes(total_sectors, sector_size, serial).len() == sector_size,
        fat32_boot_sector_bytes(total_sectors, sector_size, serial).subrange(0, 3) == seq![0xEBu8, 0x58, 0x90],
        fat32_boot_sector_bytes(total_sectors, sector_size, serial).subrange(82, 90) == seq![
            0x46u8,
            0x41,
            0x54,
            0x33,
            0x32,
            0x20,
            0x20,
            0x20,
        ],
        fat32_boot_sector_bytes(total_sectors, sector_size, serial)[510] == 0x55,
        fat32_boot_sector_bytes(total_sectors, sector_size, serial)[511] == 0xAA,
{
    let b = fat32_boot_sector_bytes(total_sectors, sector_size, serial);
    assert(b.subrange(0, 3) =~= seq![0xEBu8, 0x58, 0x90]);
    assert(b.subrange(82, 90) =~= seq![0x46u8, 0x41, 0x54, 0x33, 0x32, 0x20, 0x20, 0x20]);
    assert(b[510] == 0x55);
    assert(b[511] == 0xAA);
}

/// The allocation table is large enough: with four bytes per entry, its
/// sectors hold an entry for every cluster of eight sectors of the volume
/// (counted, as the formatter counts them, from the sector count truncated
/// to 32 bits).
pub proof fn lemma_fat32_table_covers_clusters(total_sectors: u64, sector_size: u32)
    requires
        sector_size >= 4,
    ensures
        fat32_sectors_per_fat(total_sectors, sector_size) as int * (sector_size / 4) as int >= (
        total_sectors as u32) as int / 8,
{
    let clusters = (total_sectors as u32) as int / 8;
    let per = (sector_size / 4) as int;
    let n = (clusters + per - 1) / per;
    assert(n * per >= clusters) by (nonlinear_arith)
        requires
            per >= 1,
            clusters >= 0,
            n == (clusters + per - 1) / per,
    {
    }
    assert(n <= u32::MAX) by (nonlinear_arith)
        requires
            per >= 1,
            0 <= clusters <= 0x2000_0000,
            n == (clusters + per - 1) / per,
    {
    }
    assert(fat32_sectors_per_fat(total_sectors, sector_size) == n);
}

/// Opening a device by its path is stable: the path of a path is the path.
pub proof fn lemma_device_path_idempotent(id: Seq<char>)
    ensures
        device_path_of(device_path_of(id)) == device_path_of(id),
{
    let p = device_path_of(id);
    if !(id.len() >= 4 && id.subrange(0, 4) == crate::disk::writer::device_namespace()) {
        assert(p.subrange(0, 4) =~= crate::disk::writer::device_namespace());
    }
}

/// Comparing digest texts ignores ASCII case: it is reflexive and
/// symmetric, and a text equals its ASCII upper-case form.
pub proof fn lemma_compare_hashes_laws(a: Seq<u8>, b: Seq<u8>)
    ensures
        equal_ignoring_ascii_case(a, a),
        equal_ignoring_ascii_case(a, b) == equal_ignoring_ascii_case(b, a),
        equal_ignoring_ascii_case(
            a,
            a.map_values(
                |c: u8|
                    if 97 <= c <= 122 {
                        (c - 32) as u8
                    } else {
                        c
                    },
            ),
        ),
{
    let up = a.map_values(
        |c: u8|
            if 97 <= c <= 122 {
                (c - 32) as u8
            } else {
                c
            },
    );
    assert forall|i: int| 0 <= i < a.len() implies ascii_lower(#[trigger] a[i]) == ascii_lower(up[i]) by {
    }
    if equal_ignoring_ascii_case(b, a) {
        assert forall|i: int| 0 <= i < a.len() implies ascii_lower(#[trigger] a[i]) == ascii_lower(b[i]) by {
            assert(ascii_lower(b[i]) == ascii_lower(a[i]));
        }
    }
}

/// The log keeps the newest entries and never more than 1000: after an
/// entry is added to a log of at most 1000, the log holds at most 1000
/// entries, the new entry is the last, and the entries before it are the
/// last ones of the old log, in order.
pub proof fn lemma_log_window(logs: Seq<LogEntryView>, e: LogEntryView)
    requires
        logs.len() <= 1000,
    ensures
        log_after_add(logs, e).len() <= 1000,
        log_after_add(logs, e).len() == if logs.len() < 1000 {
            logs.len() + 1
        } else {
            1000
        },
        log_after_add(logs, e).last() == e,
        log_after_add(logs, e).drop_last() == logs.subrange(
            logs.len() + 1 - log_after_add(logs, e).len(),
            logs.len() as int,
        ),
{
    let r = log_after_add(logs, e);
    assert(r.drop_last() =~= logs.subrange(logs.len() + 1 - r.len(), logs.len() as int));
}

/// The progress shown at the start of each write stage only grows, and
/// stays below the 100 shown on completion (the percentages are positive
/// `f32`s, whose bit patterns order as their values do).
pub proof fn lemma_stage_progress_grows(verify_enabled: bool)
    ensures
        forall|i: int, j: int|
            0 <= i < j < write_stages(verify_enabled).len() ==> stage_percent_bits(
                #[trigger] write_stages(verify_enabled)[i],
            ) < stage_percent_bits(#[trigger] write_stages(verify_enabled)[j]),
        forall|i: int|
            0 <= i < write_stages(verify_enabled).len() ==> stage_percent_bits(
                #[trigger] write_stages(verify_enabled)[i],
            ) < complete_percent_bits(),
{
}


/// The platform ID of the El Torito validation entry (catalog byte 0x21)
/// decides how the image boots: the record supports legacy boot exactly
/// when it is 0x00 (x86) and EFI boot exactly when it is 0xEF, and the
/// architecture is named "x86" for 0x00 and "EFI" for 0xEF.
pub proof fn lemma_eltorito_platform(catalog_lba: u32, catalog: Seq<u8>)
    requires
        catalog.len() >= 2048,
    ensures
        eltorito_record_view(catalog_lba, catalog).is_legacy <==> catalog[0x21] == 0x00,
        eltorito_record_view(catalog_lba, catalog).is_efi <==> catalog[0x21] == 0xEF,
        catalog[0x21] == 0x00 ==> eltorito_record_view(catalog_lba, catalog).architecture == "x86"@,
        catalog[0x21] == 0xEF ==> eltorito_record_view(catalog_lba, catalog).architecture == "EFI"@,
{
}

/// The boot mode recommended for a set of records: both methods when some
/// record boots by EFI and some by legacy BIOS, one of them when only that
/// one is found, and "Unknown" when neither is.
pub proof fn lemma_recommended_boot_mode(records: Seq<BootRecordInfo>)
    ensures
        (exists|i: int| 0 <= i < records.len() && #[trigger] records[i].is_legacy)
            && !(exists|i: int| 0 <= i < records.len() && #[trigger] records[i].is_efi)
            ==> recommended_boot_mode(any_efi(records), any_legacy(records)) == "Legacy BIOS Only"@,
        (exists|i: int| 0 <= i < records.len() && #[trigger] records[i].is_efi)
            && !(exists|i: int| 0 <= i < records.len() && #[trigger] records[i].is_legacy)
            ==> recommended_boot_mode(any_efi(records), any_legacy(records)) == "UEFI Only"@,
        (exists|i: int| 0 <= i < records.len() && #[trigger] records[i].is_efi)
            && (exists|i: int| 0 <= i < records.len() && #[trigger] records[i].is_legacy)
            ==> recommended_boot_mode(any_efi(records), any_legacy(records)) == "UEFI + CSM (Legacy)"@,
        (forall|i: int| 0 <= i < records.len() ==> !(#[trigger] records[i]).is_efi && !records[i].is_legacy)
            ==> recommended_boot_mode(any_efi(records), any_legacy(records)) == "Unknown"@,
{
}

/// The boot mode list names "BIOS" exactly when BIOS boot was found and
/// "UEFI" exactly when UEFI boot was.
proof fn lemma_boot_mode_list(e: bool, u: bool, b: bool)
    ensures
        boot_modes_of(e, u, b).contains("BIOS"@) <==> b,
        boot_modes_of(e, u, b).contains("UEFI"@) <==> u,
        ((if b { seq!["BIOS"@] } else { seq![] }) + (if u { seq!["UEFI"@] } else { seq![] })).contains("BIOS"@) <==> b,
{
    reveal_strlit("El Torito");
    reveal_strlit("UEFI");
    reveal_strlit("BIOS");
    assert("UEFI"@[0] != "BIOS"@[0]);
    assert("El Torito"@[0] != "BIOS"@[0]);
    assert("El Torito"@[0] != "UEFI"@[0]);
    let et: Seq<Seq<char>> = if e { seq!["El Torito"@] } else { seq![] };
    let ut: Seq<Seq<char>> = if u { seq!["UEFI"@] } else { seq![] };
    let bt: Seq<Seq<char>> = if b { seq!["BIOS"@] } else { seq![] };
    let m = boot_modes_of(e, u, b);
    assert(m =~= et + ut + bt);
    if b {
        assert(m[m.len() - 1] == "BIOS"@);
    } else {
        assert forall|i: int| 0 <= i < m.len() implies m[i] != "BIOS"@ by {
            if i < et.len() { assert(m[i] == et[i]); } else { assert(m[i] == ut[i - et.len()]); }
        }
    }
    if u {
        assert(m[et.len() as int] == "UEFI"@);
    } else {
        assert forall|i: int| 0 <= i < m.len() implies m[i] != "UEFI"@ by {
            if i < et.len() { assert(m[i] == et[i]); } else { assert(m[i] == bt[i - et.len()]); }
        }
    }
    let n = bt + ut;
    if b {
        assert(n[0] == "BIOS"@);
    } else {
        assert forall|i: int| 0 <= i < n.len() implies n[i] != "BIOS"@ by {
            assert(n[i] == ut[i]);
        }
    }
}

/// What parsing reports of BIOS and UEFI boot agrees with the image's
/// first sector: for an ISO 9660 (or hybrid) image and for a raw image,
/// BIOS boot is reported exactly when bytes 510 and 511 are 0x55 0xAA, and
/// the boot mode list names "BIOS" exactly when BIOS boot is reported; for
/// an ISO 9660 image UEFI boot is reported exactly when the first
/// partition entry's type (byte 450) is 0xEF, and "UEFI" is listed exactly
/// then.
pub proof fn lemma_parsed_boot_support(h: Seq<u8>, size: u64)
    ensures
        match parse_iso_spec(h, size) {
            Ok(v) => {
                &&& (v.iso_type == IsoType::Iso9660 || v.iso_type == IsoType::HybridIso || v.iso_type
                    == IsoType::Img) ==> {
                    &&& v.has_bios_boot <==> (h[510] == 0x55 && h[511] == 0xAA)
                    &&& v.boot_modes.contains("BIOS"@) <==> v.has_bios_boot
                }
                &&& (v.iso_type == IsoType::Iso9660 || v.iso_type == IsoType::HybridIso) ==> {
                    &&& v.has_uefi_boot <==> h[450] == 0xEF
                    &&& v.boot_modes.contains("UEFI"@) <==> v.has_uefi_boot
                }
            },
            Err(_) => true,
        },
{
    if let Ok(t) = detect_iso_type_spec(h) {
        if (t == IsoType::Iso9660 || t == IsoType::HybridIso) && can_read(h, 34816, 2048) {
            lemma_boot_mode_list(eltorito_matches(h), h[450] == 0xEF, has_boot_signature(h));
        } else if t == IsoType::Img && can_read(h, 0, 520) {
            lemma_boot_mode_list(false, h.subrange(512, 520) == efi_part(), has_boot_signature(h));
        }
    }
}

/// The format command formats with the file system asked for: its `/FS:`
/// argument is "/FS:" followed by FAT32, NTFS or EXFAT, so different file
/// systems give different arguments.
pub proof fn lemma_format_fs_argument(fs: FileSystem, other: FileSystem)
    ensures
        fs == FileSystem::Fat32 ==> fs_argument(fs) == "/FS:"@ + "FAT32"@,
        fs == FileSystem::Ntfs ==> fs_argument(fs) == "/FS:"@ + "NTFS"@,
        fs == FileSystem::ExFat ==> fs_argument(fs) == "/FS:"@ + "EXFAT"@,
        fs != other ==> fs_argument(fs) != fs_argument(other),
{
    reveal_strlit("/FS:");
    reveal_strlit("FAT32");
    reveal_strlit("NTFS");
    reveal_strlit("EXFAT");
    reveal_strlit("/FS:FAT32");
    reveal_strlit("/FS:NTFS");
    reveal_strlit("/FS:EXFAT");
    assert("/FS:FAT32"@ =~= "/FS:"@ + "FAT32"@);
    assert("/FS:NTFS"@ =~= "/FS:"@ + "NTFS"@);
    assert("/FS:EXFAT"@ =~= "/FS:"@ + "EXFAT"@);
    assert("/FS:FAT32"@[4] != "/FS:NTFS"@[4]);
    assert("/FS:FAT32"@[4] != "/FS:EXFAT"@[4]);
    assert("/FS:NTFS"@[4] != "/FS:EXFAT"@[4]);
}

/// The write mode recommended for a hybrid image: a raw copy whenever it
/// has an MBR; otherwise the ISO hybrid mode exactly when it carries an
/// ISOLINUX or a SYSLINUX marker (the two markers count alike), and a
/// standard copy when it carries neither.
pub proof fn lemma_recommended_write_mode(info: HybridIsoInfo, swapped: HybridIsoInfo)
    ensures
        info.has_mbr ==> recommended_write_mode(info) == HybridWriteMode::DdRaw,
        !info.has_mbr ==> (recommended_write_mode(info) == HybridWriteMode::IsoHybrid <==> (info.has_isolinux
            || info.has_syslinux)),
        !info.has_mbr && !info.has_isolinux && !info.has_syslinux ==> recommended_write_mode(info)
            == HybridWriteMode::StandardIso,
        swapped.has_mbr == info.has_mbr && swapped.has_isolinux == info.has_syslinux && swapped.has_syslinux
            == info.has_isolinux ==> recommended_write_mode(swapped) == recommended_write_mode(info),
{
}

/// In the GPT the library lays down, each header describes the entry array
/// written where it points: the array is written at the header's entry
/// sector, it is `num_partition_entries * partition_entry_size` (128
/// entries of 128 bytes, 16384) bytes long, and the header's entry-array
/// checksum is the CRC-32 of exactly those bytes. The primary header is
/// written at its own sector (1), the backup header in the last
/// `sector_size` bytes of the device (its own sector, the last, when the
/// size is a whole number of sectors), and each names the other.
pub proof fn lemma_gpt_headers_describe_entry_arrays(
    device_size: u64,
    sector_size: u64,
    disk_guid: Seq<u8>,
    partition_guid: Seq<u8>,
    h: GptHeader,
    b: GptHeader,
    a: GptEntryArray,
)
    requires
        sector_size > 0,
        device_size / sector_size >= 2048,
        is_gpt_header_for(h, device_size, sector_size, disk_guid),
        h.partition_entry_crc32 == crc32(entry_area(a.entries@)),
        header_crc_ok(h),
        is_backup_of(b, h, backup_entries_lba(device_size, sector_size)),
        is_single_esp(a, device_size, sector_size, partition_guid),
    ensures
        ({
            let w = gpt_layout(
                device_size,
                sector_size,
                gpt_header_bytes(h),
                gpt_header_bytes(b),
                entry_area(a.entries@),
            );
            &&& w[2].0 == h.current_lba * sector_size
            &&& w[2].1 == gpt_header_bytes(h)
            &&& w[3].0 == h.partition_entry_lba * sector_size
            &&& w[3].1.len() == h.num_partition_entries * h.partition_entry_size
            &&& w[3].1.len() == 16384
            &&& h.partition_entry_crc32 == crc32(w[3].1)
            &&& w[4].0 == b.partition_entry_lba * sector_size
            &&& w[4].1.len() == b.num_partition_entries * b.partition_entry_size
            &&& b.partition_entry_crc32 == crc32(w[4].1)
            &&& w[5].0 == device_size - sector_size
            &&& device_size % sector_size == 0 ==> w[5].0 == b.current_lba * sector_size
            &&& w[5].1 == gpt_header_bytes(b)
            &&& b.current_lba == h.backup_lba
            &&& b.backup_lba == h.current_lba
            &&& b.current_lba == device_size / sector_size - 1
        }),
{
    let t = device_size / sector_size;
    vstd::arithmetic::div_mod::lemma_fundamental_div_mod(device_size as int, sector_size as int);
    assert(sector_size * t >= sector_size * 2048) by (nonlinear_arith)
        requires t >= 2048, sector_size > 0;
    assert((t - 33) * sector_size == t * sector_size - 33 * sector_size) by (nonlinear_arith);
    assert(t * sector_size == sector_size * t) by (nonlinear_arith);
    assert((t - 1) * sector_size == t * sector_size - sector_size) by (nonlinear_arith);
    assert(t * sector_size <= device_size);
    let w = gpt_layout(device_size, sector_size, gpt_header_bytes(h), gpt_header_bytes(b), entry_area(a.entries@));
    let e0 = a.entries@[0];
    lemma_utf16le_len(e0.name@);
    assert(gpt_entry_bytes(e0).len() == 128);
    assert(a.entries@.drop_last() =~= Seq::<crate::disk::partition::GptPartitionEntry>::empty());
    assert(a.entries@.last() == e0);
    assert(gpt_entries_concat(Seq::<crate::disk::partition::GptPartitionEntry>::empty()).len() == 0);
    assert(gpt_entries_concat(a.entries@).len() == 128);
    assert(entry_area(a.entries@).len() == 16384);
    assert(w[2].0 == h.current_lba * sector_size);
    assert(w[3].0 == h.partition_entry_lba * sector_size);
    assert(w[3].1.len() == h.num_partition_entries * h.partition_entry_size);
    assert(b.partition_entry_lba == t - 33);
    assert(w[4].0 == b.partition_entry_lba * sector_size);
    assert(b.current_lba == t - 1);
    assert(w[5].0 == (device_size - sector_size) as u64);
    assert(device_size % sector_size == 0 ==> w[5].0 == b.current_lba * sector_size);
}

} // verus!
