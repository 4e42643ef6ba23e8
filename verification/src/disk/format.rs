//! File system formatting: the FAT32 boot sector and allocation table, the
//! drive letter a device path names, and the arguments of the system
//! format command.

use vstd::prelude::*;
use vstd::string::StringExecFns;
use crate::state::app_state::FileSystem;
use crate::utils::le::{le16, le32, group_le_lengths, push_bytes, push_le16, push_le32, push_zeros};
use crate::utils::random::random_u32;
use crate::disk::partition::{writes_view, DiskWrite};
use crate::utils::text::{ascii_string, ascii_text, concat_text, is_ascii_bytes, lossy_utf8, text_from_bytes};
use vstd::utf8::{encode_utf8, encode_utf8_valid_utf8, pop_first_scalar, valid_utf8};

verus! {

broadcast use group_le_lengths;

/// Sectors per FAT: clusters of 8 sectors (of the sector count truncated to
/// 32 bits), four bytes per FAT entry, rounded up to whole sectors.
pub open spec fn fat32_sectors_per_fat(total_sectors: u64, sector_size: u32) -> u32 {
    let total_clusters = (total_sectors as u32) / 8;
    let per_sector = sector_size / 4;
    ((total_clusters + per_sector - 1) / (per_sector as int)) as u32
}

/// Calculate sectors per FAT for FAT32
pub fn calculate_fat32_sectors_per_fat(total_sectors: u64, sector_size: u32) -> (n: u32)
    requires
        sector_size >= 4,
    ensures
        n == fat32_sectors_per_fat(total_sectors, sector_size),
{
    let sectors_per_cluster = 8u32;
    let total_clusters = (total_sectors as u32) / sectors_per_cluster;
    let fat_entries_per_sector = sector_size / 4;
    (total_clusters + fat_entries_per_sector - 1) / fat_entries_per_sector
}

/// The bytes of a FAT32 boot sector of `sector_size` bytes for a volume of
/// `total_sectors` sectors with the given volume serial number.
pub open spec fn fat32_boot_sector_bytes(total_sectors: u64, sector_size: u32, serial: u32) -> Seq<u8> {
    let total_32: u32 = if total_sectors > 0xFFFFFFFF { 0xFFFFFFFF } else { total_sectors as u32 };
    seq![0xEBu8, 0x58, 0x90]
        + seq![0x4Du8, 0x53, 0x44, 0x4F, 0x53, 0x35, 0x2E, 0x30]
        + le32(sector_size as nat).subrange(0, 2)
        + seq![8u8]
        + le16(32)
        + seq![2u8]
        + le16(0) + le16(0)
        + seq![0xF8u8]
        + le16(0) + le16(63) + le16(255)
        + le32(0)
        + le32(total_32 as nat)
        + le32(fat32_sectors_per_fat(total_sectors, sector_size) as nat)
        + le16(0) + le16(0)
        + le32(2)
        + le16(1) + le16(6)
        + Seq::new(12, |_i: int| 0u8)
        + seq![0x80u8, 0x00, 0x29]
        + le32(serial as nat)
        + seq![0x53u8, 0x49, 0x44, 0x4F, 0x5A, 0x44, 0x45, 0x56, 0x20, 0x20, 0x20]
        + seq![0x46u8, 0x41, 0x54, 0x33, 0x32, 0x20, 0x20, 0x20]
        + Seq::new((sector_size - 90) as nat, |_i: int| 0u8).update(420, 0x55u8).update(421, 0xAAu8)
}

/// The FAT32 boot sector with the given volume serial number: jump code,
/// OEM name "MSDOS5.0", the BIOS parameter block, the extended boot record
/// with label "SIDOZDEV" and type "FAT32", and the 0x55 0xAA signature at
/// bytes 510 and 511. The sector is `sector_size` bytes, so it must hold at
/// least 512.
pub fn fat32_boot_sector_with_serial(total_sectors: u64, sector_size: u32, serial: u32) -> (sector: Vec<u8>)
    requires
        512 <= sector_size,
        sector_size as int <= usize::MAX,
    ensures
        sector@ == fat32_boot_sector_bytes(total_sectors, sector_size, serial),
        sector@.len() == sector_size,
        sector@[510] == 0x55,
        sector@[511] == 0xAA,
{
    let mut s: Vec<u8> = Vec::new();
    s.push(0xEB);
    s.push(0x58);
    s.push(0x90);
    assert(s@ =~= seq![0xEBu8, 0x58, 0x90]);
    let oem: [u8; 8] = [0x4D, 0x53, 0x44, 0x4F, 0x53, 0x35, 0x2E, 0x30];
    push_bytes(&mut s, oem.as_slice());
    let ghost before_bps = s@;
    s.push((sector_size % 256) as u8);
    s.push((sector_size / 0x100 % 256) as u8);
    proof {
        crate::utils::le::lemma_le32_bytes(sector_size as nat);
        assert(s@ =~= before_bps + le32(sector_size as nat).subrange(0, 2));
    }
    s.push(8);
    push_le16(&mut s, 32);
    s.push(2);
    push_le16(&mut s, 0);
    push_le16(&mut s, 0);
    s.push(0xF8);
    push_le16(&mut s, 0);
    push_le16(&mut s, 63);
    push_le16(&mut s, 255);
    push_le32(&mut s, 0);
    let total_sectors_32: u32 = if total_sectors > 0xFFFFFFFF { 0xFFFFFFFF } else { total_sectors as u32 };
    push_le32(&mut s, total_sectors_32);
    let sectors_per_fat = calculate_fat32_sectors_per_fat(total_sectors, sector_size);
    push_le32(&mut s, sectors_per_fat);
    push_le16(&mut s, 0);
    push_le16(&mut s, 0);
    push_le32(&mut s, 2);
    push_le16(&mut s, 1);
    push_le16(&mut s, 6);
    push_zeros(&mut s, 12);
    s.push(0x80);
    s.push(0x00);
    s.push(0x29);
    let ghost before_serial = s@;
    push_le32(&mut s, serial);
    let label: [u8; 11] = [0x53, 0x49, 0x44, 0x4F, 0x5A, 0x44, 0x45, 0x56, 0x20, 0x20, 0x20];
    push_bytes(&mut s, label.as_slice());
    let fs_type: [u8; 8] = [0x46, 0x41, 0x54, 0x33, 0x32, 0x20, 0x20, 0x20];
    push_bytes(&mut s, fs_type.as_slice());
    assert(s@.len() == 90);
    let ghost fields = s@;
    push_zeros(&mut s, (sector_size - 90) as usize);
    s.set(510, 0x55);
    s.set(511, 0xAA);
    assert(s@ =~= fat32_boot_sector_bytes(total_sectors, sector_size, serial));
    s
}

/// Create FAT32 boot sector with a random volume serial number.
pub fn create_fat32_boot_sector(total_sectors: u64, sector_size: u32) -> (sector: Vec<u8>)
    requires
        512 <= sector_size,
        sector_size as int <= usize::MAX,
    ensures
        exists|serial: u32| sector@ == fat32_boot_sector_bytes(total_sectors, sector_size, serial),
        sector@.len() == sector_size,
{
    let serial = generate_volume_serial();
    fat32_boot_sector_with_serial(total_sectors, sector_size, serial)
}

/// Generate volume serial number
pub fn generate_volume_serial() -> u32 {
    random_u32()
}

/// The first FAT: sectors-per-FAT whole sectors of zeros with the media
/// descriptor entry 0x0FFFFFF8 and two end-of-chain entries 0x0FFFFFFF at
/// the start.
pub open spec fn fat32_table_bytes(len: nat) -> Seq<u8> {
    le32(0x0FFFFFF8) + le32(0x0FFFFFFF) + le32(0x0FFFFFFF) + Seq::new((len - 12) as nat, |_i: int| 0u8)
}

/// Create FAT32 table
pub fn create_fat32_table(total_sectors: u64, sector_size: u32) -> (table: Vec<u8>)
    requires
        sector_size >= 4,
        fat32_sectors_per_fat(total_sectors, sector_size) as int * sector_size as int <= u32::MAX,
        fat32_sectors_per_fat(total_sectors, sector_size) as int * sector_size as int >= 12,
    ensures
        table@ == fat32_table_bytes(
            (fat32_sectors_per_fat(total_sectors, sector_size) as int * sector_size as int) as nat,
        ),
{
    let sectors_per_fat = calculate_fat32_sectors_per_fat(total_sectors, sector_size);
    let len = (sectors_per_fat * sector_size) as usize;
    let mut table: Vec<u8> = Vec::new();
    push_le32(&mut table, 0x0FFFFFF8);
    push_le32(&mut table, 0x0FFFFFFF);
    push_le32(&mut table, 0x0FFFFFFF);
    push_zeros(&mut table, len - 12);
    assert(table@ =~= fat32_table_bytes(len as nat));
    table
}


/// In valid UTF-8 whose last byte is ASCII and whose bytes before the
/// second-to-last are ASCII, the second-to-last byte is ASCII too.
proof fn lemma_ascii_before_ascii(b: Seq<u8>)
    requires
        valid_utf8(b),
        b.len() >= 2,
        b[b.len() - 1] < 0x80,
        forall|i: int| 0 <= i < b.len() - 2 ==> #[trigger] b[i] < 0x80,
    ensures
        b[b.len() - 2] < 0x80,
    decreases b.len(),
{
    if b.len() > 2 {
        assert(b[0] < 0x80);
        assert(pop_first_scalar(b) =~= b.drop_first());
        lemma_ascii_before_ascii(b.drop_first());
    }
}

/// ASCII upper case of one byte.
pub open spec fn ascii_upper_byte(c: u8) -> u8 {
    if 0x61 <= c <= 0x7A {
        (c - 32) as u8
    } else {
        c
    }
}

/// The drive letter a device path names: "X:" itself or the "X:" of
/// "\\.\X:", in upper case. Both forms are ASCII, so upper case is ASCII
/// upper case.
pub open spec fn drive_letter_of(id: Seq<u8>) -> Option<Seq<char>> {
    if id.len() == 2 && id[1] == 0x3A {
        Some(ascii_text(id.map_values(|c: u8| ascii_upper_byte(c))))
    } else if id.len() == 6 && id.subrange(0, 4) == seq![0x5Cu8, 0x5C, 0x2E, 0x5C] && id[5] == 0x3A {
        Some(ascii_text(id.subrange(4, 6).map_values(|c: u8| ascii_upper_byte(c))))
    } else {
        None
    }
}

/// Upper-cases ASCII bytes into a string.
fn ascii_upper_string(b: &[u8]) -> (s: String)
    requires
        is_ascii_bytes(b@),
    ensures
        s@ == ascii_text(b@.map_values(|c: u8| ascii_upper_byte(c))),
{
    let mut out: Vec<u8> = Vec::new();
    let mut i: usize = 0;
    while i < b.len()
        invariant
            i <= b@.len(),
            is_ascii_bytes(b@),
            out@ == b@.subrange(0, i as int).map_values(|c: u8| ascii_upper_byte(c)),
        decreases b@.len() - i,
    {
        let c = b[i];
        let u = if 0x61 <= c && c <= 0x7A { c - 32 } else { c };
        out.push(u);
        i = i + 1;
        assert(out@ =~= b@.subrange(0, i as int).map_values(|c: u8| ascii_upper_byte(c)));
    }
    assert(b@.subrange(0, b@.len() as int) =~= b@);
    assert(is_ascii_bytes(out@));
    ascii_string(out.as_slice())
}

/// Extract drive letter from device path
pub fn extract_drive_letter(device_id: &str) -> (r: Option<String>)
    ensures
        match r {
            Some(s) => drive_letter_of(encode_utf8(device_id@)) == Some(s@),
            None => drive_letter_of(encode_utf8(device_id@)) is None,
        },
{
    let b = device_id.as_bytes();
    proof {
        broadcast use encode_utf8_valid_utf8;
    }
    if b.len() == 2 && b[1] == 0x3A {
        proof {
            lemma_ascii_before_ascii(b@);
        }
        return Some(ascii_upper_string(b));
    }
    if b.len() == 6 && b[0] == 0x5C && b[1] == 0x5C && b[2] == 0x2E && b[3] == 0x5C && b[5] == 0x3A {
        proof {
            lemma_ascii_before_ascii(b@);
            assert(b@.subrange(0, 4) =~= seq![0x5Cu8, 0x5C, 0x2E, 0x5C]);
        }
        let letter = &b[4..6];
        return Some(ascii_upper_string(letter));
    }
    proof {
        if b@.len() == 6 && b@.subrange(0, 4) == seq![0x5Cu8, 0x5C, 0x2E, 0x5C] {
            assert(b@[0] == b@.subrange(0, 4)[0]);
            assert(b@[1] == b@.subrange(0, 4)[1]);
            assert(b@[2] == b@.subrange(0, 4)[2]);
            assert(b@[3] == b@.subrange(0, 4)[3]);
        }
    }
    None
}

/// The `/FS:` argument of the format command.
pub open spec fn fs_argument(fs: FileSystem) -> Seq<char> {
    match fs {
        FileSystem::Fat32 => "/FS:FAT32"@,
        FileSystem::Ntfs => "/FS:NTFS"@,
        FileSystem::ExFat => "/FS:EXFAT"@,
    }
}

/// The arguments of `cmd` that quick-format drive `letter` with the given
/// file system and the volume label SIDOZDEV.
pub fn format_command_args(letter: &str, fs: FileSystem) -> (args: Vec<String>)
    ensures
        args@.map_values(|a: String| a@) == seq!["/C"@, "format"@, letter@, fs_argument(fs), "/V:SIDOZDEV"@, "/Q"@, "/Y"@],
{
    let mut args: Vec<String> = Vec::new();
    args.push(String::from_str("/C"));
    args.push(String::from_str("format"));
    args.push(String::from_str(letter));
    args.push(match fs {
        FileSystem::Fat32 => String::from_str("/FS:FAT32"),
        FileSystem::Ntfs => String::from_str("/FS:NTFS"),
        FileSystem::ExFat => String::from_str("/FS:EXFAT"),
    });
    args.push(String::from_str("/V:SIDOZDEV"));
    args.push(String::from_str("/Q"));
    args.push(String::from_str("/Y"));
    assert(args@.map_values(|a: String| a@) =~= seq!["/C"@, "format"@, letter@, fs_argument(fs), "/V:SIDOZDEV"@, "/Q"@, "/Y"@]);
    args
}


/// How a device is formatted: with the system format command when the
/// device is a drive letter, natively otherwise (only FAT32 has a native
/// formatter; the others fail with a message).
pub enum FormatRoute {
    /// Run `cmd` with these arguments.
    Command(Vec<String>),
    /// Write a FAT32 boot sector and allocation table directly.
    NativeFat32,
    /// No native formatter: fail with this message.
    Unsupported(String),
}

/// The name a file system goes by in format messages.
pub open spec fn fs_name(fs: FileSystem) -> Seq<char> {
    match fs {
        FileSystem::Fat32 => "FAT32"@,
        FileSystem::Ntfs => "NTFS"@,
        FileSystem::ExFat => "exFAT"@,
    }
}

/// The message of a file system that has no native formatter.
pub open spec fn unsupported_text(fs: FileSystem) -> Seq<char> {
    match fs {
        FileSystem::Fat32 => Seq::<char>::empty(),
        FileSystem::Ntfs => "Native NTFS formatting requires Windows format command"@,
        FileSystem::ExFat => "Native exFAT formatting requires Windows format command"@,
    }
}

/// Chooses how to format `device_id` with `fs`.
pub fn format_route(device_id: &str, fs: FileSystem) -> (route: FormatRoute)
    ensures
        match drive_letter_of(encode_utf8(device_id@)) {
            Some(letter) => route matches FormatRoute::Command(args) && args@.map_values(|a: String| a@) == seq![
                "/C"@,
                "format"@,
                letter,
                fs_argument(fs),
                "/V:SIDOZDEV"@,
                "/Q"@,
                "/Y"@,
            ],
            None => match fs {
                FileSystem::Fat32 => route is NativeFat32,
                _ => route matches FormatRoute::Unsupported(m) && m@ == unsupported_text(fs),
            },
        },
{
    match extract_drive_letter(device_id) {
        Some(letter) => FormatRoute::Command(format_command_args(letter.as_str(), fs)),
        None => match fs {
            FileSystem::Fat32 => FormatRoute::NativeFat32,
            FileSystem::Ntfs => FormatRoute::Unsupported(
                String::from_str("Native NTFS formatting requires Windows format command"),
            ),
            FileSystem::ExFat => FormatRoute::Unsupported(
                String::from_str("Native exFAT formatting requires Windows format command"),
            ),
        },
    }
}

/// The message of a format command that failed, with what it wrote to its
/// error stream.
pub fn format_failure_message(fs: FileSystem, stderr: &[u8]) -> (m: String)
    ensures
        m@ == fs_name(fs) + " format failed: "@ + lossy_utf8(stderr@),
{
    let head = match fs {
        FileSystem::Fat32 => String::from_str("FAT32 format failed: "),
        FileSystem::Ntfs => String::from_str("NTFS format failed: "),
        FileSystem::ExFat => String::from_str("exFAT format failed: "),
    };
    proof {
        reveal_strlit("FAT32 format failed: ");
        reveal_strlit("NTFS format failed: ");
        reveal_strlit("exFAT format failed: ");
        reveal_strlit(" format failed: ");
        reveal_strlit("FAT32");
        reveal_strlit("NTFS");
        reveal_strlit("exFAT");
    }
    let detail = text_from_bytes(stderr);
    let m = concat_text(head.as_str(), detail.as_str());
    assert(m@ =~= fs_name(fs) + " format failed: "@ + lossy_utf8(stderr@));
    m
}

/// What a native FAT32 format writes on a disk of `disk_size` bytes with
/// sectors of `sector_size` bytes: the boot sector (with volume serial
/// `serial`) at the start, and the two allocation tables the boot sector
/// declares, the first 32 sectors in and the second right after it.
pub open spec fn fat32_layout(disk_size: u64, sector_size: u32, serial: u32) -> Seq<(u64, Seq<u8>)> {
    let total = (disk_size / (sector_size as u64)) as u64;
    let per_fat = fat32_sectors_per_fat(total, sector_size);
    let table = fat32_table_bytes((per_fat as int * sector_size as int) as nat);
    seq![
        (0u64, fat32_boot_sector_bytes(total, sector_size, serial)),
        ((32 * sector_size) as u64, table),
        (((32 + per_fat) * sector_size) as u64, table),
    ]
}

/// Whether a native FAT32 format can be laid out for the geometry: sectors
/// of at least 512 bytes, a table offset that fits the 32-bit signed seek
/// the formatter uses, and a table whose size fits 32 bits.
pub open spec fn fat32_geometry_ok(disk_size: u64, sector_size: u32) -> bool {
    let total = (disk_size / (sector_size as u64)) as u64;
    &&& 512 <= sector_size
    &&& 32 * sector_size <= i32::MAX
    &&& fat32_sectors_per_fat(total, sector_size) as int * sector_size as int <= u32::MAX
    &&& fat32_sectors_per_fat(total, sector_size) as int * sector_size as int >= 12
}

/// The writes of a native FAT32 format with volume serial `serial`.
pub fn fat32_layout_with_serial(disk_size: u64, sector_size: u32, serial: u32) -> (writes: Vec<DiskWrite>)
    requires
        fat32_geometry_ok(disk_size, sector_size),
    ensures
        writes_view(writes@) == fat32_layout(disk_size, sector_size, serial),
{
    let total = disk_size / (sector_size as u64);
    let boot = fat32_boot_sector_with_serial(total, sector_size, serial);
    let table = create_fat32_table(total, sector_size);
    let second = create_fat32_table(total, sector_size);
    let per_fat = calculate_fat32_sectors_per_fat(total, sector_size);
    let first_offset = 32 * (sector_size as u64);
    let len = per_fat as u64 * sector_size as u64;
    let mut writes: Vec<DiskWrite> = Vec::new();
    writes.push(DiskWrite { offset: 0, data: boot });
    writes.push(DiskWrite { offset: first_offset, data: table });
    writes.push(DiskWrite { offset: first_offset + len, data: second });
    assert(first_offset + len == (32 + per_fat) * sector_size) by (nonlinear_arith)
        requires
            first_offset == 32 * sector_size,
            len == per_fat * sector_size,
    {
    }
    assert(writes_view(writes@) =~= fat32_layout(disk_size, sector_size, serial));
    writes
}

/// The writes of a native FAT32 format, with a random volume serial.
pub fn fat32_format_layout(disk_size: u64, sector_size: u32) -> (writes: Vec<DiskWrite>)
    requires
        fat32_geometry_ok(disk_size, sector_size),
    ensures
        exists|serial: u32| writes_view(writes@) == fat32_layout(disk_size, sector_size, serial),
{
    let serial = generate_volume_serial();
    fat32_layout_with_serial(disk_size, sector_size, serial)
}

/// Whether the geometry allows a native FAT32 layout (the formatter panics
/// or misplaces the table otherwise).
pub fn fat32_geometry_fits(disk_size: u64, sector_size: u32) -> (ok: bool)
    ensures
        ok == fat32_geometry_ok(disk_size, sector_size),
{
    if sector_size < 512 || sector_size > 67108863 {
        return false;
    }
    let total = disk_size / (sector_size as u64);
    let per_fat = calculate_fat32_sectors_per_fat(total, sector_size);
    let a = per_fat as u64;
    let b = sector_size as u64;
    assert(a * b <= u64::MAX) by (nonlinear_arith)
        requires
            a <= u32::MAX,
            b <= u32::MAX,
    {
    }
    let size = a * b;
    size <= 0xFFFF_FFFF && size >= 12
}
} // verus!
