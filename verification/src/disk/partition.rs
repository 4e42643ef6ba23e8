//! Partition tables: the Master Boot Record, the GUID Partition Table
//! header and entries, and the sequence of sector writes that lays a
//! fresh table onto a device.

use vstd::prelude::*;
use crate::state::app_state::{BootMode, PartitionScheme};
use crate::utils::le::{le16, le32, le64, group_le_lengths, push_bytes, push_le16, push_le32, push_le64, push_zeros};
use crate::utils::random::random_bytes_16;
use crate::utils::crc::{crc32, crc32_of};

verus! {

broadcast use group_le_lengths;

/// Partition entry in MBR
#[derive(Debug, Clone, Copy)]
pub struct PartitionEntry {
    pub bootable: u8,
    pub start_chs: [u8; 3],
    pub partition_type: u8,
    pub end_chs: [u8; 3],
    pub start_lba: u32,
    pub size_lba: u32,
}

/// The 16 bytes of an MBR partition entry.
pub open spec fn entry_bytes(e: PartitionEntry) -> Seq<u8> {
    seq![e.bootable] + e.start_chs@ + seq![e.partition_type] + e.end_chs@
        + le32(e.start_lba as nat) + le32(e.size_lba as nat)
}

/// An all-zero (unused) partition entry.
pub open spec fn empty_entry() -> PartitionEntry {
    PartitionEntry {
        bootable: 0,
        start_chs: [0u8, 0u8, 0u8],
        partition_type: 0,
        end_chs: [0u8, 0u8, 0u8],
        start_lba: 0,
        size_lba: 0,
    }
}

/// Copies a 16-byte buffer into an array.
fn to_array_16(v: &Vec<u8>) -> (a: [u8; 16])
    requires
        v@.len() == 16,
    ensures
        a@ == v@,
{
    let mut a = [0u8; 16];
    let mut i: usize = 0;
    while i < 16
        invariant
            i <= 16,
            v@.len() == 16,
            a@.len() == 16,
            forall|j: int| 0 <= j < i ==> a@[j] == v@[j],
        decreases 16 - i,
    {
        a[i] = v[i];
        i = i + 1;
    }
    assert(a@ =~= v@);
    a
}

impl PartitionEntry {
    pub fn new() -> (e: Self)
        ensures
            e == empty_entry(),
    {
        Self {
            bootable: 0,
            start_chs: [0, 0, 0],
            partition_type: 0,
            end_chs: [0, 0, 0],
            start_lba: 0,
            size_lba: 0,
        }
    }

    /// The on-disk form: status, CHS start, type, CHS end, then the first
    /// sector and the sector count as little-endian 32-bit values.
    pub fn to_bytes(&self) -> (bytes: [u8; 16])
        ensures
            bytes@ == entry_bytes(*self),
            bytes@.len() == 16,
    {
        let mut v: Vec<u8> = Vec::new();
        v.push(self.bootable);
        v.push(self.start_chs[0]);
        v.push(self.start_chs[1]);
        v.push(self.start_chs[2]);
        v.push(self.partition_type);
        v.push(self.end_chs[0]);
        v.push(self.end_chs[1]);
        v.push(self.end_chs[2]);
        push_le32(&mut v, self.start_lba);
        push_le32(&mut v, self.size_lba);
        assert(v@ =~= entry_bytes(*self));
        to_array_16(&v)
    }
}

/// Master Boot Record structure
#[derive(Debug)]
pub struct MasterBootRecord {
    pub boot_code: [u8; 440],
    pub disk_signature: [u8; 4],
    pub reserved: [u8; 2],
    pub partition_table: [PartitionEntry; 4],
    pub boot_signature: [u8; 2],
}

/// The 512 bytes of a Master Boot Record.
pub open spec fn mbr_bytes(m: MasterBootRecord) -> Seq<u8> {
    m.boot_code@ + m.disk_signature@ + m.reserved@
        + entry_bytes(m.partition_table@[0]) + entry_bytes(m.partition_table@[1])
        + entry_bytes(m.partition_table@[2]) + entry_bytes(m.partition_table@[3])
        + m.boot_signature@
}

/// The MBR boot signature 0x55 0xAA.
pub open spec fn boot_signature_bytes() -> Seq<u8> {
    seq![0x55u8, 0xAAu8]
}

impl MasterBootRecord {
    pub fn new() -> (m: Self)
        ensures
            m.boot_code@ == Seq::new(440, |_i: int| 0u8),
            m.disk_signature@ == seq![0u8, 0, 0, 0],
            m.reserved@ == seq![0u8, 0],
            forall|i: int| 0 <= i < 4 ==> #[trigger] m.partition_table@[i] == empty_entry(),
            m.boot_signature@ == boot_signature_bytes(),
    {
        let m = Self {
            boot_code: [0; 440],
            disk_signature: [0, 0, 0, 0],
            reserved: [0, 0],
            partition_table: [PartitionEntry::new(), PartitionEntry::new(), PartitionEntry::new(), PartitionEntry::new()],
            boot_signature: [0x55, 0xAA],
        };
        assert(m.boot_code@ =~= Seq::new(440, |_i: int| 0u8));
        m
    }

    /// Copies the first `min(code.len(), 440)` bytes of `code` over the
    /// start of the boot code area.
    pub fn set_boot_code(&mut self, code: &[u8])
        ensures
            ({
                let n = if code@.len() < 440 { code@.len() as int } else { 440 };
                final(self).boot_code@ == code@.subrange(0, n) + old(self).boot_code@.subrange(n, 440)
            }),
            final(self).disk_signature == old(self).disk_signature,
            final(self).reserved == old(self).reserved,
            final(self).partition_table == old(self).partition_table,
            final(self).boot_signature == old(self).boot_signature,
    {
        let len = if code.len() < 440 { code.len() } else { 440 };
        let mut i: usize = 0;
        while i < len
            invariant
                len <= 440,
                len <= code@.len(),
                i <= len,
                self.boot_code@.len() == 440,
                forall|j: int| 0 <= j < i ==> self.boot_code@[j] == code@[j],
                forall|j: int| i <= j < 440 ==> self.boot_code@[j] == old(self).boot_code@[j],
                self.disk_signature == old(self).disk_signature,
                self.reserved == old(self).reserved,
                self.partition_table == old(self).partition_table,
                self.boot_signature == old(self).boot_signature,
            decreases len - i,
        {
            self.boot_code[i] = code[i];
            i = i + 1;
        }
        assert(self.boot_code@ =~= code@.subrange(0, len as int) + old(self).boot_code@.subrange(len as int, 440));
    }

    /// Marks the first entry as a GPT protective partition (type 0xEE)
    /// starting at sector 1 and covering 0xFFFFFFFF sectors.
    pub fn set_protective_mbr(&mut self)
        ensures
            final(self).partition_table@[0] == (PartitionEntry {
                partition_type: 0xEE,
                start_lba: 1,
                size_lba: 0xFFFFFFFF,
                ..old(self).partition_table@[0]
            }),
            forall|i: int| 1 <= i < 4 ==> #[trigger] final(self).partition_table@[i] == old(self).partition_table@[i],
            final(self).boot_code == old(self).boot_code,
            final(self).disk_signature == old(self).disk_signature,
            final(self).reserved == old(self).reserved,
            final(self).boot_signature == old(self).boot_signature,
    {
        let mut e = self.partition_table[0];
        e.partition_type = 0xEE;
        e.start_lba = 1;
        e.size_lba = 0xFFFFFFFF;
        self.partition_table[0] = e;
    }

    /// Makes the first entry an active FAT32 (LBA) partition starting at
    /// sector 2048; its size is left 0.
    pub fn create_single_partition(&mut self)
        ensures
            final(self).partition_table@[0] == (PartitionEntry {
                bootable: 0x80,
                partition_type: 0x0C,
                start_lba: 2048,
                size_lba: 0,
                ..old(self).partition_table@[0]
            }),
            forall|i: int| 1 <= i < 4 ==> #[trigger] final(self).partition_table@[i] == old(self).partition_table@[i],
            final(self).boot_code == old(self).boot_code,
            final(self).disk_signature == old(self).disk_signature,
            final(self).reserved == old(self).reserved,
            final(self).boot_signature == old(self).boot_signature,
    {
        let mut e = self.partition_table[0];
        e.bootable = 0x80;
        e.partition_type = 0x0C;
        e.start_lba = 2048;
        e.size_lba = 0;
        self.partition_table[0] = e;
    }

    /// The 512-byte sector: boot code, disk signature, reserved bytes, the
    /// four entries and the boot signature.
    pub fn to_bytes(&self) -> (bytes: Vec<u8>)
        ensures
            bytes@ == mbr_bytes(*self),
            bytes@.len() == 512,
    {
        let mut bytes: Vec<u8> = Vec::with_capacity(512);
        push_bytes(&mut bytes, self.boot_code.as_slice());
        push_bytes(&mut bytes, self.disk_signature.as_slice());
        push_bytes(&mut bytes, self.reserved.as_slice());
        let mut i: usize = 0;
        while i < 4
            invariant
                i <= 4,
                bytes@ == self.boot_code@ + self.disk_signature@ + self.reserved@
                    + entries_bytes(self.partition_table@, i as int),
            decreases 4 - i,
        {
            let e = self.partition_table[i].to_bytes();
            push_bytes(&mut bytes, e.as_slice());
            i = i + 1;
            assert(bytes@ =~= self.boot_code@ + self.disk_signature@ + self.reserved@
                + entries_bytes(self.partition_table@, i as int));
        }
        push_bytes(&mut bytes, self.boot_signature.as_slice());
        proof {
            reveal_with_fuel(entries_bytes, 5);
            assert(bytes@ =~= mbr_bytes(*self));
        }
        bytes
    }
}

/// The bytes of the first `n` MBR entries, in order.
pub open spec fn entries_bytes(entries: Seq<PartitionEntry>, n: int) -> Seq<u8>
    decreases n,
{
    if n <= 0 {
        seq![]
    } else {
        entries_bytes(entries, n - 1) + entry_bytes(entries[n - 1])
    }
}


/// A version-4 GUID: bits 12-15 of byte 6 hold 4, the top two bits of
/// byte 8 hold 0b10, the other bits come from `raw`.
pub open spec fn v4_guid_of(raw: Seq<u8>) -> Seq<u8> {
    raw.update(6, ((raw[6] & 0x0F) | 0x40) as u8).update(8, ((raw[8] & 0x3F) | 0x80) as u8)
}

/// Every byte is kept but the version and variant bits.
pub open spec fn is_v4_guid(g: Seq<u8>) -> bool {
    &&& g.len() == 16
    &&& g[6] & 0xF0 == 0x40
    &&& g[8] & 0xC0 == 0x80
}

/// Stamps the version (4) and variant (RFC 4122) bits onto 16 random bytes.
pub fn stamp_guid_v4(raw: [u8; 16]) -> (guid: [u8; 16])
    ensures
        guid@ == v4_guid_of(raw@),
        is_v4_guid(guid@),
{
    let mut guid = raw;
    guid[6] = (guid[6] & 0x0F) | 0x40;
    guid[8] = (guid[8] & 0x3F) | 0x80;
    let g6 = guid[6];
    let g8 = guid[8];
    let r6 = raw[6];
    let r8 = raw[8];
    assert(g6 & 0xF0 == 0x40) by (bit_vector)
        requires g6 == ((r6 & 0x0F) | 0x40);
    assert(g8 & 0xC0 == 0x80) by (bit_vector)
        requires g8 == ((r8 & 0x3F) | 0x80);
    assert(guid@ =~= v4_guid_of(raw@));
    guid
}

/// Generate a random GUID
pub fn generate_guid() -> (guid: [u8; 16])
    ensures
        is_v4_guid(guid@),
{
    stamp_guid_v4(random_bytes_16())
}

/// The GPT header signature "EFI PART".
pub open spec fn efi_part_signature() -> Seq<u8> {
    seq![0x45u8, 0x46, 0x49, 0x20, 0x50, 0x41, 0x52, 0x54]
}

/// GPT Header structure
#[derive(Debug)]
pub struct GptHeader {
    pub signature: [u8; 8],
    pub revision: [u8; 4],
    pub header_size: u32,
    pub crc32: u32,
    pub reserved: u32,
    pub current_lba: u64,
    pub backup_lba: u64,
    pub first_usable_lba: u64,
    pub last_usable_lba: u64,
    pub disk_guid: [u8; 16],
    pub partition_entry_lba: u64,
    pub num_partition_entries: u32,
    pub partition_entry_size: u32,
    pub partition_entry_crc32: u32,
}

/// The 92 bytes of the header fields in on-disk order, with `crc` in place
/// of the header checksum.
pub open spec fn gpt_fields_with_crc(h: GptHeader, crc: u32) -> Seq<u8> {
    h.signature@ + h.revision@ + le32(h.header_size as nat) + le32(crc as nat)
        + le32(h.reserved as nat) + le64(h.current_lba as nat) + le64(h.backup_lba as nat)
        + le64(h.first_usable_lba as nat) + le64(h.last_usable_lba as nat) + h.disk_guid@
        + le64(h.partition_entry_lba as nat) + le32(h.num_partition_entries as nat)
        + le32(h.partition_entry_size as nat) + le32(h.partition_entry_crc32 as nat)
}

/// The 92 bytes of the header fields in on-disk order.
pub open spec fn gpt_header_fields(h: GptHeader) -> Seq<u8> {
    gpt_fields_with_crc(h, h.crc32)
}

/// The header sector: the fields padded with zeros to 512 bytes.
pub open spec fn gpt_header_bytes(h: GptHeader) -> Seq<u8> {
    gpt_header_fields(h) + Seq::new(420, |_i: int| 0u8)
}

/// The header checksum is the CRC-32 of the 92 header bytes taken with the
/// checksum field zeroed.
pub open spec fn header_crc_ok(h: GptHeader) -> bool {
    h.crc32 == crc32(gpt_fields_with_crc(h, 0))
}

/// All fields of `a` and `b` agree but the header checksum.
pub open spec fn same_but_crc(a: GptHeader, b: GptHeader) -> bool {
    &&& a.signature == b.signature
    &&& a.revision == b.revision
    &&& a.header_size == b.header_size
    &&& a.reserved == b.reserved
    &&& a.current_lba == b.current_lba
    &&& a.backup_lba == b.backup_lba
    &&& a.first_usable_lba == b.first_usable_lba
    &&& a.last_usable_lba == b.last_usable_lba
    &&& a.disk_guid == b.disk_guid
    &&& a.partition_entry_lba == b.partition_entry_lba
    &&& a.num_partition_entries == b.num_partition_entries
    &&& a.partition_entry_size == b.partition_entry_size
    &&& a.partition_entry_crc32 == b.partition_entry_crc32
}

/// The primary-header fields (all but the two checksums) that
/// `GptHeader::new` sets for a disk of `disk_size / sector_size` sectors,
/// given the disk GUID.
pub open spec fn is_gpt_header_for(h: GptHeader, disk_size: u64, sector_size: u64, guid: Seq<u8>) -> bool
    recommends
        sector_size > 0,
{
    let total_sectors = disk_size / sector_size;
    &&& h.signature@ == efi_part_signature()
    &&& h.revision@ == seq![0x00u8, 0x00, 0x01, 0x00]
    &&& h.header_size == 92
    &&& h.reserved == 0
    &&& h.current_lba == 1
    &&& h.backup_lba == total_sectors - 1
    &&& h.first_usable_lba == 34
    &&& h.last_usable_lba == total_sectors - 34
    &&& h.disk_guid@ == guid
    &&& h.partition_entry_lba == 2
    &&& h.num_partition_entries == 128
    &&& h.partition_entry_size == 128
}

/// `b` is the backup copy of the header `h`: the same fields with the
/// current and backup sectors exchanged, the entry array read from sector
/// `entries_lba`, and its own checksum.
pub open spec fn is_backup_of(b: GptHeader, h: GptHeader, entries_lba: u64) -> bool {
    &&& b.signature == h.signature
    &&& b.revision == h.revision
    &&& b.header_size == h.header_size
    &&& b.reserved == h.reserved
    &&& b.current_lba == h.backup_lba
    &&& b.backup_lba == h.current_lba
    &&& b.first_usable_lba == h.first_usable_lba
    &&& b.last_usable_lba == h.last_usable_lba
    &&& b.disk_guid == h.disk_guid
    &&& b.partition_entry_lba == entries_lba
    &&& b.num_partition_entries == h.num_partition_entries
    &&& b.partition_entry_size == h.partition_entry_size
    &&& b.partition_entry_crc32 == h.partition_entry_crc32
    &&& header_crc_ok(b)
}

impl GptHeader {
    /// The header with its checksum computed over its other fields.
    pub fn sealed(self) -> (h: Self)
        ensures
            same_but_crc(h, self),
            header_crc_ok(h),
    {
        let mut h = self;
        h.crc32 = 0;
        let fields = h.fields_to_bytes();
        h.crc32 = crc32_of(fields.as_slice());
        h
    }

    /// A header for a disk of `disk_size` bytes in sectors of `sector_size`
    /// bytes, with the given disk GUID, an entry-array checksum of 0 and a
    /// valid header checksum. The last usable sector is 34 before the end,
    /// so the disk must hold at least 34 sectors.
    pub fn with_guid(disk_size: u64, sector_size: u64, disk_guid: [u8; 16]) -> (h: Self)
        requires
            sector_size > 0,
            disk_size / sector_size >= 34,
        ensures
            is_gpt_header_for(h, disk_size, sector_size, disk_guid@),
            h.partition_entry_crc32 == 0,
            header_crc_ok(h),
    {
        let total_sectors = disk_size / sector_size;
        let h = Self {
            signature: [0x45, 0x46, 0x49, 0x20, 0x50, 0x41, 0x52, 0x54],
            revision: [0x00, 0x00, 0x01, 0x00],
            header_size: 92,
            crc32: 0,
            reserved: 0,
            current_lba: 1,
            backup_lba: total_sectors - 1,
            first_usable_lba: 34,
            last_usable_lba: total_sectors - 34,
            disk_guid,
            partition_entry_lba: 2,
            num_partition_entries: 128,
            partition_entry_size: 128,
            partition_entry_crc32: 0,
        };
        assert(h.signature@ =~= efi_part_signature());
        assert(h.revision@ =~= seq![0x00u8, 0x00, 0x01, 0x00]);
        h.sealed()
    }

    /// A header with a freshly generated random disk GUID.
    pub fn new(disk_size: u64, sector_size: u64) -> (h: Self)
        requires
            sector_size > 0,
            disk_size / sector_size >= 34,
        ensures
            is_v4_guid(h.disk_guid@),
            is_gpt_header_for(h, disk_size, sector_size, h.disk_guid@),
            h.partition_entry_crc32 == 0,
            header_crc_ok(h),
    {
        let guid = generate_guid();
        let h = Self::with_guid(disk_size, sector_size, guid);
        h
    }

    /// The same header recording `entries_crc` as the checksum of the
    /// partition entry array, resealed.
    pub fn with_entries_crc(&self, entries_crc: u32) -> (h: Self)
        ensures
            h.partition_entry_crc32 == entries_crc,
            h.signature == self.signature,
            h.revision == self.revision,
            h.header_size == self.header_size,
            h.reserved == self.reserved,
            h.current_lba == self.current_lba,
            h.backup_lba == self.backup_lba,
            h.first_usable_lba == self.first_usable_lba,
            h.last_usable_lba == self.last_usable_lba,
            h.disk_guid == self.disk_guid,
            h.partition_entry_lba == self.partition_entry_lba,
            h.num_partition_entries == self.num_partition_entries,
            h.partition_entry_size == self.partition_entry_size,
            header_crc_ok(h),
    {
        let h = Self {
            signature: self.signature,
            revision: self.revision,
            header_size: self.header_size,
            crc32: 0,
            reserved: self.reserved,
            current_lba: self.current_lba,
            backup_lba: self.backup_lba,
            first_usable_lba: self.first_usable_lba,
            last_usable_lba: self.last_usable_lba,
            disk_guid: self.disk_guid,
            partition_entry_lba: self.partition_entry_lba,
            num_partition_entries: self.num_partition_entries,
            partition_entry_size: self.partition_entry_size,
            partition_entry_crc32: entries_crc,
        };
        h.sealed()
    }

    /// The backup copy of this header, for the last sector of the disk,
    /// with its copy of the entry array at sector `entries_lba`.
    pub fn backup(&self, entries_lba: u64) -> (b: Self)
        ensures
            is_backup_of(b, *self, entries_lba),
    {
        let b = Self {
            signature: self.signature,
            revision: self.revision,
            header_size: self.header_size,
            crc32: 0,
            reserved: self.reserved,
            current_lba: self.backup_lba,
            backup_lba: self.current_lba,
            first_usable_lba: self.first_usable_lba,
            last_usable_lba: self.last_usable_lba,
            disk_guid: self.disk_guid,
            partition_entry_lba: entries_lba,
            num_partition_entries: self.num_partition_entries,
            partition_entry_size: self.partition_entry_size,
            partition_entry_crc32: self.partition_entry_crc32,
        };
        b.sealed()
    }

    /// The 92 header bytes.
    fn fields_to_bytes(&self) -> (bytes: Vec<u8>)
        ensures
            bytes@ == gpt_header_fields(*self),
    {
        let mut bytes: Vec<u8> = Vec::with_capacity(512);
        push_bytes(&mut bytes, self.signature.as_slice());
        assert(bytes@ =~= self.signature@);
        push_bytes(&mut bytes, self.revision.as_slice());
        push_le32(&mut bytes, self.header_size);
        push_le32(&mut bytes, self.crc32);
        push_le32(&mut bytes, self.reserved);
        push_le64(&mut bytes, self.current_lba);
        push_le64(&mut bytes, self.backup_lba);
        push_le64(&mut bytes, self.first_usable_lba);
        push_le64(&mut bytes, self.last_usable_lba);
        push_bytes(&mut bytes, self.disk_guid.as_slice());
        push_le64(&mut bytes, self.partition_entry_lba);
        push_le32(&mut bytes, self.num_partition_entries);
        push_le32(&mut bytes, self.partition_entry_size);
        push_le32(&mut bytes, self.partition_entry_crc32);
        assert(bytes@ == gpt_header_fields(*self));
        bytes
    }

    /// The 512-byte header sector.
    pub fn to_bytes(&self) -> (bytes: Vec<u8>)
        ensures
            bytes@ == gpt_header_bytes(*self),
            bytes@.len() == 512,
    {
        let mut bytes = self.fields_to_bytes();
        push_zeros(&mut bytes, 420);
        assert(bytes@ =~= gpt_header_bytes(*self));
        bytes
    }
}


/// The EFI System Partition type GUID C12A7328-F81F-11D2-BA4B-00A0C93EC93B
/// in its on-disk (mixed-endian) byte order.
pub open spec fn esp_type_guid() -> Seq<u8> {
    seq![0x28u8, 0x73, 0x2A, 0xC1, 0x1F, 0xF8, 0xD2, 0x11, 0xBA, 0x4B, 0x00, 0xA0, 0xC9, 0x3E, 0xC9, 0x3B]
}

/// The partition name "EFI System Partition" in UTF-16 code units, padded
/// with zeros to 36 units.
pub open spec fn esp_name_units() -> Seq<u16> {
    seq![69u16, 70, 73, 32, 83, 121, 115, 116, 101, 109, 32, 80, 97, 114, 116, 105, 116, 105, 111, 110]
        + Seq::new(16, |_i: int| 0u16)
}

/// The code units of `esp_name_units` are those of the text
/// "EFI System Partition".
pub proof fn lemma_esp_name_is_text()
    ensures
        "EFI System Partition"@.len() == 20,
        forall|i: int| 0 <= i < 20 ==> esp_name_units()[i] == "EFI System Partition"@[i] as u16,
{
    reveal_strlit("EFI System Partition");
}

/// GPT Partition Entry
#[derive(Debug)]
pub struct GptPartitionEntry {
    pub partition_type_guid: [u8; 16],
    pub unique_guid: [u8; 16],
    pub starting_lba: u64,
    pub ending_lba: u64,
    pub attributes: u64,
    pub name: [u16; 36],
}

/// UTF-16 code units as little-endian byte pairs.
pub open spec fn utf16le(units: Seq<u16>) -> Seq<u8>
    decreases units.len(),
{
    if units.len() == 0 {
        seq![]
    } else {
        utf16le(units.drop_last()) + le16(units.last() as nat)
    }
}

/// Two bytes per code unit.
pub proof fn lemma_utf16le_len(units: Seq<u16>)
    ensures
        utf16le(units).len() == 2 * units.len(),
    decreases units.len(),
{
    broadcast use group_le_lengths;
    if units.len() > 0 {
        lemma_utf16le_len(units.drop_last());
    }
}

/// The 128 bytes of a GPT partition entry.
pub open spec fn gpt_entry_bytes(e: GptPartitionEntry) -> Seq<u8> {
    e.partition_type_guid@ + e.unique_guid@ + le64(e.starting_lba as nat) + le64(e.ending_lba as nat)
        + le64(e.attributes as nat) + utf16le(e.name@)
}

/// Copies a 128-byte buffer into an array.
fn to_array_128(v: &Vec<u8>) -> (a: [u8; 128])
    requires
        v@.len() == 128,
    ensures
        a@ == v@,
{
    let mut a = [0u8; 128];
    let mut i: usize = 0;
    while i < 128
        invariant
            i <= 128,
            v@.len() == 128,
            a@.len() == 128,
            forall|j: int| 0 <= j < i ==> a@[j] == v@[j],
        decreases 128 - i,
    {
        a[i] = v[i];
        i = i + 1;
    }
    assert(a@ =~= v@);
    a
}

impl GptPartitionEntry {
    /// An EFI System Partition spanning `start_lba..=end_lba` with the given
    /// unique GUID.
    pub fn efi_system_partition_with_guid(start_lba: u64, end_lba: u64, unique_guid: [u8; 16]) -> (e: Self)
        ensures
            e.partition_type_guid@ == esp_type_guid(),
            e.unique_guid@ == unique_guid@,
            e.starting_lba == start_lba,
            e.ending_lba == end_lba,
            e.attributes == 0,
            e.name@ == esp_name_units(),
    {
        let esp_guid = [
            0x28, 0x73, 0x2A, 0xC1,
            0x1F, 0xF8,
            0xD2, 0x11,
            0xBA, 0x4B, 0x00, 0xA0, 0xC9, 0x3E, 0xC9, 0x3B,
        ];
        let name: [u16; 36] = [
            69, 70, 73, 32, 83, 121, 115, 116, 101, 109, 32, 80, 97, 114, 116, 105, 116, 105, 111, 110,
            0, 0, 0, 0, 0, 0, 0, 0, 0, 0, 0, 0, 0, 0, 0, 0,
        ];
        assert(esp_guid@ =~= esp_type_guid());
        assert(name@ =~= esp_name_units());
        Self {
            partition_type_guid: esp_guid,
            unique_guid,
            starting_lba: start_lba,
            ending_lba: end_lba,
            attributes: 0,
            name,
        }
    }

    /// An EFI System Partition with a freshly generated unique GUID.
    pub fn new_efi_system_partition(start_lba: u64, end_lba: u64) -> (e: Self)
        ensures
            e.partition_type_guid@ == esp_type_guid(),
            is_v4_guid(e.unique_guid@),
            e.starting_lba == start_lba,
            e.ending_lba == end_lba,
            e.attributes == 0,
            e.name@ == esp_name_units(),
    {
        Self::efi_system_partition_with_guid(start_lba, end_lba, generate_guid())
    }

    /// The 128-byte on-disk entry.
    pub fn to_bytes(&self) -> (bytes: [u8; 128])
        ensures
            bytes@ == gpt_entry_bytes(*self),
            bytes@.len() == 128,
    {
        let mut v: Vec<u8> = Vec::with_capacity(128);
        push_bytes(&mut v, self.partition_type_guid.as_slice());
        assert(v@ =~= self.partition_type_guid@);
        push_bytes(&mut v, self.unique_guid.as_slice());
        push_le64(&mut v, self.starting_lba);
        push_le64(&mut v, self.ending_lba);
        push_le64(&mut v, self.attributes);
        let ghost prefix = v@;
        let mut i: usize = 0;
        while i < 36
            invariant
                i <= 36,
                self.name@.len() == 36,
                v@ == prefix + utf16le(self.name@.subrange(0, i as int)),
            decreases 36 - i,
        {
            push_le16(&mut v, self.name[i]);
            proof {
                let next = self.name@.subrange(0, i + 1);
                assert(next.drop_last() =~= self.name@.subrange(0, i as int));
            }
            i = i + 1;
        }
        proof {
            assert(self.name@.subrange(0, 36) =~= self.name@);
            lemma_utf16le_len(self.name@);
        }
        to_array_128(&v)
    }
}

/// GPT Entry Array
#[derive(Debug)]
pub struct GptEntryArray {
    pub entries: Vec<GptPartitionEntry>,
}

/// The entries' bytes, one after the other.
pub open spec fn gpt_entries_concat(entries: Seq<GptPartitionEntry>) -> Seq<u8>
    decreases entries.len(),
{
    if entries.len() == 0 {
        seq![]
    } else {
        gpt_entries_concat(entries.drop_last()) + gpt_entry_bytes(entries.last())
    }
}

/// Zero bytes that bring a length of `n` up to a multiple of 512.
pub open spec fn sector_padding(n: nat) -> nat {
    if n % 512 == 0 {
        0
    } else {
        (512 - n % 512) as nat
    }
}

impl GptEntryArray {
    /// A single EFI System Partition from sector 2048 to 2048 sectors before
    /// the end of the disk, with the given unique GUID.
    pub fn single_partition_with_guid(disk_size: u64, sector_size: u64, unique_guid: [u8; 16]) -> (a: Self)
        requires
            sector_size > 0,
            disk_size / sector_size >= 2048,
        ensures
            a.entries@.len() == 1,
            a.entries@[0].partition_type_guid@ == esp_type_guid(),
            a.entries@[0].unique_guid@ == unique_guid@,
            a.entries@[0].starting_lba == 2048,
            a.entries@[0].ending_lba == disk_size / sector_size - 2048,
            a.entries@[0].attributes == 0,
            a.entries@[0].name@ == esp_name_units(),
    {
        let total_sectors = disk_size / sector_size;
        let start_lba: u64 = 2048;
        let end_lba = total_sectors - 2048;
        let mut entries: Vec<GptPartitionEntry> = Vec::new();
        entries.push(GptPartitionEntry::efi_system_partition_with_guid(start_lba, end_lba, unique_guid));
        Self { entries }
    }

    /// A single EFI System Partition with a freshly generated unique GUID.
    pub fn new_single_partition(disk_size: u64, sector_size: u64) -> (a: Self)
        requires
            sector_size > 0,
            disk_size / sector_size >= 2048,
        ensures
            a.entries@.len() == 1,
            a.entries@[0].partition_type_guid@ == esp_type_guid(),
            is_v4_guid(a.entries@[0].unique_guid@),
            a.entries@[0].starting_lba == 2048,
            a.entries@[0].ending_lba == disk_size / sector_size - 2048,
            a.entries@[0].attributes == 0,
            a.entries@[0].name@ == esp_name_units(),
    {
        Self::single_partition_with_guid(disk_size, sector_size, generate_guid())
    }

    /// The entries one after the other, zero-padded to a whole number of
    /// 512-byte sectors.
    pub fn to_bytes(&self) -> (bytes: Vec<u8>)
        requires
            self.entries@.len() <= 128,
        ensures
            bytes@ == gpt_entries_concat(self.entries@) + Seq::new(
                sector_padding(128 * self.entries@.len()),
                |_i: int| 0u8,
            ),
            bytes@.len() % 512 == 0,
    {
        let mut bytes: Vec<u8> = Vec::with_capacity(128 * 128);
        let mut i: usize = 0;
        while i < self.entries.len()
            invariant
                i <= self.entries@.len() <= 128,
                bytes@ == gpt_entries_concat(self.entries@.subrange(0, i as int)),
                bytes@.len() == 128 * i,
            decreases self.entries@.len() - i,
        {
            let e = self.entries[i].to_bytes();
            push_bytes(&mut bytes, e.as_slice());
            proof {
                let next = self.entries@.subrange(0, i + 1);
                assert(next.drop_last() =~= self.entries@.subrange(0, i as int));
            }
            i = i + 1;
        }
        assert(self.entries@.subrange(0, i as int) =~= self.entries@);
        let ghost body = bytes@;
        let mut pad: usize = 0;
        while bytes.len() % 512 != 0
            invariant
                body.len() <= 128 * 128,
                bytes@ == body + Seq::new(pad as nat, |_i: int| 0u8),
                pad < 512,
                (body.len() % 512 == 0 ==> pad == 0),
                (body.len() % 512 != 0 ==> pad <= 512 - body.len() % 512),
            decreases 512 - pad,
        {
            bytes.push(0);
            pad = pad + 1;
            assert(bytes@ =~= body + Seq::new(pad as nat, |_i: int| 0u8));
        }
        bytes
    }
}


/// The boot code placed for legacy BIOS boot: a short jump, then zeros.
pub open spec fn bios_boot_code_bytes() -> Seq<u8> {
    seq![0xEBu8, 0x3C] + Seq::new(438, |_i: int| 0u8)
}

/// BIOS boot code (a placeholder jump instruction followed by zeros).
pub fn bios_boot_code() -> (code: [u8; 440])
    ensures
        code@ == bios_boot_code_bytes(),
{
    let mut code = [0u8; 440];
    code[0] = 0xEB;
    code[1] = 0x3C;
    assert(code@ =~= bios_boot_code_bytes());
    code
}

/// The size in sectors of the single partition on a disk of
/// `total_sectors` sectors: from sector 2048 to the end, as much as the
/// 32-bit field holds (nothing when the disk ends before sector 2048).
pub open spec fn partition_size_lba(total_sectors: u64) -> u32 {
    if total_sectors <= 2048 {
        0
    } else if total_sectors - 2048 > u32::MAX {
        u32::MAX
    } else {
        (total_sectors - 2048) as u32
    }
}

/// The single active FAT32 (LBA) entry the table creation leaves in slot 0:
/// from sector 2048, `size_lba` sectors long.
pub open spec fn single_partition_entry(size_lba: u32) -> PartitionEntry {
    PartitionEntry {
        bootable: 0x80,
        start_chs: [0u8, 0u8, 0u8],
        partition_type: 0x0C,
        end_chs: [0u8, 0u8, 0u8],
        start_lba: 2048,
        size_lba,
    }
}

/// The Master Boot Record written when an MBR table is created on a disk of
/// `total_sectors` sectors: the BIOS boot code for legacy boot (zeros
/// otherwise), the single active FAT32 entry covering the disk from sector
/// 2048, three empty entries and the boot signature.
pub open spec fn table_mbr_bytes(boot_mode: BootMode, total_sectors: u64) -> Seq<u8> {
    let code = if boot_mode == BootMode::BiosLegacy {
        bios_boot_code_bytes()
    } else {
        Seq::new(440, |_i: int| 0u8)
    };
    code + seq![0u8, 0, 0, 0] + seq![0u8, 0] + entry_bytes(single_partition_entry(partition_size_lba(total_sectors)))
        + entry_bytes(empty_entry()) + entry_bytes(empty_entry()) + entry_bytes(empty_entry())
        + boot_signature_bytes()
}

/// The protective MBR that precedes a GPT: zero boot code and one entry of
/// type 0xEE from sector 1 over 0xFFFFFFFF sectors.
pub open spec fn protective_mbr_bytes() -> Seq<u8> {
    Seq::new(440, |_i: int| 0u8) + seq![0u8, 0, 0, 0] + seq![0u8, 0] + entry_bytes(
        PartitionEntry { partition_type: 0xEE, start_lba: 1, size_lba: 0xFFFFFFFF, ..empty_entry() },
    ) + entry_bytes(empty_entry()) + entry_bytes(empty_entry()) + entry_bytes(empty_entry())
        + boot_signature_bytes()
}

/// One write of a partition table layout: `data` at byte `offset`.
pub struct DiskWrite {
    pub offset: u64,
    pub data: Vec<u8>,
}

/// A layout as (offset, bytes) pairs.
pub open spec fn writes_view(w: Seq<DiskWrite>) -> Seq<(u64, Seq<u8>)> {
    w.map_values(|d: DiskWrite| (d.offset, d.data@))
}

/// The MBR sector for the given boot mode on a disk of `total_sectors`
/// sectors, built as the table creation builds it.
pub fn table_mbr(boot_mode: BootMode, total_sectors: u64) -> (m: MasterBootRecord)
    ensures
        mbr_bytes(m) == table_mbr_bytes(boot_mode, total_sectors),
{
    let mut mbr = MasterBootRecord::new();
    match boot_mode {
        BootMode::BiosLegacy => {
            let code = bios_boot_code();
            mbr.set_boot_code(code.as_slice());
        },
        BootMode::Uefi | BootMode::UefiSecureBoot => {
            mbr.set_protective_mbr();
        },
    }
    mbr.create_single_partition();
    let size: u32 = if total_sectors <= 2048 {
        0
    } else if total_sectors - 2048 > 0xFFFF_FFFF {
        0xFFFF_FFFF
    } else {
        (total_sectors - 2048) as u32
    };
    let mut first = mbr.partition_table[0];
    first.size_lba = size;
    mbr.partition_table[0] = first;
    proof {
        assert(mbr.partition_table@[0] == single_partition_entry(partition_size_lba(total_sectors)));
        assert(mbr.partition_table@[1] == empty_entry());
        assert(mbr.partition_table@[2] == empty_entry());
        assert(mbr.partition_table@[3] == empty_entry());
        if boot_mode == BootMode::BiosLegacy {
            assert(mbr.boot_code@ =~= bios_boot_code_bytes());
        } else {
            assert(mbr.boot_code@ =~= Seq::new(440, |_i: int| 0u8));
        }
        assert(mbr_bytes(mbr) =~= table_mbr_bytes(boot_mode, total_sectors));
    }
    mbr
}

/// The writes that lay an MBR partition table onto a device of
/// `total_sectors` sectors: the first MiB cleared, then the Master Boot
/// Record at offset 0.
pub fn mbr_table_writes(boot_mode: BootMode, total_sectors: u64) -> (writes: Vec<DiskWrite>)
    ensures
        writes_view(writes@) == seq![
            (0u64, Seq::new(1024 * 1024, |_i: int| 0u8)),
            (0u64, table_mbr_bytes(boot_mode, total_sectors)),
        ],
{
    let mut clean: Vec<u8> = Vec::new();
    push_zeros(&mut clean, 1024 * 1024);
    assert(clean@ =~= Seq::new(1024 * 1024, |_i: int| 0u8));
    let mbr = table_mbr(boot_mode, total_sectors);
    let mut writes: Vec<DiskWrite> = Vec::new();
    writes.push(DiskWrite { offset: 0, data: clean });
    writes.push(DiskWrite { offset: 0, data: mbr.to_bytes() });
    assert(writes_view(writes@) =~= seq![
        (0u64, Seq::new(1024 * 1024, |_i: int| 0u8)),
        (0u64, table_mbr_bytes(boot_mode, total_sectors)),
    ]);
    writes
}

/// The protective MBR sector.
pub fn protective_mbr() -> (m: MasterBootRecord)
    ensures
        mbr_bytes(m) == protective_mbr_bytes(),
{
    let mut mbr = MasterBootRecord::new();
    mbr.set_protective_mbr();
    proof {
        assert(mbr.partition_table@[1] == empty_entry());
        assert(mbr.partition_table@[2] == empty_entry());
        assert(mbr.partition_table@[3] == empty_entry());
        assert(mbr_bytes(mbr) =~= protective_mbr_bytes());
    }
    mbr
}

/// The partition entry array as written and checksummed: the entries one
/// after the other, then zeros up to 128 entries of 128 bytes.
pub open spec fn entry_area(entries: Seq<GptPartitionEntry>) -> Seq<u8> {
    gpt_entries_concat(entries) + Seq::new((16384 - 128 * entries.len()) as nat, |_i: int| 0u8)
}

/// The sector of the backup entry array: 33 before the end of the disk,
/// just after the last usable sector.
pub open spec fn backup_entries_lba(device_size: u64, sector_size: u64) -> u64 {
    (device_size / sector_size - 33) as u64
}

/// The GPT writes: the first 2 MiB cleared, the protective MBR at offset
/// 0, the primary header at sector 1, the entry array at sector 2, the
/// backup entry array 33 sectors before the end, and the backup header in
/// the last sector.
pub open spec fn gpt_layout(
    device_size: u64,
    sector_size: u64,
    primary: Seq<u8>,
    backup: Seq<u8>,
    entries: Seq<u8>,
) -> Seq<(u64, Seq<u8>)> {
    seq![
        (0u64, Seq::new(2 * 1024 * 1024, |_i: int| 0u8)),
        (0u64, protective_mbr_bytes()),
        (sector_size, primary),
        ((2 * sector_size) as u64, entries),
        ((backup_entries_lba(device_size, sector_size) * sector_size) as u64, entries),
        ((device_size - sector_size) as u64, backup),
    ]
}

/// The single EFI System Partition that the GPT layout holds.
pub open spec fn is_single_esp(a: GptEntryArray, device_size: u64, sector_size: u64, guid: Seq<u8>) -> bool
    recommends
        sector_size > 0,
{
    &&& a.entries@.len() == 1
    &&& a.entries@[0].partition_type_guid@ == esp_type_guid()
    &&& a.entries@[0].unique_guid@ == guid
    &&& a.entries@[0].starting_lba == 2048
    &&& a.entries@[0].ending_lba == device_size / sector_size - 2048
    &&& a.entries@[0].attributes == 0
    &&& a.entries@[0].name@ == esp_name_units()
}

/// The writes that lay a GPT onto a device of `device_size` bytes in
/// sectors of `sector_size` bytes, with the given disk and partition GUIDs.
/// Both headers carry the CRC-32 of the entry array and their own header
/// CRC-32; the backup header names the last sector as its own, sector 1 as
/// the other copy, and the backup entry array as its entries.
pub fn gpt_table_writes_with_guids(
    device_size: u64,
    sector_size: u64,
    disk_guid: [u8; 16],
    partition_guid: [u8; 16],
) -> (writes: Vec<DiskWrite>)
    requires
        sector_size > 0,
        device_size / sector_size >= 2048,
    ensures
        exists|h: GptHeader, b: GptHeader, a: GptEntryArray|
            {
                &&& is_gpt_header_for(h, device_size, sector_size, disk_guid@)
                &&& h.partition_entry_crc32 == crc32(entry_area(a.entries@))
                &&& header_crc_ok(h)
                &&& is_backup_of(b, h, backup_entries_lba(device_size, sector_size))
                &&& is_single_esp(a, device_size, sector_size, partition_guid@)
                &&& writes_view(writes@) == gpt_layout(
                    device_size,
                    sector_size,
                    gpt_header_bytes(h),
                    gpt_header_bytes(b),
                    entry_area(a.entries@),
                )
            },
{
    proof {
        vstd::arithmetic::div_mod::lemma_fundamental_div_mod(device_size as int, sector_size as int);
        assert(sector_size * (device_size / sector_size) >= sector_size * 2048) by (nonlinear_arith)
            requires device_size / sector_size >= 2048, sector_size > 0;
    }
    let entries = GptEntryArray::single_partition_with_guid(device_size, sector_size, partition_guid);
    let mut area = entries.to_bytes();
    assert(sector_padding(128) == 384);
    push_zeros(&mut area, 16384 - 512);
    assert(area@ =~= entry_area(entries.entries@));
    let entries_crc = crc32_of(area.as_slice());
    let blank = GptHeader::with_guid(device_size, sector_size, disk_guid);
    let header = blank.with_entries_crc(entries_crc);
    let total_sectors = device_size / sector_size;
    let backup_lba = total_sectors - 33;
    proof {
        assert(backup_lba * sector_size <= total_sectors * sector_size) by (nonlinear_arith)
            requires backup_lba <= total_sectors, sector_size > 0;
        assert(total_sectors * sector_size == sector_size * (device_size / sector_size)) by (nonlinear_arith)
            requires total_sectors == device_size / sector_size;
    }
    let backup = header.backup(backup_lba);
    let backup_area_offset = backup_lba * sector_size;
    let backup_area = area.clone();
    let mut clean: Vec<u8> = Vec::new();
    push_zeros(&mut clean, 2 * 1024 * 1024);
    assert(clean@ =~= Seq::new(2 * 1024 * 1024, |_i: int| 0u8));
    let mbr = protective_mbr();
    let header_bytes = header.to_bytes();
    let backup_bytes = backup.to_bytes();
    let mut writes: Vec<DiskWrite> = Vec::new();
    writes.push(DiskWrite { offset: 0, data: clean });
    writes.push(DiskWrite { offset: 0, data: mbr.to_bytes() });
    writes.push(DiskWrite { offset: sector_size, data: header_bytes });
    writes.push(DiskWrite { offset: 2 * sector_size, data: area });
    writes.push(DiskWrite { offset: backup_area_offset, data: backup_area });
    writes.push(DiskWrite { offset: device_size - sector_size, data: backup_bytes });
    assert(writes_view(writes@) =~= gpt_layout(
        device_size,
        sector_size,
        gpt_header_bytes(header),
        gpt_header_bytes(backup),
        entry_area(entries.entries@),
    ));
    assert(is_gpt_header_for(header, device_size, sector_size, disk_guid@));
    assert(is_single_esp(entries, device_size, sector_size, partition_guid@));
    writes
}

/// The writes that lay a GPT onto a device, with freshly generated disk
/// and partition GUIDs.
pub fn gpt_table_writes(device_size: u64, sector_size: u64) -> (writes: Vec<DiskWrite>)
    requires
        sector_size > 0,
        device_size / sector_size >= 2048,
    ensures
        exists|h: GptHeader, b: GptHeader, a: GptEntryArray|
            {
                &&& is_gpt_header_for(h, device_size, sector_size, h.disk_guid@)
                &&& is_v4_guid(h.disk_guid@)
                &&& h.partition_entry_crc32 == crc32(entry_area(a.entries@))
                &&& header_crc_ok(h)
                &&& is_backup_of(b, h, backup_entries_lba(device_size, sector_size))
                &&& is_single_esp(a, device_size, sector_size, a.entries@[0].unique_guid@)
                &&& is_v4_guid(a.entries@[0].unique_guid@)
                &&& writes_view(writes@) == gpt_layout(
                    device_size,
                    sector_size,
                    gpt_header_bytes(h),
                    gpt_header_bytes(b),
                    entry_area(a.entries@),
                )
            },
{
    let disk_guid = generate_guid();
    let partition_guid = generate_guid();
    gpt_table_writes_with_guids(device_size, sector_size, disk_guid, partition_guid)
}

} // verus!
