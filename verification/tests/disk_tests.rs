use sidozdev::disk::device::{format_bytes, UsbDevice};
use sidozdev::disk::enumerator::{
    device_from_properties, extract_serial_number, extract_vid_pid, get_usb_interface_type, is_usb_device,
    keep_usb_devices,
    parse_vendor_product, wide_string_length,
};
use sidozdev::disk::format::{
    calculate_fat32_sectors_per_fat, create_fat32_boot_sector, create_fat32_table, extract_drive_letter,
    fat32_boot_sector_with_serial, fat32_geometry_fits, fat32_layout_with_serial, format_command_args,
    format_failure_message, format_route, FormatRoute,
};
use sidozdev::disk::partition::{
    gpt_table_writes, gpt_table_writes_with_guids, mbr_table_writes, protective_mbr, table_mbr, GptEntryArray,
    GptHeader, GptPartitionEntry, MasterBootRecord, PartitionEntry,
};
use sidozdev::state::app_state::{BootMode, FileSystem};
use sidozdev::utils::crc::crc32_of;

fn test_device() -> UsbDevice {
    UsbDevice {
        device_id: "\\\\.\\PhysicalDrive1".to_string(),
        friendly_name: "Test USB".to_string(),
        vendor: "SanDisk".to_string(),
        product: "Cruzer".to_string(),
        capacity: 16_000_000_000,
        free_space: 8_000_000_000,
        interface_type: "USB 3.0".to_string(),
        device_path: "\\\\.\\PhysicalDrive1".to_string(),
        drive_letters: vec!["E:".to_string()],
        serial_number: "1234567890".to_string(),
        is_removable: true,
        is_mounted: true,
        current_file_system: Some("FAT32".to_string()),
        partition_scheme: Some("MBR".to_string()),
        vid_pid: "0781:5567".to_string(),
    }
}

fn device_at(path: &str) -> UsbDevice {
    let mut d = test_device();
    d.device_path = path.to_string();
    d.device_id = path.to_string();
    d
}

#[test]
fn only_usb_disks_are_listed_in_order() {
    let listed = keep_usb_devices(vec![
        device_at("\\\\?\\usbstor#disk&ven_a#1"),
        device_at("\\\\?\\scsi#disk&ven_b#2"),
        device_at("\\\\?\\USB#disk&ven_c#3"),
        device_at("\\\\?\\ide#disk#4"),
    ]);
    let paths: Vec<&str> = listed.iter().map(|d| d.device_path.as_str()).collect();
    assert_eq!(paths, vec!["\\\\?\\usbstor#disk&ven_a#1", "\\\\?\\USB#disk&ven_c#3"]);
    assert!(keep_usb_devices(Vec::new()).is_empty());
}

#[test]
fn test_usb_device_display() {
    let device = test_device();
    assert_eq!(device.capacity_display(), "14.90 GB");
    assert_eq!(device.free_space_display(), "7.45 GB");
    assert!(device.display_summary().contains("Test USB"));
}

#[test]
fn device_summary_has_name_id_capacity_interface() {
    let device = test_device();
    assert_eq!(device.display_summary(), "Test USB - \\\\.\\PhysicalDrive1 (14.90 GB - USB 3.0)");
}

#[test]
fn test_format_bytes() {
    assert_eq!(format_bytes(512), "512.00 B");
    assert_eq!(format_bytes(1024), "1.00 KB");
    assert_eq!(format_bytes(1024 * 1024), "1.00 MB");
    assert_eq!(format_bytes(1024 * 1024 * 1024), "1.00 GB");
    assert_eq!(format_bytes(1024u64 * 1024 * 1024 * 1024), "1.00 TB");
}

fn reference_format(bytes: u64) -> String {
    let units = ["B", "KB", "MB", "GB", "TB"];
    let mut size = bytes as f64;
    let mut i = 0;
    while size >= 1024.0 && i < units.len() - 1 {
        size /= 1024.0;
        i += 1;
    }
    format!("{:.2} {}", size, units[i])
}

#[test]
fn format_bytes_matches_floating_point_formatting() {
    let mut values: Vec<u64> = vec![0, 1, 5, 1023, 1025, 1152, 1536, 2047, 10 * 1024 - 5, 999_999, 1_048_575];
    values.extend_from_slice(&[
        16_000_000_000,
        8_000_000_000,
        u64::MAX,
        u64::MAX - 1,
        1u64 << 53,
        (1u64 << 53) + 1,
        1u64 << 60,
        123_456_789_012_345,
        5 * 1024 * 1024 * 1024 * 1024 * 1024,
    ]);
    let mut x: u64 = 0x9E37_79B9_7F4A_7C15;
    for _ in 0..2000 {
        x ^= x << 13;
        x ^= x >> 7;
        x ^= x << 17;
        values.push(x >> (x % 60));
    }
    for v in values {
        assert_eq!(format_bytes(v), reference_format(v), "value {}", v);
    }
}

#[test]
fn test_mbr_creation() {
    let mbr = MasterBootRecord::new();
    assert_eq!(mbr.boot_signature, [0x55, 0xAA]);
    let bytes = mbr.to_bytes();
    assert_eq!(bytes.len(), 512);
    assert_eq!(bytes[510], 0x55);
    assert_eq!(bytes[511], 0xAA);
}

#[test]
fn test_mbr_partition_entry() {
    let mut entry = PartitionEntry::new();
    entry.bootable = 0x80;
    entry.partition_type = 0x0C;
    entry.start_lba = 2048;
    entry.size_lba = 1000000;
    let bytes = entry.to_bytes();
    assert_eq!(bytes.len(), 16);
    assert_eq!(bytes[0], 0x80);
    assert_eq!(bytes[4], 0x0C);
    assert_eq!(&bytes[8..12], &2048u32.to_le_bytes());
    assert_eq!(&bytes[12..16], &1000000u32.to_le_bytes());
}

#[test]
fn test_gpt_header() {
    let header = GptHeader::new(32_000_000_000, 512);
    let bytes = header.to_bytes();
    assert_eq!(bytes.len(), 512);
    assert_eq!(&bytes[0..8], b"EFI PART");
}

#[test]
fn gpt_header_fields_for_the_disk() {
    let header = GptHeader::with_guid(32_000_000_000, 512, [7u8; 16]);
    let total = 32_000_000_000u64 / 512;
    assert_eq!(header.backup_lba, total - 1);
    assert_eq!(header.last_usable_lba, total - 34);
    assert_eq!(header.first_usable_lba, 34);
    let bytes = header.to_bytes();
    assert_eq!(&bytes[12..16], &92u32.to_le_bytes());
    assert_eq!(&bytes[56..72], &[7u8; 16]);
    assert!(bytes[92..].iter().all(|b| *b == 0));
}

#[test]
fn generated_guids_are_version_4() {
    for _ in 0..50 {
        let h = GptHeader::new(32_000_000_000, 512);
        assert_eq!(h.disk_guid[6] & 0xF0, 0x40);
        assert_eq!(h.disk_guid[8] & 0xC0, 0x80);
    }
}

#[test]
fn esp_entry_bytes() {
    let e = GptPartitionEntry::efi_system_partition_with_guid(2048, 4096, [1u8; 16]);
    let bytes = e.to_bytes();
    assert_eq!(bytes.len(), 128);
    assert_eq!(
        &bytes[0..16],
        &[0x28, 0x73, 0x2A, 0xC1, 0x1F, 0xF8, 0xD2, 0x11, 0xBA, 0x4B, 0x00, 0xA0, 0xC9, 0x3E, 0xC9, 0x3B]
    );
    assert_eq!(&bytes[32..40], &2048u64.to_le_bytes());
    assert_eq!(&bytes[40..48], &4096u64.to_le_bytes());
    let name: Vec<u16> = bytes[56..128].chunks(2).map(|c| u16::from_le_bytes([c[0], c[1]])).collect();
    let text: String = String::from_utf16_lossy(&name).trim_end_matches('\0').to_string();
    assert_eq!(text, "EFI System Partition");
}

#[test]
fn entry_array_pads_to_a_sector() {
    let a = GptEntryArray::new_single_partition(32_000_000_000, 512);
    assert_eq!(a.entries.len(), 1);
    let bytes = a.to_bytes();
    assert_eq!(bytes.len(), 512);
    assert_eq!(a.entries[0].starting_lba, 2048);
    assert_eq!(a.entries[0].ending_lba, 32_000_000_000 / 512 - 2048);
}

#[test]
fn mbr_table_for_bios_has_boot_code() {
    let m = table_mbr(BootMode::BiosLegacy, 1_000_000);
    let b = m.to_bytes();
    assert_eq!(b[0], 0xEB);
    assert_eq!(b[1], 0x3C);
    assert_eq!(b[446], 0x80);
    assert_eq!(b[450], 0x0C);
    assert_eq!(&b[454..458], &2048u32.to_le_bytes());
    assert_eq!(&b[458..462], &997_952u32.to_le_bytes());
    let u = table_mbr(BootMode::Uefi, 1_000_000).to_bytes();
    assert_eq!(u[0], 0);
    let writes = mbr_table_writes(BootMode::Uefi, 1_000_000);
    assert_eq!(writes.len(), 2);
    assert_eq!(writes[0].data.len(), 1024 * 1024);
    assert_eq!(writes[1].offset, 0);
    assert_eq!(writes[1].data, u.to_vec());
}

#[test]
fn mbr_partition_covers_the_rest_of_the_disk() {
    let size = |t: u64| {
        let b = table_mbr(BootMode::BiosLegacy, t).to_bytes();
        u32::from_le_bytes([b[458], b[459], b[460], b[461]])
    };
    assert_eq!(size(1_000_000), 997_952);
    assert_eq!(size(2049), 1);
    assert_eq!(size(2048), 0);
    assert_eq!(size(100), 0);
    assert_eq!(size(1 << 40), u32::MAX);
    assert_eq!(size(u32::MAX as u64 + 2048), u32::MAX);
    assert_eq!(size(u32::MAX as u64 + 2047), u32::MAX - 1);
}

#[test]
fn protective_mbr_has_one_gpt_entry() {
    let b = protective_mbr().to_bytes();
    assert_eq!(b[450], 0xEE);
    assert_eq!(&b[454..458], &1u32.to_le_bytes());
    assert_eq!(&b[458..462], &0xFFFF_FFFFu32.to_le_bytes());
    assert_eq!(b[510], 0x55);
}

#[test]
fn gpt_writes_layout() {
    let w = gpt_table_writes_with_guids(1_000_000 * 512, 512, [2u8; 16], [3u8; 16]);
    assert_eq!(w.len(), 6);
    assert_eq!(w[0].data.len(), 2 * 1024 * 1024);
    assert_eq!(w[2].offset, 512);
    assert_eq!(&w[2].data[0..8], b"EFI PART");
    assert_eq!(w[3].offset, 1024);
    assert_eq!(w[3].data.len(), 16384);
    assert_eq!(w[4].offset, (1_000_000 - 33) * 512);
    assert_eq!(w[4].data, w[3].data);
    assert_eq!(w[5].offset, 1_000_000 * 512 - 512);
    assert_ne!(w[2].data, w[5].data);
    let le64 = |d: &[u8], at: usize| u64::from_le_bytes(d[at..at + 8].try_into().unwrap());
    let le32 = |d: &[u8], at: usize| u32::from_le_bytes(d[at..at + 4].try_into().unwrap());
    assert_eq!(le64(&w[2].data, 24), 1);
    assert_eq!(le64(&w[2].data, 32), 1_000_000 - 1);
    assert_eq!(le64(&w[2].data, 72), 2);
    assert_eq!(&w[5].data[0..8], b"EFI PART");
    assert_eq!(le64(&w[5].data, 24), 1_000_000 - 1);
    assert_eq!(le64(&w[5].data, 32), 1);
    assert_eq!(le64(&w[5].data, 72), 1_000_000 - 33);
    for header in [&w[2].data, &w[5].data] {
        let mut zeroed = header[0..92].to_vec();
        zeroed[16..20].copy_from_slice(&[0, 0, 0, 0]);
        assert_eq!(le32(header, 16), reference_crc32(&zeroed));
        assert_eq!(le32(header, 88), reference_crc32(&w[3].data));
    }
    assert_ne!(le32(&w[2].data, 88), 0);
    let r = gpt_table_writes(1_000_000 * 512, 512);
    assert_eq!(r.len(), 6);
    let mut zeroed = r[2].data[0..92].to_vec();
    zeroed[16..20].copy_from_slice(&[0, 0, 0, 0]);
    assert_eq!(le32(&r[2].data, 16), reference_crc32(&zeroed));
}

/// Bit-at-a-time CRC-32 (IEEE, reflected), written independently of the
/// library for checking it.
fn reference_crc32(data: &[u8]) -> u32 {
    let mut crc = !0u32;
    for &b in data {
        crc ^= b as u32;
        for _ in 0..8 {
            let mask = (crc & 1).wrapping_neg();
            crc = (crc >> 1) ^ (0xEDB8_8320 & mask);
        }
    }
    !crc
}

#[test]
fn crc32_check_value() {
    assert_eq!(crc32_of(b"123456789"), 0xCBF4_3926);
    assert_eq!(crc32_of(b""), 0);
    assert_eq!(crc32_of(b"The quick brown fox jumps over the lazy dog"), 0x414F_A339);
    assert_eq!(crc32_of(&[0u8; 32]), reference_crc32(&[0u8; 32]));
}

#[test]
fn gpt_header_checksums() {
    let h = GptHeader::with_guid(32_000_000_000, 512, [7u8; 16]);
    assert_eq!(h.partition_entry_crc32, 0);
    let mut fields = h.to_bytes()[0..92].to_vec();
    fields[16..20].copy_from_slice(&[0, 0, 0, 0]);
    assert_eq!(h.crc32, reference_crc32(&fields));
    let e = h.with_entries_crc(0x1234_5678);
    assert_eq!(e.partition_entry_crc32, 0x1234_5678);
    assert_ne!(e.crc32, h.crc32);
    let b = e.backup(62_499_967);
    assert_eq!(b.current_lba, e.backup_lba);
    assert_eq!(b.backup_lba, 1);
    assert_eq!(b.partition_entry_lba, 62_499_967);
    assert_eq!(b.partition_entry_crc32, 0x1234_5678);
    let mut fields = b.to_bytes()[0..92].to_vec();
    fields[16..20].copy_from_slice(&[0, 0, 0, 0]);
    assert_eq!(b.crc32, reference_crc32(&fields));
}

#[test]
fn fat32_sectors_per_fat_rounds_up() {
    assert_eq!(calculate_fat32_sectors_per_fat(1_000_000, 512), 977);
    assert_eq!(calculate_fat32_sectors_per_fat(8 * 128, 512), 1);
    assert_eq!(calculate_fat32_sectors_per_fat(8 * 129, 512), 2);
}

#[test]
fn fat32_boot_sector_fields() {
    let b = fat32_boot_sector_with_serial(1_000_000, 512, 0x1234_5678);
    assert_eq!(b.len(), 512);
    assert_eq!(&b[0..3], &[0xEB, 0x58, 0x90]);
    assert_eq!(&b[3..11], b"MSDOS5.0");
    assert_eq!(&b[11..13], &512u16.to_le_bytes());
    assert_eq!(b[13], 8);
    assert_eq!(&b[32..36], &1_000_000u32.to_le_bytes());
    assert_eq!(&b[36..40], &977u32.to_le_bytes());
    assert_eq!(&b[67..71], &0x1234_5678u32.to_le_bytes());
    assert_eq!(&b[71..82], b"SIDOZDEV   ");
    assert_eq!(&b[82..90], b"FAT32   ");
    assert_eq!(b[510], 0x55);
    assert_eq!(b[511], 0xAA);
    let big = create_fat32_boot_sector(0x1_0000_0000, 4096);
    assert_eq!(big.len(), 4096);
    assert_eq!(&big[32..36], &0xFFFF_FFFFu32.to_le_bytes());
}

#[test]
fn fat32_table_start() {
    let t = create_fat32_table(1_000_000, 512);
    assert_eq!(t.len(), 977 * 512);
    assert_eq!(&t[0..4], &0x0FFF_FFF8u32.to_le_bytes());
    assert_eq!(&t[4..8], &0x0FFF_FFFFu32.to_le_bytes());
    assert_eq!(&t[8..12], &0x0FFF_FFFFu32.to_le_bytes());
    assert!(t[12..].iter().all(|b| *b == 0));
}

#[test]
fn fat32_native_layout() {
    assert!(fat32_geometry_fits(1_000_000 * 512, 512));
    assert!(!fat32_geometry_fits(1_000_000 * 512, 256));
    assert!(!fat32_geometry_fits(1_000_000, 1 << 27));
    let w = fat32_layout_with_serial(1_000_000 * 512, 512, 9);
    assert_eq!(w.len(), 3);
    assert_eq!(w[0].offset, 0);
    assert_eq!(w[0].data, fat32_boot_sector_with_serial(1_000_000, 512, 9));
    assert_eq!(w[0].data[16], 2);
    assert_eq!(w[1].offset, 32 * 512);
    assert_eq!(w[1].data.len(), 977 * 512);
    assert_eq!(w[2].offset, (32 + 977) * 512);
    assert_eq!(w[2].data, w[1].data);
}

#[test]
fn drive_letters_are_read_from_paths() {
    assert_eq!(extract_drive_letter("e:"), Some("E:".to_string()));
    assert_eq!(extract_drive_letter("\\\\.\\f:"), Some("F:".to_string()));
    assert_eq!(extract_drive_letter("\\\\.\\PhysicalDrive1"), None);
    assert_eq!(extract_drive_letter("E"), None);
}

#[test]
fn format_routes() {
    match format_route("e:", FileSystem::Ntfs) {
        FormatRoute::Command(args) => {
            assert_eq!(args, vec!["/C", "format", "E:", "/FS:NTFS", "/V:SIDOZDEV", "/Q", "/Y"]);
        }
        _ => panic!("expected the format command"),
    }
    assert!(matches!(format_route("\\\\.\\PhysicalDrive2", FileSystem::Fat32), FormatRoute::NativeFat32));
    match format_route("\\\\.\\PhysicalDrive2", FileSystem::ExFat) {
        FormatRoute::Unsupported(m) => assert_eq!(m, "Native exFAT formatting requires Windows format command"),
        _ => panic!("expected no native formatter"),
    }
    assert_eq!(format_command_args("G:", FileSystem::Fat32)[3], "/FS:FAT32");
    assert_eq!(format_failure_message(FileSystem::Fat32, b"bad disk"), "FAT32 format failed: bad disk");
    assert_eq!(format_failure_message(FileSystem::ExFat, &[0xFF]), "exFAT format failed: \u{FFFD}");
}

#[test]
fn usb_paths_and_interfaces() {
    assert!(is_usb_device("\\\\?\\USBSTOR#Disk&Ven_SanDisk"));
    assert!(!is_usb_device("\\\\?\\SCSI#Disk&Ven_Samsung"));
    assert_eq!(get_usb_interface_type("USB\\VID_0781&PID_5567 USB30"), "USB 3.0");
    assert_eq!(get_usb_interface_type("USB\\VID_0781&PID_5567 2.0"), "USB 2.0");
    assert_eq!(get_usb_interface_type("USB\\VID_0781&PID_5567"), "USB");
    assert_eq!(get_usb_interface_type("SCSI\\DISK 3.0"), "USB");
}

#[test]
fn vid_pid_and_serial() {
    assert_eq!(extract_vid_pid("USB\\VID_0781&PID_5567\\4C530001"), Some("0781:5567".to_string()));
    assert_eq!(extract_vid_pid("SCSI\\DISK"), Some("Unknown".to_string()));
    assert_eq!(extract_vid_pid("USB\\VID_07"), Some("Unknown".to_string()));
    assert_eq!(extract_vid_pid("USB\\VID_07&PID_5"), None);
    assert_eq!(extract_serial_number("USB\\VID_0781&PID_5567\\4C530001"), "4C530001");
    assert_eq!(extract_serial_number("NOSERIAL"), "Unknown");
    assert_eq!(extract_serial_number("trailing\\"), "");
}

#[test]
fn vendor_and_product() {
    assert_eq!(parse_vendor_product("SanDisk Cruzer Blade"), ("SanDisk".to_string(), "Cruzer Blade".to_string()));
    assert_eq!(parse_vendor_product("Kingston"), ("Unknown".to_string(), "Kingston".to_string()));
    assert_eq!(parse_vendor_product(""), ("Unknown".to_string(), "".to_string()));
    assert_eq!(wide_string_length(&[0x41, 0x42, 0, 0x43]), 2);
    assert_eq!(wide_string_length(&[0x41, 0x42]), 2);
}

#[test]
fn device_entry_from_system_texts() {
    let d = device_from_properties(
        "\\\\?\\usbstor#disk",
        Some("SanDisk Cruzer USB Device".to_string()),
        Some("SanDisk Cruzer".to_string()),
        Some("USB\\VID_0781&PID_5567\\AA01 USB30".to_string()),
        16_000_000_000,
        &vec![],
    )
    .unwrap();
    assert_eq!(d.friendly_name, "SanDisk Cruzer USB Device");
    assert_eq!(d.vendor, "SanDisk");
    assert_eq!(d.product, "Cruzer");
    assert_eq!(d.vid_pid, "0781:5567");
    assert_eq!(d.interface_type, "USB 3.0");
    assert_eq!(d.serial_number, "AA01 USB30");
    assert_eq!(d.free_space, d.capacity);
    assert!(!d.is_mounted);
    let e = device_from_properties("p", None, None, None, 1, &vec!["F:".to_string()]).unwrap();
    assert_eq!(e.friendly_name, "Unknown Device");
    assert_eq!(e.vendor, "USB");
    assert_eq!(e.product, "Device");
    assert_eq!(e.vid_pid, "Unknown");
    assert_eq!(e.serial_number, "Unknown");
    assert!(e.is_mounted);
}

#[test]
fn new_esp_entries_get_version_4_guids() {
    let e = GptPartitionEntry::new_efi_system_partition(2048, 10_000);
    assert_eq!(e.unique_guid[6] & 0xF0, 0x40);
    assert_eq!(e.unique_guid[8] & 0xC0, 0x80);
    assert_eq!(e.starting_lba, 2048);
    assert_eq!(e.ending_lba, 10_000);
    assert_eq!(e.attributes, 0);
}

#[test]
fn fat_entries_cover_every_cluster() {
    for total in [0u64, 1, 7, 8, 1024, 1_000_000, 0xFFFF_FFFF, 0x1_2345_6789] {
        for ss in [512u32, 1024, 4096] {
            let per = calculate_fat32_sectors_per_fat(total, ss) as u64;
            assert!(per * (ss as u64 / 4) >= (total as u32 as u64) / 8);
        }
    }
}

#[test]
fn guids_and_serials_are_random() {
    let a = GptHeader::new(32_000_000_000, 512).disk_guid;
    let b = GptHeader::new(32_000_000_000, 512).disk_guid;
    assert_ne!(a, b);
    let s1 = create_fat32_boot_sector(1_000_000, 512);
    let s2 = create_fat32_boot_sector(1_000_000, 512);
    let s3 = create_fat32_boot_sector(1_000_000, 512);
    assert!(s1[67..71] != s2[67..71] || s2[67..71] != s3[67..71]);
}
