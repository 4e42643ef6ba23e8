use sidozdev::iso::boot::{
    analyze_bios_boot, analyze_boot_records, analyze_grub, analyze_syslinux, eltorito_catalog_lba, eltorito_record,
    get_recommended_boot_mode, BootRecordInfo, BootType,
};
use sidozdev::iso::hybrid::{count_mbr_partitions, detect_hybrid_iso, get_recommended_write_mode, HybridWriteMode};
use sidozdev::iso::image::IsoError;
use sidozdev::iso::parser::{detect_iso_type, format_size, is_valid_iso, parse_iso, IsoType};
use sidozdev::disk::partition::{protective_mbr, table_mbr, GptHeader};
use sidozdev::iso::parser::{check_bios_boot, check_efi_partition};
use sidozdev::state::app_state::BootMode;

fn iso_image(label: &str) -> Vec<u8> {
    let mut h = vec![0u8; 36864];
    h[32768] = 1;
    h[32769..32774].copy_from_slice(b"CD001");
    h[32774] = 1;
    let mut field = [b' '; 32];
    field[..label.len()].copy_from_slice(label.as_bytes());
    h[32808..32840].copy_from_slice(&field);
    for b in &mut h[33086..33214] {
        *b = b' ';
    }
    for b in &mut h[33581..33599] {
        *b = b' ';
    }
    h
}

#[test]
fn test_iso_type_display() {
    assert_eq!(IsoType::Iso9660.to_string(), "ISO 9660");
    assert_eq!(IsoType::HybridIso.to_string(), "Hybrid ISO");
    assert_eq!(IsoType::Img.to_string(), "IMG/Raw Image");
    assert_eq!(IsoType::Udf.to_string(), "UDF");
    assert_eq!(IsoType::Unknown.to_string(), "Unknown");
}

#[test]
fn image_types_are_detected() {
    assert_eq!(detect_iso_type(&[0u8; 4]), Ok(IsoType::Unknown));
    assert_eq!(detect_iso_type(&[0u8; 100]), Err(IsoError::UnexpectedEof));
    let mut iso = iso_image("LINUX");
    assert_eq!(detect_iso_type(&iso), Ok(IsoType::Iso9660));
    iso[510] = 0x55;
    iso[511] = 0xAA;
    assert_eq!(detect_iso_type(&iso), Ok(IsoType::HybridIso));
    let mut udf = vec![0u8; 33000];
    udf[0..5].copy_from_slice(b"BEA01");
    assert_eq!(detect_iso_type(&udf), Ok(IsoType::Udf));
    let mut img = vec![0u8; 33000];
    img[510] = 0x55;
    img[511] = 0xAA;
    assert_eq!(detect_iso_type(&img), Ok(IsoType::Img));
    assert!(is_valid_iso(&img));
    assert!(!is_valid_iso(&vec![0u8; 33000]));
    assert!(!is_valid_iso(&[0u8; 100]));
}

#[test]
fn iso9660_information() {
    let mut h = iso_image("MYDISK");
    h[0] = 0xEB;
    h[450] = 0xEF;
    let info = parse_iso(&h, 700 * 1024 * 1024).unwrap();
    assert_eq!(info.iso_type, IsoType::Iso9660);
    assert_eq!(info.label, "MYDISK");
    assert_eq!(info.file_system, "ISO 9660");
    assert_eq!(info.publisher, "Unknown");
    assert_eq!(info.creation_date, "Unknown");
    assert_eq!(info.architecture, "x86/x64");
    assert!(info.has_uefi_boot);
    assert!(!info.has_bios_boot);
    assert!(!info.is_bootable);
    assert_eq!(info.boot_modes, vec!["UEFI".to_string()]);
    assert_eq!(info.estimated_write_time, 70);
    assert!(!info.is_hybrid);
    let mut raw = iso_image("X");
    raw[33086] = 0;
    assert_eq!(parse_iso(&raw, 1).unwrap().publisher, "\u{0}");
    let unlabeled = parse_iso(&iso_image(""), 1).unwrap();
    assert_eq!(unlabeled.label, "NO_LABEL");
}

#[test]
fn raw_image_information() {
    let mut img = vec![0u8; 33000];
    img[510] = 0x55;
    img[511] = 0xAA;
    img[512..520].copy_from_slice(b"EFI PART");
    let info = parse_iso(&img, 33000).unwrap();
    assert_eq!(info.iso_type, IsoType::Img);
    assert_eq!(info.label, "IMG_IMAGE");
    assert_eq!(info.boot_modes, vec!["BIOS".to_string(), "UEFI".to_string()]);
    assert!(info.is_bootable);
}

#[test]
fn format_size_is_format_bytes() {
    assert_eq!(format_size(1536), "1.50 KB");
    assert_eq!(format_size(0), "0.00 B");
}

#[test]
fn library_mbr_reads_back_as_bios_bootable() {
    let mut head = table_mbr(BootMode::BiosLegacy, 1_000_000).to_bytes().to_vec();
    head.resize(600, 0);
    let rec = analyze_bios_boot(&head).unwrap();
    assert_eq!(rec.boot_type, BootType::Bios);
    assert_eq!(rec.boot_loader, "MBR");
    assert!(rec.is_legacy);
    assert_eq!(count_mbr_partitions(&head), 1);
    let mut plain = vec![0u8; 600];
    plain[510] = 0x55;
    plain[511] = 0xAA;
    assert_eq!(analyze_bios_boot(&plain).unwrap_err(), IsoError::NoActivePartition);
    assert_eq!(analyze_bios_boot(&[0u8; 600]).unwrap_err(), IsoError::NoBootSignature);
}

#[test]
fn protective_mbr_is_not_reported_as_gpt_by_the_hybrid_check() {
    let mut head = protective_mbr().to_bytes().to_vec();
    head.resize(0x8040, 0);
    let info = detect_hybrid_iso(&head).unwrap();
    assert!(info.has_mbr);
    assert!(!info.has_gpt);
    assert_eq!(info.partition_count, 1);
    assert_eq!(get_recommended_write_mode(&info), HybridWriteMode::DdRaw);
    assert_eq!(HybridWriteMode::DdRaw.to_string(), "DD Raw Copy");
}

#[test]
fn hybrid_markers() {
    let mut head = vec![0u8; 0x8040];
    head[0x8000..0x8008].copy_from_slice(b"isolinux");
    let info = detect_hybrid_iso(&head).unwrap();
    assert!(info.is_hybrid);
    assert!(info.has_isolinux);
    assert!(!info.has_mbr);
    assert_eq!(get_recommended_write_mode(&info), HybridWriteMode::IsoHybrid);
    assert!(detect_hybrid_iso(&[0u8; 100]).is_err());
}

#[test]
fn grub_and_syslinux_records() {
    let mut head = vec![0u8; 0x8080];
    head[0x8000..0x8014].copy_from_slice(b"GRUB 2.06 EFI loader");
    let rec = analyze_grub(&head).unwrap();
    assert_eq!(rec.version, "GRUB 2.06 ");
    assert!(rec.is_efi);
    assert_eq!(rec.boot_type, BootType::Grub);
    assert_eq!(analyze_syslinux(&head).unwrap_err(), IsoError::NoSyslinux);
    let mut s = vec![0u8; 0x8080];
    s[0x8000..0x8008].copy_from_slice(b"ISOLINUX");
    let rec = analyze_syslinux(&s).unwrap();
    assert_eq!(rec.boot_type, BootType::Isolinux);
    assert_eq!(rec.boot_file_path, "boot/isolinux");
}

fn el_torito_head(catalog_lba: u32) -> Vec<u8> {
    let mut head = vec![0u8; 36864];
    head[34816 + 7..34816 + 30].copy_from_slice(b"EL TORITO SPECIFICATION");
    head[34887..34891].copy_from_slice(&catalog_lba.to_le_bytes());
    head
}

fn el_torito_catalog(platform: u8) -> Vec<u8> {
    let mut catalog = vec![0u8; 2048];
    catalog[0x20] = 0x88;
    catalog[0x21] = platform;
    catalog
}

#[test]
fn el_torito_catalog_is_found() {
    let head = el_torito_head(19);
    assert_eq!(eltorito_catalog_lba(&head), Ok(19));
    let mut unpadded = el_torito_head(19);
    unpadded[34846] = b'X';
    assert_eq!(eltorito_catalog_lba(&unpadded), Err(IsoError::NotElTorito));
    assert_eq!(eltorito_catalog_lba(&vec![0u8; 36864]), Err(IsoError::NotElTorito));
    assert_eq!(eltorito_catalog_lba(&[0u8; 100]), Err(IsoError::UnexpectedEof));
    let rec = eltorito_record(19, &el_torito_catalog(0xEF)).unwrap();
    assert_eq!(rec.architecture, "EFI");
    assert!(rec.is_efi);
    assert_eq!(rec.boot_loader, "El Torito");
    assert_eq!(rec.boot_file_path, "Boot Catalog at LBA 19");
}

#[test]
fn short_images_have_no_boot_records() {
    assert!(analyze_boot_records(&[0u8; 100], None).is_empty());
    assert!(analyze_boot_records(&[], None).is_empty());
}

#[test]
fn boot_records_of_a_full_image() {
    let mut head = el_torito_head(19);
    head[446] = 0x80;
    head[510] = 0x55;
    head[511] = 0xAA;
    head[512..520].copy_from_slice(b"EFI PART");
    let catalog = el_torito_catalog(0xEF);
    let records = analyze_boot_records(&head, Some(&catalog));
    let kinds: Vec<BootType> = records.iter().map(|r| r.boot_type).collect();
    assert_eq!(records.len(), 3);
    assert_eq!(records[0].boot_loader, "El Torito");
    assert_eq!(records[0].boot_file_path, "Boot Catalog at LBA 19");
    assert_eq!(records[1].boot_type, BootType::Uefi);
    assert_eq!(records[1].boot_loader, "UEFI");
    assert_eq!(records[2].boot_type, BootType::Bios);
    assert_eq!(kinds.len(), 3);
    let without_catalog = analyze_boot_records(&head, None);
    assert_eq!(without_catalog.len(), 2);
    assert_eq!(without_catalog[0].boot_type, BootType::Uefi);
}

#[test]
fn uefi_marker_by_partition_type() {
    let mut head = vec![0u8; 1024];
    head[450] = 0xEF;
    let records = analyze_boot_records(&head, None);
    assert_eq!(records.len(), 1);
    assert_eq!(records[0].boot_type, BootType::Uefi);
}

#[test]
fn malformed_images_give_records_without_panicking() {
    for fill in [0x00u8, 0x55, 0xAA, 0xEF, 0xFF] {
        for len in [0usize, 511, 512, 519, 520, 4096, 0x8080, 36864, 40000] {
            let head = vec![fill; len];
            let records = analyze_boot_records(&head, Some(&[fill; 2048]));
            assert!(records.len() <= 5);
        }
    }
}

fn record(efi: bool, legacy: bool) -> BootRecordInfo {
    BootRecordInfo {
        boot_type: BootType::Unknown,
        boot_loader: String::new(),
        version: String::new(),
        architecture: String::new(),
        is_efi: efi,
        is_legacy: legacy,
        boot_file_path: String::new(),
        partition_guid: None,
    }
}

#[test]
fn recommended_boot_modes() {
    assert_eq!(get_recommended_boot_mode(&[record(true, false), record(false, true)]), "UEFI + CSM (Legacy)");
    assert_eq!(get_recommended_boot_mode(&[record(true, false)]), "UEFI Only");
    assert_eq!(get_recommended_boot_mode(&[record(false, true)]), "Legacy BIOS Only");
    assert_eq!(get_recommended_boot_mode(&[]), "Unknown");
}

#[test]
fn iso_errors_have_messages() {
    assert_eq!(IsoError::UnexpectedEof.to_string(), "failed to fill whole buffer");
    assert_eq!(IsoError::NoGrub.to_string(), "No GRUB bootloader found");
}

#[test]
fn library_gpt_layout_is_seen_by_the_image_checks() {
    let mut head = protective_mbr().to_bytes().to_vec();
    head.extend_from_slice(&GptHeader::new(1_000_000 * 512, 512).to_bytes());
    head.resize(2048, 0);
    assert_eq!(check_bios_boot(&head), Ok(true));
    assert_eq!(check_efi_partition(&head), Ok(true));
}
