use sidozdev::state::events::HashType;
use sidozdev::utils::files::{AsyncFileReader, AsyncFileWriter};
use sidozdev::utils::hash::{compare_hashes, digest_hex, format_hash, FileHasher};
use sidozdev::utils::platform::{format_error_code, get_windows_version, is_windows_10_or_later, WindowsVersion};
use sidozdev::utils::text::{hex_lower, trim_text};

#[test]
fn test_compare_hashes() {
    assert!(compare_hashes("abc123", "ABC123"));
    assert!(!compare_hashes("abc123", "def456"));
    assert!(!compare_hashes("abc", "abcd"));
    assert!(compare_hashes("", ""));
}

#[test]
fn test_format_hash() {
    let hash = "1234567890abcdef1234567890abcdef";
    assert_eq!(format_hash(hash, 10), "123456...cdef");
    assert_eq!(format_hash(hash, 40), hash);
    assert_eq!(format_hash(hash, 32), hash);
    assert_eq!(format_hash(hash, 1), "1...");
    assert_eq!(format_hash(hash, 0), "...");
    assert_eq!(format_hash(hash, 6), "1234...ef");
}

#[test]
fn known_digests() {
    assert_eq!(digest_hex(HashType::Md5, b"abc"), "900150983cd24fb0d6963f7d28e17f72");
    assert_eq!(digest_hex(HashType::Sha1, b"abc"), "a9993e364706816aba3e25717850c26c9cd0d89d");
    assert_eq!(
        digest_hex(HashType::Sha256, b"abc"),
        "ba7816bf8f01cfea414140de5dae2223b00361a396177a9cb410ff61f20015ad"
    );
    assert_eq!(digest_hex(HashType::Md5, b""), "d41d8cd98f00b204e9800998ecf8427e");
}

#[test]
fn chunked_digest_equals_whole_digest() {
    let data: Vec<u8> = (0..20000u32).map(|i| (i * 7 % 251) as u8).collect();
    for t in [HashType::Md5, HashType::Sha1, HashType::Sha256] {
        let mut h = FileHasher::new(t);
        for chunk in data.chunks(8192) {
            h.update(chunk);
        }
        let text = h.finish();
        assert_eq!(text, digest_hex(t, &data));
    }
    assert_eq!(digest_hex(HashType::Md5, &data).len(), 32);
    assert_eq!(digest_hex(HashType::Sha1, &data).len(), 40);
    assert_eq!(digest_hex(HashType::Sha256, &data).len(), 64);
}

#[test]
fn hex_is_lower_case_two_digits_per_byte() {
    assert_eq!(hex_lower(&[0x00, 0x0F, 0xA0, 0xFF]), "000fa0ff");
}

#[test]
fn error_code_messages() {
    assert_eq!(format_error_code(5, Some("  Access is denied.\r\n".to_string())), "Access is denied.");
    assert_eq!(format_error_code(87, None), "Error code: 87");
    assert_eq!(trim_text("\t x y \n"), "x y");
}

#[test]
fn windows_versions() {
    let v = WindowsVersion { major: 10, minor: 0, build: 19045 };
    assert_eq!(get_windows_version(Some(v)), "Windows 10.0 (Build 19045)");
    assert_eq!(get_windows_version(None), "Unknown Windows Version");
    assert!(is_windows_10_or_later(Some(WindowsVersion { major: 10, minor: 0, build: 1 })));
    assert!(!is_windows_10_or_later(Some(WindowsVersion { major: 6, minor: 3, build: 9600 })));
    assert!(!is_windows_10_or_later(None));
}

#[test]
fn file_chunk_descriptions() {
    let r = AsyncFileReader::new("a.iso".to_string(), 8192);
    assert_eq!(r.file_path, "a.iso");
    assert_eq!(r.buffer_size, 8192);
    let w = AsyncFileWriter::new("b.img".to_string(), 4096);
    assert_eq!(w.buffer_size, 4096);
}
