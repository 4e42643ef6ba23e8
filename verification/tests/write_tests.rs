use std::sync::atomic::{AtomicBool, Ordering};
use std::sync::Arc;

use sidozdev::disk::write_check::{sample_offsets, FullCheck, FullStep, WriteVerifier};
use sidozdev::disk::writer::{check_chunk, stages_for, ChunkCheck, DataCopy, DiskWriter, WriteCheck, WriteStage};
use sidozdev::state::app_state::{AppState, BootMode, FileSystem, LogLevel, OperationPhase, PartitionScheme};
use sidozdev::state::events::UiEvent;

fn writer(id: &str, flag: Arc<AtomicBool>) -> DiskWriter {
    DiskWriter::new(
        id.to_string(),
        "image.iso".to_string(),
        BootMode::Uefi,
        PartitionScheme::Gpt,
        FileSystem::Fat32,
        flag,
    )
}

#[test]
fn writer_copies_through_four_mebibytes() {
    let w = writer("\\\\.\\PhysicalDrive1", Arc::new(AtomicBool::new(false)));
    assert_eq!(w.buffer_size, 4 * 1024 * 1024);
    assert_eq!(w.device_id, "\\\\.\\PhysicalDrive1");
}

#[test]
fn inputs_are_checked_in_order() {
    let w = writer("", Arc::new(AtomicBool::new(false)));
    assert_eq!(w.validate_inputs(false), Err("ISO file does not exist: \"image.iso\"".to_string()));
    assert_eq!(w.validate_inputs(true), Err("No device selected".to_string()));
    let w = writer("d", Arc::new(AtomicBool::new(false)));
    assert_eq!(w.validate_inputs(true), Ok(()));
}

#[test]
fn device_paths_get_the_namespace_prefix_once() {
    let w = writer("PhysicalDrive1", Arc::new(AtomicBool::new(false)));
    assert_eq!(w.device_path(), "\\\\.\\PhysicalDrive1");
    let w = writer("\\\\.\\PhysicalDrive1", Arc::new(AtomicBool::new(false)));
    assert_eq!(w.device_path(), "\\\\.\\PhysicalDrive1");
    let again = writer(&w.device_path(), Arc::new(AtomicBool::new(false)));
    assert_eq!(again.device_path(), w.device_path());
}

#[test]
fn cancellation_flag_is_read() {
    let flag = Arc::new(AtomicBool::new(false));
    let w = writer("d", flag.clone());
    assert!(!w.is_cancelled());
    flag.store(true, Ordering::Relaxed);
    assert!(w.is_cancelled());
}

#[test]
fn stages_and_their_progress() {
    assert_eq!(stages_for(false).len(), 4);
    let all = stages_for(true);
    assert_eq!(all.len(), 5);
    let expected = [0.0f32, 5.0, 10.0, 95.0, 97.0];
    let texts = [
        "Creating partition table...",
        "Formatting device...",
        "Writing ISO data...",
        "Installing bootloader...",
        "Verifying write...",
    ];
    for (i, s) in all.iter().enumerate() {
        assert_eq!(f32::from_bits(s.percent_bits()), expected[i]);
        assert_eq!(s.text(), texts[i]);
    }
    assert_eq!(f32::from_bits(0x42C8_0000), 100.0);
}

#[test]
fn showing_a_stage_updates_progress_and_log() {
    let mut state = AppState::new();
    let ev = state.show_stage(WriteStage::Formatting, 1234);
    assert_eq!(state.progress.phase, OperationPhase::Writing);
    assert_eq!(f32::from_bits(state.progress.percentage_bits), 5.0);
    assert_eq!(state.progress.total_bytes, 1234);
    assert_eq!(state.progress.current_operation, "Formatting device...");
    assert_eq!(state.logs[0].level, LogLevel::Info);
    assert_eq!(state.logs[0].message, "Formatting device...");
    match ev {
        UiEvent::ProgressUpdated(p) => assert_eq!(p.current_operation, "Formatting device..."),
        _ => panic!("expected a progress event"),
    }
    let ev = state.update_progress_with_speed(50.0f32.to_bits(), "Writing... 50.0%", 10, 20, 3.5f32.to_bits(), 7);
    assert_eq!(state.logs.len(), 1);
    assert_eq!(state.progress.eta_seconds, 7);
    assert!(matches!(ev, UiEvent::ProgressUpdated(_)));
    state.record_verification_passed(4096);
    assert_eq!(state.logs[1].message, "Write verification passed: 4096 bytes verified");
}

#[test]
fn copy_counts_bytes_until_an_empty_read() {
    let mut c = DataCopy::new(100);
    assert!(c.check_cancel(false).is_ok());
    assert_eq!(c.check_cancel(true).unwrap_err(), "Operation cancelled by user");
    assert!(!c.record_read(60));
    assert!(!c.record_read(40));
    assert!(c.record_read(0));
    assert_eq!(c.bytes_written, 100);
}

#[test]
fn read_back_compares_chunks() {
    assert_eq!(check_chunk(b"abc", b"abc"), ChunkCheck::Agree);
    assert_eq!(check_chunk(b"abc", b"ab"), ChunkCheck::SizeMismatch);
    assert_eq!(check_chunk(b"abc", b"abd"), ChunkCheck::DataMismatch);
    let mut w = WriteCheck::new();
    assert_eq!(w.record_chunk(b"abcd", b"abcd"), Ok(false));
    assert_eq!(w.bytes_verified, 4);
    assert_eq!(w.record_chunk(b"ab", b"a").unwrap_err(), "Device read size mismatch during verification");
    assert_eq!(w.record_chunk(b"ab", b"ax").unwrap_err(), "Verification failed: data mismatch detected");
    assert_eq!(w.record_chunk(b"", b"zz"), Ok(true));
    assert_eq!(w.check_cancel(true).unwrap_err(), "Verification cancelled");
}

#[test]
fn full_verification_walks_the_source() {
    let size: u64 = 4 * 1024 * 1024 + 10;
    let mut c = FullCheck::new(size);
    assert_eq!(c.next_step(true), FullStep::Cancelled);
    assert_eq!(c.next_step(false), FullStep::Read(4 * 1024 * 1024));
    let chunk = vec![1u8; 4 * 1024 * 1024];
    assert!(c.record(&chunk, &chunk));
    assert_eq!(c.next_step(false), FullStep::Read(10));
    assert!(!c.record(&[1u8; 10], &[1u8; 9]));
    assert!(!c.record(&[1u8; 10], &[2u8; 10]));
    assert!(c.record(&[1u8; 10], &[1u8; 10]));
    assert_eq!(c.next_step(false), FullStep::Finished);
    assert_eq!(c.cancelled_message(), "Verification cancelled");
}

#[test]
fn verifier_compares_digests_exactly() {
    let v = WriteVerifier::new("a.iso".to_string(), "\\\\.\\PhysicalDrive1".to_string());
    assert!(!v.is_cancelled());
    assert!(v.verify_hash("abc", "abc"));
    assert!(!v.verify_hash("abc", "ABC"));
    let v = v.with_cancellation(AtomicBool::new(true));
    assert!(v.is_cancelled());
}

#[test]
fn sample_offsets_are_distinct_whole_blocks() {
    let size = 64 * 1024 * 10 + 5;
    let offs = sample_offsets(size, 4);
    assert_eq!(offs.len(), 4);
    let all = sample_offsets(size, 100);
    assert_eq!(all.len(), 10);
    let mut sorted = all.clone();
    sorted.sort();
    let expected: Vec<u64> = (0..10).map(|i| i * 65536).collect();
    assert_eq!(sorted, expected);
    for o in offs {
        assert_eq!(o % 65536, 0);
        assert!(o + 65536 <= size);
    }
    assert!(sample_offsets(1000, 5).is_empty());
}

#[test]
fn sample_order_is_random() {
    let size = 65536 * 1000;
    let first: Vec<u64> = (0..5).map(|i| i * 65536).collect();
    let differs = (0..20).any(|_| sample_offsets(size, 5) != first);
    assert!(differs);
}
