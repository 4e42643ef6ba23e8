use sidozdev::disk::device::UsbDevice;
use sidozdev::state::app_state::{
    AppState, BootMode, FileSystem, HashAlgorithm, Language, LogEntry, LogLevel, OperationConfig, OperationPhase,
    PartitionScheme, Theme,
};
use sidozdev::state::config::AppSettings;
use sidozdev::state::events::{HashType, UiEvent};

fn sample_device(id: &str, name: &str) -> UsbDevice {
    UsbDevice {
        device_id: id.to_string(),
        friendly_name: name.to_string(),
        vendor: "SanDisk".to_string(),
        product: "Cruzer".to_string(),
        capacity: 16_000_000_000,
        free_space: 8_000_000_000,
        interface_type: "USB 3.0".to_string(),
        device_path: id.to_string(),
        drive_letters: vec!["E:".to_string()],
        serial_number: "1234567890".to_string(),
        is_removable: true,
        is_mounted: true,
        current_file_system: Some("FAT32".to_string()),
        partition_scheme: Some("MBR".to_string()),
        vid_pid: "0781:5567".to_string(),
    }
}

#[test]
fn test_app_state_creation() {
    let state = AppState::new();
    assert!(state.devices.is_empty());
    assert!(state.config.selected_device.is_none());
    assert!(state.config.iso_path.is_none());
    assert!(!state.is_running);
    assert_eq!(state.progress.phase, OperationPhase::Idle);
}

#[test]
fn test_add_log() {
    let mut state = AppState::new();
    state.add_log(LogLevel::Info, "Test message");
    assert_eq!(state.logs.len(), 1);
    assert_eq!(state.logs[0].message, "Test message");
    assert_eq!(state.logs[0].level, LogLevel::Info);
}

#[test]
fn test_log_limit() {
    let mut state = AppState::new();
    for i in 0..1005 {
        state.add_log(LogLevel::Info, &format!("Message {}", i));
    }
    assert_eq!(state.logs.len(), 1000);
}

#[test]
fn log_window_keeps_newest_entries_in_order() {
    let mut state = AppState::new();
    for i in 0..1005 {
        state.add_log(LogLevel::Info, &format!("Message {}", i));
    }
    assert_eq!(state.logs[0].message, "Message 5");
    assert_eq!(state.logs[999].message, "Message 1004");
}

#[test]
fn log_message_events_keep_the_log_at_its_cap() {
    let mut state = AppState::new();
    for i in 0..1000 {
        state.add_log(LogLevel::Info, &format!("Message {}", i));
    }
    let entry = LogEntry {
        timestamp: "12:00:00".to_string(),
        level: LogLevel::Warning,
        message: "newest".to_string(),
    };
    let shown = state.apply_ui_event(UiEvent::LogMessage(entry));
    assert!(shown.is_none());
    assert_eq!(state.logs.len(), 1000);
    assert_eq!(state.logs[0].message, "Message 1");
    assert_eq!(state.logs[999].message, "newest");
    assert_eq!(state.logs[999].level, LogLevel::Warning);
}

#[test]
fn log_timestamp_is_a_time_of_day() {
    let mut state = AppState::new();
    state.add_log(LogLevel::Info, "x");
    let ts = &state.logs[0].timestamp;
    assert_eq!(ts.len(), 12);
    assert_eq!(&ts[8..9], ".");
    assert_eq!(&ts[2..3], ":");
    assert_eq!(&ts[5..6], ":");
}

#[test]
fn test_is_ready() {
    let mut state = AppState::new();
    assert!(!state.is_ready());
    state.config.selected_device = Some("test".to_string());
    assert!(!state.is_ready());
    state.config.iso_path = Some("test.iso".to_string());
    assert!(state.is_ready());
    state.is_running = true;
    assert!(!state.is_ready());
}

#[test]
fn test_cancel_request() {
    let mut state = AppState::new();
    state.request_cancel();
    assert!(state.cancel_requested);
    assert_eq!(state.logs[0].level, LogLevel::Warning);
    assert_eq!(state.logs[0].message, "Cancellation requested by user");
}

#[test]
fn reset_cancel_clears_the_request_only() {
    let mut state = AppState::new();
    state.request_cancel();
    state.reset_cancel();
    assert!(!state.cancel_requested);
    assert_eq!(state.logs.len(), 1);
}

#[test]
fn clear_logs_empties_the_log() {
    let mut state = AppState::new();
    state.add_log(LogLevel::Error, "a");
    state.add_log(LogLevel::Error, "b");
    state.clear_logs();
    assert!(state.logs.is_empty());
}

#[test]
fn test_default_config() {
    let config = OperationConfig::default();
    assert_eq!(config.boot_mode, BootMode::Uefi);
    assert_eq!(config.partition_scheme, PartitionScheme::Gpt);
    assert_eq!(config.file_system, FileSystem::Fat32);
    assert_eq!(config.hash_algorithm, HashAlgorithm::Sha256);
    assert!(config.verify_after_write);
    assert!(config.quick_format);
    assert!(!config.bad_block_check);
}

#[test]
fn test_app_settings_default() {
    let settings = AppSettings::default();
    assert_eq!(settings.theme, Theme::System);
    assert_eq!(settings.language, Language::English);
    assert_eq!(settings.log_level, "info");
    assert_eq!(settings.default_boot_mode, BootMode::Uefi);
    assert_eq!(settings.default_partition_scheme, PartitionScheme::Gpt);
    assert_eq!(settings.default_file_system, FileSystem::Fat32);
    assert_eq!(settings.default_hash_algorithm, HashAlgorithm::Sha256);
    assert!(settings.auto_check_updates);
    assert!(settings.last_iso_directory.is_none());
    assert!(!settings.show_advanced_options);
}

#[test]
fn settings_file_lies_below_the_config_directory() {
    let file = AppSettings::config_file_from(Some("/home/alice/.config".to_string()));
    let expected = std::path::Path::new("/home/alice/.config").join("sidozdev").join("config.json");
    assert_eq!(file, expected.to_string_lossy());
    let fallback = AppSettings::config_dir_from(None);
    assert_eq!(fallback, std::path::Path::new(".").join("sidozdev").to_string_lossy());
    let dir = AppSettings::config_dir();
    assert!(dir.ends_with("sidozdev"));
    assert!(dir.len() > "sidozdev".len());
    let file = AppSettings::config_file();
    assert!(file.starts_with(&dir));
    assert!(file.ends_with("config.json"));
    assert_eq!(file.len(), dir.len() + 1 + "config.json".len());
}

#[test]
fn settings_paths_put_one_separator_between_parts() {
    let sep = std::path::MAIN_SEPARATOR;
    assert_eq!(AppSettings::config_dir_from(Some("/cfg".to_string())), format!("/cfg{}sidozdev", sep));
    assert_eq!(AppSettings::config_dir_from(Some("/cfg/".to_string())), "/cfg/sidozdev");
    assert_eq!(AppSettings::config_dir_from(None), format!(".{}sidozdev", sep));
    assert_eq!(
        AppSettings::config_file_from(Some("/cfg/".to_string())),
        format!("/cfg/sidozdev{}config.json", sep)
    );
}

#[test]
fn stored_settings_win_over_defaults() {
    let mut stored = AppSettings::default();
    stored.theme = Theme::Dark;
    let s = AppSettings::loaded_or_default(Some(stored));
    assert_eq!(s.theme, Theme::Dark);
    let d = AppSettings::loaded_or_default(None);
    assert_eq!(d.theme, Theme::System);
}

#[test]
fn test_boot_mode_display() {
    assert_eq!(BootMode::BiosLegacy.to_string(), "BIOS (Legacy)");
    assert_eq!(BootMode::Uefi.to_string(), "UEFI");
    assert_eq!(BootMode::UefiSecureBoot.to_string(), "UEFI + Secure Boot");
}

#[test]
fn option_names_are_shown_as_documented() {
    assert_eq!(PartitionScheme::Mbr.to_string(), "MBR");
    assert_eq!(PartitionScheme::Gpt.to_string(), "GPT");
    assert_eq!(FileSystem::Fat32.to_string(), "FAT32");
    assert_eq!(FileSystem::Ntfs.to_string(), "NTFS");
    assert_eq!(FileSystem::ExFat.to_string(), "exFAT");
    assert_eq!(HashAlgorithm::Sha256.to_string(), "SHA256");
    assert_eq!(Language::Arabic.to_string(), "العربية");
    assert_eq!(Language::English.to_string(), "English");
    assert_eq!(HashType::Md5.to_string(), "MD5");
}

#[test]
fn device_scan_reports_devices() {
    let mut state = AppState::new();
    state.begin_device_scan();
    assert_eq!(state.progress.phase, OperationPhase::ScanningDevices);
    assert_eq!(state.logs[0].message, "Scanning for USB devices...");
    let ev = state.finish_device_scan(Ok(vec![sample_device("d1", "One"), sample_device("d2", "Two")]));
    assert_eq!(state.progress.phase, OperationPhase::Idle);
    assert_eq!(state.devices.len(), 2);
    assert_eq!(state.logs[1].message, "Found 2 USB device(s)");
    assert_eq!(state.logs[1].level, LogLevel::Success);
    assert!(matches!(ev, UiEvent::DevicesUpdated(ref d) if d.len() == 2));
}

#[test]
fn device_scan_failure_is_an_error() {
    let mut state = AppState::new();
    let ev = state.finish_device_scan(Err("access denied".to_string()));
    assert_eq!(state.progress.phase, OperationPhase::Error);
    assert_eq!(state.logs[0].message, "Device enumeration failed: access denied");
    assert!(matches!(ev, UiEvent::Error(ref m) if m == "access denied"));
}

#[test]
fn write_needs_device_and_image() {
    let mut state = AppState::new();
    assert!(state.begin_write().is_none());
    assert_eq!(state.logs[0].message, "Device or ISO not selected");
    assert!(!state.is_running);
    state.config.selected_device = Some("dev".to_string());
    state.config.iso_path = Some("a.iso".to_string());
    let job = state.begin_write().unwrap();
    assert_eq!(job.device_id, "dev");
    assert_eq!(job.iso_path, "a.iso");
    assert_eq!(job.boot_mode, BootMode::Uefi);
    assert!(state.is_running);
    assert_eq!(state.progress.phase, OperationPhase::Writing);
    assert_eq!(state.logs[1].message, "Starting write to device: dev");
}

#[test]
fn finished_write_stops_running() {
    let mut state = AppState::new();
    state.is_running = true;
    let ev = state.finish_write(Ok(()));
    assert!(!state.is_running);
    assert_eq!(state.progress.phase, OperationPhase::Completed);
    assert!(matches!(ev, UiEvent::OperationCompleted));
    state.is_running = true;
    let ev = state.finish_write(Err("disk full".to_string()));
    assert!(!state.is_running);
    assert_eq!(state.progress.phase, OperationPhase::Error);
    assert_eq!(state.logs[1].message, "Write failed: disk full");
    assert!(matches!(ev, UiEvent::Error(_)));
}

#[test]
fn cancellation_stops_the_operation() {
    let mut state = AppState::new();
    state.is_running = true;
    let ev = state.apply_cancellation();
    assert!(!state.is_running);
    assert_eq!(state.progress.phase, OperationPhase::Cancelled);
    assert_eq!(state.logs[0].level, LogLevel::Warning);
    assert!(matches!(ev, UiEvent::OperationCancelled));
}

#[test]
fn hash_verification_logs_the_result() {
    let mut state = AppState::new();
    assert!(state.begin_hash_verification(HashType::Sha1).is_none());
    assert!(state.logs.is_empty());
    state.config.iso_path = Some("x.iso".to_string());
    assert_eq!(state.begin_hash_verification(HashType::Sha1).unwrap(), "x.iso");
    assert_eq!(state.logs[0].message, "Starting SHA1 verification...");
    state.finish_hash_verification(HashType::Sha1, Ok("abcd".to_string()));
    assert_eq!(state.logs[1].message, "ISO SHA1 hash: abcd");
    state.finish_hash_verification(HashType::Md5, Err("io".to_string()));
    assert_eq!(state.logs[2].message, "Hash verification failed: io");
    assert_eq!(state.logs[2].level, LogLevel::Error);
}

#[test]
fn format_command_logs_two_entries() {
    let mut state = AppState::new();
    state.format_selected_device();
    assert!(state.logs.is_empty());
    state.config.selected_device = Some("E:".to_string());
    state.format_selected_device();
    assert_eq!(state.logs[0].message, "Formatting device: E:");
    assert_eq!(state.logs[1].message, "Format completed");
}

#[test]
fn device_removed_event_drops_the_device() {
    let mut state = AppState::new();
    state.devices = vec![sample_device("a", "A"), sample_device("b", "B"), sample_device("a", "A2")];
    let shown = state.apply_ui_event(UiEvent::DeviceRemoved("a".to_string()));
    assert!(shown.is_none());
    assert_eq!(state.devices.len(), 1);
    assert_eq!(state.devices[0].device_id, "b");
}

#[test]
fn error_event_is_shown() {
    let mut state = AppState::new();
    let shown = state.apply_ui_event(UiEvent::Error("boom".to_string()));
    assert_eq!(shown.unwrap(), "boom");
}
