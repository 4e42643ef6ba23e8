use sidozdev::disk::device::UsbDevice;
use sidozdev::state::app_state::{
    AppState, BootMode, Language, LogEntry, LogLevel, OperationConfig, OperationPhase, PartitionScheme, Theme,
};
use sidozdev::ui::i18n::{TranslationCache, Translations};
use sidozdev::ui::panels::{
    eta_text, format_device_info, is_dark_theme, join_texts, log_counts_text, log_export_text, log_level_label,
    option_texts, phase_text, secure_boot_mbr_warning, write_time_text, yes_no_text, DeviceListComponent,
    IsoSelectorComponent, LogPanelComponent, OptionsPanelComponent, ProgressPanelComponent,
};

fn device(id: &str, name: &str) -> UsbDevice {
    UsbDevice {
        device_id: id.to_string(),
        friendly_name: name.to_string(),
        vendor: "V".to_string(),
        product: "P".to_string(),
        capacity: 16_000_000_000,
        free_space: 0,
        interface_type: "USB 3.0".to_string(),
        device_path: id.to_string(),
        drive_letters: vec![],
        serial_number: "S".to_string(),
        is_removable: true,
        is_mounted: false,
        current_file_system: None,
        partition_scheme: None,
        vid_pid: "0781:5567".to_string(),
    }
}

fn entry(ts: &str, level: LogLevel, msg: &str) -> LogEntry {
    LogEntry { timestamp: ts.to_string(), level, message: msg.to_string() }
}

#[test]
fn translations_look_up_keys() {
    let en = Translations::load(Language::English);
    assert_eq!(en.get("app.title"), "Sidozdev - USB Bootable Media Creator");
    assert_eq!(en.get("no.such.key"), "no.such.key");
    let ar = Translations::load(Language::Arabic);
    assert_eq!(ar.get("status.ready"), "جاهز");
    assert_eq!(Translations::default().get("status.ready"), "Ready");
    assert_eq!(Translations::new().get("status.ready"), "status.ready");
    assert_eq!(en.strings.len(), ar.strings.len());
    for (a, b) in en.strings.iter().zip(ar.strings.iter()) {
        assert_eq!(a.0, b.0);
    }
}

#[test]
fn language_switching_takes_effect() {
    let mut cache = TranslationCache::new();
    assert!(!cache.is_initialized());
    assert_eq!(cache.t("status.ready"), "status.ready");
    cache.init_translations(Language::Arabic);
    assert!(cache.is_initialized());
    assert_eq!(cache.t("status.ready"), "جاهز");
    cache.init_translations(Language::English);
    assert_eq!(cache.t("status.ready"), "Ready");
    assert_eq!(cache.t("menu.file"), "File");
    cache.init_translations(Language::Arabic);
    assert_eq!(cache.t("menu.file"), "ملف");
    assert_eq!(cache.t("progress.start"), "بدء");
    assert!(cache.is_initialized());
}

#[test]
fn components_are_created() {
    let _ = DeviceListComponent::new();
    let _ = IsoSelectorComponent::new();
    let _ = OptionsPanelComponent::new();
    let _ = ProgressPanelComponent::new();
    let log = LogPanelComponent::new();
    assert!(log.filter_text.is_empty());
    assert!(log.auto_scroll);
}

#[test]
fn device_lines_and_selection() {
    let d = device("\\\\.\\PhysicalDrive1", "Test USB");
    assert_eq!(format_device_info(&d), "Test USB - 14.90 GB (USB 3.0 - 0781:5567)");
    let mut state = AppState::new();
    state.devices = vec![device("a", "First"), device("b", "Second")];
    assert_eq!(state.selected_device_index(), None);
    state.select_device(1);
    assert_eq!(state.config.selected_device, Some("b".to_string()));
    assert_eq!(state.logs[0].message, "Selected device: Second");
    assert_eq!(state.selected_device_index(), Some(1));
    state.config.selected_device = Some("gone".to_string());
    assert_eq!(state.selected_device_index(), None);
}

#[test]
fn image_choice_is_refused_while_running() {
    let mut state = AppState::new();
    assert!(state.choose_iso("C:\\isos\\linux.iso"));
    assert_eq!(state.config.iso_path, Some("C:\\isos\\linux.iso".to_string()));
    assert_eq!(state.logs[0].message, "Selected ISO: C:\\isos\\linux.iso");
    state.is_running = true;
    assert!(!state.choose_iso("other.iso"));
    assert_eq!(state.config.iso_path, Some("C:\\isos\\linux.iso".to_string()));
}

#[test]
fn start_and_cancel_buttons() {
    let mut state = AppState::new();
    assert!(!state.press_start());
    assert!(!state.press_cancel());
    state.config.selected_device = Some("d".to_string());
    state.config.iso_path = Some("i.iso".to_string());
    assert!(state.press_start());
    assert!(state.is_running);
    assert_eq!(state.logs[0].message, "Starting write operation...");
    assert!(!state.press_start());
    assert!(state.press_cancel());
    assert!(state.cancel_requested);
}

#[test]
fn progress_texts() {
    assert_eq!(eta_text(0), "00:00");
    assert_eq!(eta_text(65), "01:05");
    assert_eq!(eta_text(6000), "100:00");
    assert_eq!(write_time_text(70), "~01:10 (at 10 MB/s)");
    assert_eq!(yes_no_text(true), "✓ Yes");
    assert_eq!(yes_no_text(false), "✗ No");
    let en = Translations::load(Language::English);
    assert_eq!(phase_text(OperationPhase::Idle, &en), "Ready");
    assert_eq!(log_level_label(LogLevel::Info, &en), "INFO");
    assert_eq!(log_level_label(LogLevel::Debug, &en), "DEBUG");
}

#[test]
fn option_names_and_warning() {
    let en = Translations::load(Language::English);
    let mut config = OperationConfig::default();
    let (b, p, f) = option_texts(&config, &en);
    assert_eq!(b, "UEFI");
    assert_eq!(p, "GPT");
    assert_eq!(f, "FAT32");
    assert!(!secure_boot_mbr_warning(&config));
    config.boot_mode = BootMode::UefiSecureBoot;
    config.partition_scheme = PartitionScheme::Mbr;
    assert!(secure_boot_mbr_warning(&config));
    assert!(is_dark_theme(Theme::Dark, false));
    assert!(!is_dark_theme(Theme::Light, true));
    assert!(is_dark_theme(Theme::System, true));
}

#[test]
fn log_panel_filters_and_exports() {
    let logs = vec![
        entry("10:00:00.000", LogLevel::Info, "Scanning for USB devices..."),
        entry("10:00:01.000", LogLevel::Error, "Write failed"),
        entry("10:00:02.000", LogLevel::Success, "Found 2 USB device(s)"),
    ];
    let mut panel = LogPanelComponent::new();
    assert_eq!(panel.filtered_logs(&logs).len(), 3);
    panel.filter_text = "usb".to_string();
    let shown = panel.filtered_logs(&logs);
    assert_eq!(shown.len(), 2);
    assert_eq!(shown[1].message, "Found 2 USB device(s)");
    panel.filter_text = "WRITE".to_string();
    assert_eq!(panel.filtered_logs(&logs).len(), 1);
    assert_eq!(
        log_export_text(&logs),
        "[10:00:00.000] Info - Scanning for USB devices...\n[10:00:01.000] Error - Write failed\n[10:00:02.000] Success - Found 2 USB device(s)"
    );
    assert_eq!(log_export_text(&vec![]), "");
    assert_eq!(log_counts_text(3, 1), "Total logs: 3 | Filtered: 1");
    assert_eq!(join_texts(&vec!["El Torito".to_string(), "BIOS".to_string()], ", "), "El Torito, BIOS");
}

#[test]
fn status_overview_lines() {
    let mut state = AppState::new();
    let (d, i, r, run) = state.status_overview();
    assert_eq!(d, "Not selected");
    assert_eq!(i, "Not selected");
    assert_eq!(r, "✗ No");
    assert_eq!(run, "No");
    state.config.selected_device = Some("dev".to_string());
    state.config.iso_path = Some("x.iso".to_string());
    let (d, _, r, _) = state.status_overview();
    assert_eq!(d, "dev");
    assert_eq!(r, "✓ Yes");
}

const INTERFACE_KEYS: [&str; 75] = [
    "app.title",
    "app.subtitle",
    "device.title",
    "device.refresh",
    "device.none",
    "device.name",
    "device.capacity",
    "device.interface",
    "device.id",
    "device.warning",
    "iso.title",
    "iso.select",
    "iso.browse",
    "iso.info",
    "iso.label",
    "iso.size",
    "iso.type",
    "iso.bootable",
    "iso.boot_modes",
    "iso.architecture",
    "iso.hash",
    "options.title",
    "options.boot_mode",
    "options.partition",
    "options.file_system",
    "options.advanced",
    "options.quick_format",
    "options.verify",
    "options.bad_blocks",
    "boot.bios",
    "boot.uefi",
    "boot.uefi_secure",
    "partition.mbr",
    "partition.gpt",
    "fs.fat32",
    "fs.ntfs",
    "fs.exfat",
    "progress.title",
    "progress.start",
    "progress.cancel",
    "progress.status",
    "progress.speed",
    "progress.eta",
    "logs.title",
    "logs.clear",
    "logs.save",
    "logs.level.info",
    "logs.level.warning",
    "logs.level.error",
    "logs.level.success",
    "status.ready",
    "status.scanning",
    "status.validating",
    "status.formatting",
    "status.writing",
    "status.verifying_write",
    "status.completed",
    "status.cancelled",
    "status.error",
    "menu.file",
    "menu.settings",
    "menu.help",
    "menu.about",
    "menu.exit",
    "settings.title",
    "settings.language",
    "settings.theme",
    "settings.theme.light",
    "settings.theme.dark",
    "settings.theme.system",
    "about.title",
    "about.version",
    "about.description",
    "about.copyright",
    "about.license",
];

#[test]
fn every_interface_key_is_translated_in_both_languages() {
    let english = Translations::load(Language::English);
    let arabic = Translations::load(Language::Arabic);
    for key in INTERFACE_KEYS {
        assert_ne!(english.get(key), key, "{}", key);
        assert_ne!(arabic.get(key), key, "{}", key);
    }
}
