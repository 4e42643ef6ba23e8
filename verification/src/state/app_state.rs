//! Application state: the selected options, the device list, the log and
//! the progress of the running operation.

use vstd::prelude::*;
use vstd::string::StringExecFns;
use crate::disk::device::UsbDevice;
use crate::iso::parser::IsoInfo;
use crate::utils::clock::local_time_of_day;

verus! {

/// Current phase of the operation
#[derive(Debug, Clone, Copy, PartialEq, Eq, Structural)]
pub enum OperationPhase {
    Idle,
    ScanningDevices,
    ValidatingIso,
    Formatting,
    Writing,
    Verifying,
    Completed,
    Cancelled,
    Error,
}

/// Boot mode selection
#[derive(Debug, Clone, Copy, PartialEq, Eq, Structural)]
pub enum BootMode {
    BiosLegacy,
    Uefi,
    UefiSecureBoot,
}

/// Partition scheme
#[derive(Debug, Clone, Copy, PartialEq, Eq, Structural)]
pub enum PartitionScheme {
    Mbr,
    Gpt,
}

/// File system type
#[derive(Debug, Clone, Copy, PartialEq, Eq, Structural)]
pub enum FileSystem {
    Fat32,
    Ntfs,
    ExFat,
}

/// Hash algorithm for ISO verification
#[derive(Debug, Clone, Copy, PartialEq, Eq, Structural)]
pub enum HashAlgorithm {
    Md5,
    Sha1,
    Sha256,
}

/// Theme preference
#[derive(Debug, Clone, Copy, PartialEq, Eq, Structural)]
pub enum Theme {
    Light,
    Dark,
    System,
}

/// Language preference
#[derive(Debug, Clone, Copy, PartialEq, Eq, Structural)]
pub enum Language {
    Arabic,
    English,
}

/// Log level
#[derive(Debug, Clone, Copy, PartialEq, Eq, Structural)]
pub enum LogLevel {
    Info,
    Warning,
    Error,
    Success,
    Debug,
}


/// The display name of each boot mode.
pub open spec fn boot_mode_name(m: BootMode) -> Seq<char> {
    match m {
        BootMode::BiosLegacy => "BIOS (Legacy)"@,
        BootMode::Uefi => "UEFI"@,
        BootMode::UefiSecureBoot => "UEFI + Secure Boot"@,
    }
}

impl BootMode {
    /// The display name.
    pub fn to_string(&self) -> (s: String)
        ensures
            s@ == boot_mode_name(*self),
    {
        match self {
            BootMode::BiosLegacy => String::from_str("BIOS (Legacy)"),
            BootMode::Uefi => String::from_str("UEFI"),
            BootMode::UefiSecureBoot => String::from_str("UEFI + Secure Boot"),
        }
    }
}

/// The display name of each partition scheme.
pub open spec fn partition_scheme_name(p: PartitionScheme) -> Seq<char> {
    match p {
        PartitionScheme::Mbr => "MBR"@,
        PartitionScheme::Gpt => "GPT"@,
    }
}

impl PartitionScheme {
    /// The display name.
    pub fn to_string(&self) -> (s: String)
        ensures
            s@ == partition_scheme_name(*self),
    {
        match self {
            PartitionScheme::Mbr => String::from_str("MBR"),
            PartitionScheme::Gpt => String::from_str("GPT"),
        }
    }
}

/// The display name of each file system.
pub open spec fn file_system_name(f: FileSystem) -> Seq<char> {
    match f {
        FileSystem::Fat32 => "FAT32"@,
        FileSystem::Ntfs => "NTFS"@,
        FileSystem::ExFat => "exFAT"@,
    }
}

impl FileSystem {
    /// The display name.
    pub fn to_string(&self) -> (s: String)
        ensures
            s@ == file_system_name(*self),
    {
        match self {
            FileSystem::Fat32 => String::from_str("FAT32"),
            FileSystem::Ntfs => String::from_str("NTFS"),
            FileSystem::ExFat => String::from_str("exFAT"),
        }
    }
}

/// The display name of each hash algorithm.
pub open spec fn hash_algorithm_name(h: HashAlgorithm) -> Seq<char> {
    match h {
        HashAlgorithm::Md5 => "MD5"@,
        HashAlgorithm::Sha1 => "SHA1"@,
        HashAlgorithm::Sha256 => "SHA256"@,
    }
}

impl HashAlgorithm {
    /// The display name.
    pub fn to_string(&self) -> (s: String)
        ensures
            s@ == hash_algorithm_name(*self),
    {
        match self {
            HashAlgorithm::Md5 => String::from_str("MD5"),
            HashAlgorithm::Sha1 => String::from_str("SHA1"),
            HashAlgorithm::Sha256 => String::from_str("SHA256"),
        }
    }
}

/// The display name of each language, in that language.
pub open spec fn language_name(l: Language) -> Seq<char> {
    match l {
        Language::Arabic => "العربية"@,
        Language::English => "English"@,
    }
}

impl Language {
    /// The display name.
    pub fn to_string(&self) -> (s: String)
        ensures
            s@ == language_name(*self),
    {
        match self {
            Language::Arabic => String::from_str("العربية"),
            Language::English => String::from_str("English"),
        }
    }
}

/// Progress information. The percentage and the speed are `f32` values in
/// the application; the library carries their IEEE-754 bit patterns.
#[derive(Debug, Clone)]
pub struct ProgressInfo {
    pub phase: OperationPhase,
    pub percentage_bits: u32,
    pub bytes_written: u64,
    pub total_bytes: u64,
    pub speed_mbps_bits: u32,
    pub eta_seconds: u64,
    pub current_operation: String,
}

impl Default for ProgressInfo {
    fn default() -> (p: Self)
        ensures
            p.phase == OperationPhase::Idle,
            p.percentage_bits == 0,
            p.bytes_written == 0,
            p.total_bytes == 0,
            p.speed_mbps_bits == 0,
            p.eta_seconds == 0,
            p.current_operation@ == Seq::<char>::empty(),
    {
        Self {
            phase: OperationPhase::Idle,
            percentage_bits: 0,
            bytes_written: 0,
            total_bytes: 0,
            speed_mbps_bits: 0,
            eta_seconds: 0,
            current_operation: String::new(),
        }
    }
}

/// Application configuration for a single operation
#[derive(Debug, Clone)]
pub struct OperationConfig {
    pub selected_device: Option<String>,
    pub iso_path: Option<String>,
    pub boot_mode: BootMode,
    pub partition_scheme: PartitionScheme,
    pub file_system: FileSystem,
    pub hash_algorithm: HashAlgorithm,
    pub verify_after_write: bool,
    pub quick_format: bool,
    pub bad_block_check: bool,
}

/// The defaults: no selection, UEFI, GPT, FAT32, SHA256, verification and
/// quick format on, bad block check off.
pub open spec fn is_default_config(c: OperationConfig) -> bool {
    &&& c.selected_device is None
    &&& c.iso_path is None
    &&& c.boot_mode == BootMode::Uefi
    &&& c.partition_scheme == PartitionScheme::Gpt
    &&& c.file_system == FileSystem::Fat32
    &&& c.hash_algorithm == HashAlgorithm::Sha256
    &&& c.verify_after_write
    &&& c.quick_format
    &&& !c.bad_block_check
}

impl Default for OperationConfig {
    fn default() -> (c: Self)
        ensures
            is_default_config(c),
    {
        Self {
            selected_device: None,
            iso_path: None,
            boot_mode: BootMode::Uefi,
            partition_scheme: PartitionScheme::Gpt,
            file_system: FileSystem::Fat32,
            hash_algorithm: HashAlgorithm::Sha256,
            verify_after_write: true,
            quick_format: true,
            bad_block_check: false,
        }
    }
}

/// Log entry
#[derive(Debug, Clone)]
pub struct LogEntry {
    pub timestamp: String,
    pub level: LogLevel,
    pub message: String,
}

/// A log entry's contents.
pub struct LogEntryView {
    pub timestamp: Seq<char>,
    pub level: LogLevel,
    pub message: Seq<char>,
}

impl View for LogEntry {
    type V = LogEntryView;

    open spec fn view(&self) -> LogEntryView {
        LogEntryView { timestamp: self.timestamp@, level: self.level, message: self.message@ }
    }
}

/// The contents of a log.
pub open spec fn log_view(logs: Seq<LogEntry>) -> Seq<LogEntryView> {
    logs.map_values(|e: LogEntry| e@)
}

/// The most entries the log keeps.
pub const MAX_LOG_ENTRIES: usize = 1000;

/// The log after appending `e`: when that makes it longer than 1000
/// entries, the oldest entry is dropped.
pub open spec fn log_after_add(logs: Seq<LogEntryView>, e: LogEntryView) -> Seq<LogEntryView> {
    let pushed = logs.push(e);
    if pushed.len() > 1000 {
        pushed.subrange(1, pushed.len() as int)
    } else {
        pushed
    }
}

/// The log after appending an entry of the given level and message, with
/// some timestamp.
pub open spec fn log_extended(old_logs: Seq<LogEntry>, new_logs: Seq<LogEntry>, level: LogLevel, message: Seq<char>) -> bool {
    exists|ts: Seq<char>|
        log_view(new_logs) == log_after_add(
            log_view(old_logs),
            LogEntryView { timestamp: ts, level, message },
        )
}

/// Central application state
#[derive(Debug)]
pub struct AppState {
    pub config: OperationConfig,
    pub devices: Vec<UsbDevice>,
    pub iso_info: Option<IsoInfo>,
    pub progress: ProgressInfo,
    pub logs: Vec<LogEntry>,
    pub is_running: bool,
    pub cancel_requested: bool,
    pub theme: Theme,
    pub language: Language,
    pub error_message: Option<String>,
}

/// Everything but the log is unchanged.
pub open spec fn same_but_logs(a: AppState, b: AppState) -> bool {
    &&& a.config == b.config
    &&& a.devices == b.devices
    &&& a.iso_info == b.iso_info
    &&& a.progress == b.progress
    &&& a.is_running == b.is_running
    &&& a.cancel_requested == b.cancel_requested
    &&& a.theme == b.theme
    &&& a.language == b.language
    &&& a.error_message == b.error_message
}

impl AppState {
    pub fn new() -> (s: Self)
        ensures
            is_default_config(s.config),
            s.devices@.len() == 0,
            s.iso_info is None,
            s.progress.phase == OperationPhase::Idle,
            s.progress.percentage_bits == 0,
            s.progress.bytes_written == 0,
            s.progress.total_bytes == 0,
            s.progress.speed_mbps_bits == 0,
            s.progress.eta_seconds == 0,
            s.progress.current_operation@ == Seq::<char>::empty(),
            s.logs@.len() == 0,
            !s.is_running,
            !s.cancel_requested,
            s.theme == Theme::System,
            s.language == Language::English,
            s.error_message is None,
    {
        Self {
            config: OperationConfig::default(),
            devices: Vec::new(),
            iso_info: None,
            progress: ProgressInfo::default(),
            logs: Vec::new(),
            is_running: false,
            cancel_requested: false,
            theme: Theme::System,
            language: Language::English,
            error_message: None,
        }
    }

    /// Appends a timestamped entry, keeping only the last 1000 entries.
    pub fn add_log(&mut self, level: LogLevel, message: &str)
        ensures
            log_extended(old(self).logs@, final(self).logs@, level, message@),
            same_but_logs(*old(self), *final(self)),
    {
        let timestamp = local_time_of_day();
        let ghost ts = timestamp@;
        self.logs.push(LogEntry { timestamp, level, message: String::from_str(message) });
        if self.logs.len() > 1000 {
            self.logs.remove(0);
        }
        proof {
            let e = LogEntryView { timestamp: ts, level, message: message@ };
            assert(log_view(self.logs@) =~= log_after_add(log_view(old(self).logs@), e));
        }
    }

    /// Appends an entry made elsewhere, keeping only the last 1000 entries.
    pub fn push_log(&mut self, entry: LogEntry)
        ensures
            log_view(final(self).logs@) == log_after_add(log_view(old(self).logs@), entry@),
            same_but_logs(*old(self), *final(self)),
    {
        let ghost e = entry@;
        self.logs.push(entry);
        if self.logs.len() > 1000 {
            self.logs.remove(0);
        }
        assert(log_view(self.logs@) =~= log_after_add(log_view(old(self).logs@), e));
    }

    pub fn clear_logs(&mut self)
        ensures
            final(self).logs@.len() == 0,
            same_but_logs(*old(self), *final(self)),
    {
        self.logs.clear();
    }

    pub fn request_cancel(&mut self)
        ensures
            final(self).cancel_requested,
            log_extended(old(self).logs@, final(self).logs@, LogLevel::Warning, "Cancellation requested by user"@),
            same_but_logs(AppState { cancel_requested: true, ..*old(self) }, *final(self)),
    {
        self.cancel_requested = true;
        self.add_log(LogLevel::Warning, "Cancellation requested by user");
    }

    pub fn reset_cancel(&mut self)
        ensures
            *final(self) == (AppState { cancel_requested: false, ..*old(self) }),
    {
        self.cancel_requested = false;
    }

    pub fn is_ready(&self) -> (ready: bool)
        ensures
            ready == (self.config.selected_device is Some && self.config.iso_path is Some && !self.is_running),
    {
        self.config.selected_device.is_some() && self.config.iso_path.is_some() && !self.is_running
    }
}

} // verus!
