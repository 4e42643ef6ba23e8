//! What the panels of the interface show and what their controls do to the
//! application state: the device list, the image selector, the options,
//! the progress panel with its start and cancel buttons, the log panel with
//! its filter and export, and the status overview. Drawing is left to the
//! caller.

use vstd::prelude::*;
use vstd::string::StringExecFns;
use vstd::utf8::encode_utf8;
use crate::disk::device::{byte_size_text, UsbDevice};
use crate::state::app_state::{
    log_extended, log_view, same_but_logs, AppState, BootMode, FileSystem, LogEntry, LogEntryView,
    LogLevel, OperationConfig, OperationPhase, PartitionScheme, Theme,
};
use crate::ui::i18n::{
    arabic_texts, english_texts, entries_view, has_key, lemma_languages_share_keys, lookup, Translations,
};
use crate::utils::text::{
    concat_text, contains_bytes, decimal_string, decimal_text, text_contains, text_to_lowercase,
    unicode_lowercase,
};

verus! {

/// Device list component
pub struct DeviceListComponent;

/// ISO selector component
pub struct IsoSelectorComponent;

/// Options panel component
pub struct OptionsPanelComponent;

/// Progress panel component
pub struct ProgressPanelComponent;

/// Log panel component: the filter typed by the user and whether the view
/// follows new entries.
pub struct LogPanelComponent {
    pub filter_text: String,
    pub auto_scroll: bool,
}

impl DeviceListComponent {
    pub fn new() -> Self {
        DeviceListComponent
    }
}

impl IsoSelectorComponent {
    pub fn new() -> Self {
        IsoSelectorComponent
    }
}

impl OptionsPanelComponent {
    pub fn new() -> Self {
        OptionsPanelComponent
    }
}

impl ProgressPanelComponent {
    pub fn new() -> Self {
        ProgressPanelComponent
    }
}

/// The text a translation table gives for `key`.
pub open spec fn tr(t: Translations, key: Seq<char>) -> Seq<char> {
    lookup(entries_view(t.strings@), key)
}

/// One line of the device list: "name - capacity (interface - VID:PID)".
pub open spec fn device_line(d: UsbDevice) -> Seq<char> {
    d.friendly_name@ + " - "@ + byte_size_text(d.capacity) + " ("@ + d.interface_type@ + " - "@ + d.vid_pid@
        + ")"@
}

/// The line a device is listed with.
pub fn format_device_info(device: &UsbDevice) -> (s: String)
    ensures
        s@ == device_line(*device),
{
    let cap = device.capacity_display();
    let a = concat_text(device.friendly_name.as_str(), " - ");
    let b = concat_text(a.as_str(), cap.as_str());
    let c = concat_text(b.as_str(), " (");
    let d = concat_text(c.as_str(), device.interface_type.as_str());
    let e = concat_text(d.as_str(), " - ");
    let f = concat_text(e.as_str(), device.vid_pid.as_str());
    concat_text(f.as_str(), ")")
}

/// A number of at least two digits, zero-padded (`{:02}`).
pub open spec fn pad2(n: nat) -> Seq<char> {
    if n < 10 {
        "0"@ + decimal_text(n)
    } else {
        decimal_text(n)
    }
}

/// Minutes and seconds of a duration, "MM:SS".
pub open spec fn mm_ss(seconds: u64) -> Seq<char> {
    pad2((seconds / 60) as nat) + ":"@ + pad2((seconds % 60) as nat)
}

/// A number zero-padded to two digits.
fn pad2_text(n: u64) -> (s: String)
    ensures
        s@ == pad2(n as nat),
{
    let digits = decimal_string(n);
    if n < 10 {
        concat_text("0", digits.as_str())
    } else {
        digits
    }
}

/// The time left of a write, "MM:SS".
pub fn eta_text(eta_seconds: u64) -> (s: String)
    ensures
        s@ == mm_ss(eta_seconds),
{
    let m = pad2_text(eta_seconds / 60);
    let s = pad2_text(eta_seconds % 60);
    let head = concat_text(m.as_str(), ":");
    concat_text(head.as_str(), s.as_str())
}

/// The estimated write time of an image, "~MM:SS (at 10 MB/s)".
pub fn write_time_text(estimated_seconds: u64) -> (s: String)
    ensures
        s@ == "~"@ + mm_ss(estimated_seconds) + " (at 10 MB/s)"@,
{
    let t = eta_text(estimated_seconds);
    let head = concat_text("~", t.as_str());
    concat_text(head.as_str(), " (at 10 MB/s)")
}

/// The mark a yes-or-no fact is shown with.
pub open spec fn yes_no_mark(b: bool) -> Seq<char> {
    if b {
        "✓ Yes"@
    } else {
        "✗ No"@
    }
}

/// "✓ Yes" or "✗ No".
pub fn yes_no_text(b: bool) -> (s: String)
    ensures
        s@ == yes_no_mark(b),
{
    if b {
        String::from_str("✓ Yes")
    } else {
        String::from_str("✗ No")
    }
}

/// The texts joined with `sep` between them.
pub open spec fn joined(texts: Seq<Seq<char>>, sep: Seq<char>) -> Seq<char>
    decreases texts.len(),
{
    if texts.len() == 0 {
        Seq::<char>::empty()
    } else if texts.len() == 1 {
        texts[0]
    } else {
        joined(texts.drop_last(), sep) + sep + texts.last()
    }
}

/// The texts joined with `sep` between them (`[String]::join`).
pub fn join_texts(texts: &Vec<String>, sep: &str) -> (s: String)
    ensures
        s@ == joined(texts@.map_values(|t: String| t@), sep@),
{
    let ghost v = texts@.map_values(|t: String| t@);
    let mut out = String::new();
    let mut i: usize = 0;
    while i < texts.len()
        invariant
            i <= texts@.len(),
            v == texts@.map_values(|t: String| t@),
            out@ == joined(v.subrange(0, i as int), sep@),
        decreases texts@.len() - i,
    {
        proof {
            let next = v.subrange(0, i + 1);
            assert(next.drop_last() =~= v.subrange(0, i as int));
        }
        if i > 0 {
            out.append(sep);
        }
        out.append(texts[i].as_str());
        proof {
            let next = v.subrange(0, i + 1);
            if i == 0 {
                assert(out@ =~= next[0]);
            }
        }
        i = i + 1;
    }
    assert(v.subrange(0, v.len() as int) =~= v);
    out
}

/// The translation key of the status line for a phase.
pub open spec fn phase_key(phase: OperationPhase) -> Seq<char> {
    match phase {
        OperationPhase::Idle => "status.ready"@,
        OperationPhase::ScanningDevices => "status.scanning"@,
        OperationPhase::ValidatingIso => "status.validating"@,
        OperationPhase::Formatting => "status.formatting"@,
        OperationPhase::Writing => "status.writing"@,
        OperationPhase::Verifying => "status.verifying_write"@,
        OperationPhase::Completed => "status.completed"@,
        OperationPhase::Cancelled => "status.cancelled"@,
        OperationPhase::Error => "status.error"@,
    }
}

/// The status line shown for a phase, in the given language table.
pub fn phase_text(phase: OperationPhase, t: &Translations) -> (s: String)
    ensures
        s@ == tr(*t, phase_key(phase)),
{
    let key = match phase {
        OperationPhase::Idle => "status.ready",
        OperationPhase::ScanningDevices => "status.scanning",
        OperationPhase::ValidatingIso => "status.validating",
        OperationPhase::Formatting => "status.formatting",
        OperationPhase::Writing => "status.writing",
        OperationPhase::Verifying => "status.verifying_write",
        OperationPhase::Completed => "status.completed",
        OperationPhase::Cancelled => "status.cancelled",
        OperationPhase::Error => "status.error",
    };
    t.get(key)
}

/// The translation key of a boot mode's name.
pub open spec fn boot_mode_key(m: BootMode) -> Seq<char> {
    match m {
        BootMode::BiosLegacy => "boot.bios"@,
        BootMode::Uefi => "boot.uefi"@,
        BootMode::UefiSecureBoot => "boot.uefi_secure"@,
    }
}

/// The translation key of a partition scheme's name.
pub open spec fn partition_key(p: PartitionScheme) -> Seq<char> {
    match p {
        PartitionScheme::Mbr => "partition.mbr"@,
        PartitionScheme::Gpt => "partition.gpt"@,
    }
}

/// The translation key of a file system's name.
pub open spec fn file_system_key(f: FileSystem) -> Seq<char> {
    match f {
        FileSystem::Fat32 => "fs.fat32"@,
        FileSystem::Ntfs => "fs.ntfs"@,
        FileSystem::ExFat => "fs.exfat"@,
    }
}

/// The names the options panel shows for the selected boot mode,
/// partition scheme and file system.
pub fn option_texts(config: &OperationConfig, t: &Translations) -> (names: (String, String, String))
    ensures
        names.0@ == tr(*t, boot_mode_key(config.boot_mode)),
        names.1@ == tr(*t, partition_key(config.partition_scheme)),
        names.2@ == tr(*t, file_system_key(config.file_system)),
{
    let boot = match config.boot_mode {
        BootMode::BiosLegacy => t.get("boot.bios"),
        BootMode::Uefi => t.get("boot.uefi"),
        BootMode::UefiSecureBoot => t.get("boot.uefi_secure"),
    };
    let part = match config.partition_scheme {
        PartitionScheme::Mbr => t.get("partition.mbr"),
        PartitionScheme::Gpt => t.get("partition.gpt"),
    };
    let fs = match config.file_system {
        FileSystem::Fat32 => t.get("fs.fat32"),
        FileSystem::Ntfs => t.get("fs.ntfs"),
        FileSystem::ExFat => t.get("fs.exfat"),
    };
    (boot, part, fs)
}

/// Whether the options panel warns that Secure Boot with MBR is not
/// recommended.
pub fn secure_boot_mbr_warning(config: &OperationConfig) -> (warn: bool)
    ensures
        warn == (config.boot_mode == BootMode::UefiSecureBoot && config.partition_scheme == PartitionScheme::Mbr),
{
    config.boot_mode == BootMode::UefiSecureBoot && config.partition_scheme == PartitionScheme::Mbr
}

/// Whether the dark colours are used: by choice, or by the system's
/// preference when the theme follows the system.
pub fn is_dark_theme(theme: Theme, system_dark: bool) -> (dark: bool)
    ensures
        dark == match theme {
            Theme::Dark => true,
            Theme::Light => false,
            Theme::System => system_dark,
        },
{
    match theme {
        Theme::Dark => true,
        Theme::Light => false,
        Theme::System => system_dark,
    }
}

/// How a log level is named in an exported log (its `Debug` form).
pub open spec fn level_name(level: LogLevel) -> Seq<char> {
    match level {
        LogLevel::Info => "Info"@,
        LogLevel::Warning => "Warning"@,
        LogLevel::Error => "Error"@,
        LogLevel::Success => "Success"@,
        LogLevel::Debug => "Debug"@,
    }
}

/// One line of an exported log: "[time] Level - message".
pub open spec fn export_line(e: LogEntryView) -> Seq<char> {
    "["@ + e.timestamp + "] "@ + level_name(e.level) + " - "@ + e.message
}

/// The log as saved to a file: one line per entry, joined by newlines.
pub open spec fn export_text(entries: Seq<LogEntryView>) -> Seq<char> {
    joined(entries.map_values(|e: LogEntryView| export_line(e)), "\n"@)
}

/// One exported log line.
fn export_line_text(entry: &LogEntry) -> (s: String)
    ensures
        s@ == export_line(entry@),
{
    let level = match entry.level {
        LogLevel::Info => "Info",
        LogLevel::Warning => "Warning",
        LogLevel::Error => "Error",
        LogLevel::Success => "Success",
        LogLevel::Debug => "Debug",
    };
    let a = concat_text("[", entry.timestamp.as_str());
    let b = concat_text(a.as_str(), "] ");
    let c = concat_text(b.as_str(), level);
    let d = concat_text(c.as_str(), " - ");
    concat_text(d.as_str(), entry.message.as_str())
}

/// The log as saved to a file.
pub fn log_export_text(logs: &Vec<LogEntry>) -> (s: String)
    ensures
        s@ == export_text(log_view(logs@)),
{
    let mut lines: Vec<String> = Vec::new();
    let mut i: usize = 0;
    while i < logs.len()
        invariant
            i <= logs@.len(),
            lines@.len() == i,
            forall|j: int| 0 <= j < i ==> #[trigger] lines@[j]@ == export_line(logs@[j]@),
        decreases logs@.len() - i,
    {
        lines.push(export_line_text(&logs[i]));
        i = i + 1;
    }
    let out = join_texts(&lines, "\n");
    assert(lines@.map_values(|t: String| t@) =~= log_view(logs@).map_values(|e: LogEntryView| export_line(e)));
    out
}

/// The count line under the log: "Total logs: N | Filtered: M".
pub fn log_counts_text(total: usize, filtered: usize) -> (s: String)
    ensures
        s@ == "Total logs: "@ + decimal_text(total as nat) + " | Filtered: "@ + decimal_text(filtered as nat),
{
    let t = decimal_string(total as u64);
    let f = decimal_string(filtered as u64);
    let a = concat_text("Total logs: ", t.as_str());
    let b = concat_text(a.as_str(), " | Filtered: ");
    concat_text(b.as_str(), f.as_str())
}

/// The keys a log level's label is looked up by (the debug level has a
/// fixed label).
pub open spec fn level_key(level: LogLevel) -> Option<Seq<char>> {
    match level {
        LogLevel::Info => Some("logs.level.info"@),
        LogLevel::Warning => Some("logs.level.warning"@),
        LogLevel::Error => Some("logs.level.error"@),
        LogLevel::Success => Some("logs.level.success"@),
        LogLevel::Debug => None,
    }
}

/// Every key the panel functions look up (the status line of each phase,
/// the names of each option, the label of each log level) has a text in
/// both languages.
pub proof fn lemma_panel_keys_translated(
    phase: OperationPhase,
    mode: BootMode,
    scheme: PartitionScheme,
    fs: FileSystem,
    level: LogLevel,
)
    ensures
        has_key(english_texts(), phase_key(phase)) && has_key(arabic_texts(), phase_key(phase)),
        has_key(english_texts(), boot_mode_key(mode)) && has_key(arabic_texts(), boot_mode_key(mode)),
        has_key(english_texts(), partition_key(scheme)) && has_key(arabic_texts(), partition_key(scheme)),
        has_key(english_texts(), file_system_key(fs)) && has_key(arabic_texts(), file_system_key(fs)),
        level_key(level) matches Some(k) ==> has_key(english_texts(), k) && has_key(arabic_texts(), k),
{
    let e = english_texts();
    let a = arabic_texts();
    lemma_languages_share_keys();
    match phase {
        OperationPhase::Idle => assert(e[61].0 == phase_key(phase) && a[61].0 == e[61].0),
        OperationPhase::ScanningDevices => assert(e[62].0 == phase_key(phase) && a[62].0 == e[62].0),
        OperationPhase::ValidatingIso => assert(e[63].0 == phase_key(phase) && a[63].0 == e[63].0),
        OperationPhase::Formatting => assert(e[64].0 == phase_key(phase) && a[64].0 == e[64].0),
        OperationPhase::Writing => assert(e[65].0 == phase_key(phase) && a[65].0 == e[65].0),
        OperationPhase::Verifying => assert(e[66].0 == phase_key(phase) && a[66].0 == e[66].0),
        OperationPhase::Completed => assert(e[67].0 == phase_key(phase) && a[67].0 == e[67].0),
        OperationPhase::Cancelled => assert(e[68].0 == phase_key(phase) && a[68].0 == e[68].0),
        OperationPhase::Error => assert(e[69].0 == phase_key(phase) && a[69].0 == e[69].0),
    }
    match mode {
        BootMode::BiosLegacy => assert(e[33].0 == boot_mode_key(mode) && a[33].0 == e[33].0),
        BootMode::Uefi => assert(e[34].0 == boot_mode_key(mode) && a[34].0 == e[34].0),
        BootMode::UefiSecureBoot => assert(e[35].0 == boot_mode_key(mode) && a[35].0 == e[35].0),
    }
    match scheme {
        PartitionScheme::Mbr => assert(e[36].0 == partition_key(scheme) && a[36].0 == e[36].0),
        PartitionScheme::Gpt => assert(e[37].0 == partition_key(scheme) && a[37].0 == e[37].0),
    }
    match fs {
        FileSystem::Fat32 => assert(e[38].0 == file_system_key(fs) && a[38].0 == e[38].0),
        FileSystem::Ntfs => assert(e[39].0 == file_system_key(fs) && a[39].0 == e[39].0),
        FileSystem::ExFat => assert(e[40].0 == file_system_key(fs) && a[40].0 == e[40].0),
    }
    match level {
        LogLevel::Info => assert(e[57].0 == "logs.level.info"@ && a[57].0 == e[57].0),
        LogLevel::Warning => assert(e[58].0 == "logs.level.warning"@ && a[58].0 == e[58].0),
        LogLevel::Error => assert(e[59].0 == "logs.level.error"@ && a[59].0 == e[59].0),
        LogLevel::Success => assert(e[60].0 == "logs.level.success"@ && a[60].0 == e[60].0),
        LogLevel::Debug => {},
    }
}

/// The label a log level is shown with: its translated name, or "DEBUG".
pub open spec fn level_label(level: LogLevel, t: Translations) -> Seq<char> {
    match level_key(level) {
        Some(k) => tr(t, k),
        None => "DEBUG"@,
    }
}

/// The label a log level is shown with.
pub fn log_level_label(level: LogLevel, t: &Translations) -> (s: String)
    ensures
        s@ == level_label(level, *t),
{
    match level {
        LogLevel::Info => t.get("logs.level.info"),
        LogLevel::Warning => t.get("logs.level.warning"),
        LogLevel::Error => t.get("logs.level.error"),
        LogLevel::Success => t.get("logs.level.success"),
        LogLevel::Debug => String::from_str("DEBUG"),
    }
}

/// Whether an entry passes the filter: an empty filter passes everything,
/// otherwise the lower-cased message must contain the lower-cased filter.
pub open spec fn passes_filter(message: Seq<char>, filter: Seq<char>) -> bool {
    contains_bytes(encode_utf8(unicode_lowercase(message)), encode_utf8(unicode_lowercase(filter)))
        || filter.len() == 0
}

impl LogPanelComponent {
    /// An empty filter, following new entries.
    pub fn new() -> (c: Self)
        ensures
            c.filter_text@.len() == 0,
            c.auto_scroll,
    {
        LogPanelComponent { filter_text: String::new(), auto_scroll: true }
    }

    /// The entries the panel shows, in order.
    pub fn filtered_logs(&self, logs: &Vec<LogEntry>) -> (shown: Vec<LogEntry>)
        ensures
            log_view(shown@) == log_view(logs@).filter(
                |e: LogEntryView| passes_filter(e.message, self.filter_text@),
            ),
    {
        let filter_lower = text_to_lowercase(self.filter_text.as_str());
        let empty = self.filter_text.unicode_len() == 0;
        let ghost f = |e: LogEntryView| passes_filter(e.message, self.filter_text@);
        let mut shown: Vec<LogEntry> = Vec::new();
        let mut i: usize = 0;
        while i < logs.len()
            invariant
                i <= logs@.len(),
                filter_lower@ == unicode_lowercase(self.filter_text@),
                empty == (self.filter_text@.len() == 0),
                f == (|e: LogEntryView| passes_filter(e.message, self.filter_text@)),
                log_view(shown@) == log_view(logs@.subrange(0, i as int)).filter(f),
            decreases logs@.len() - i,
        {
            let entry = &logs[i];
            let lower = text_to_lowercase(entry.message.as_str());
            let keep = text_contains(lower.as_str(), filter_lower.as_str()) || empty;
            if keep {
                shown.push(LogEntry {
                    timestamp: entry.timestamp.clone(),
                    level: entry.level,
                    message: entry.message.clone(),
                });
            }
            proof {
                let s = log_view(logs@.subrange(0, i + 1));
                assert(s.drop_last() =~= log_view(logs@.subrange(0, i as int)));
                assert(s.last() == logs@[i as int]@);
                reveal(Seq::filter);
                assert(log_view(shown@) =~= s.filter(f));
            }
            i = i + 1;
        }
        assert(logs@.subrange(0, logs@.len() as int) =~= logs@);
        shown
    }
}

impl AppState {
    /// The position of the selected device in the list, if it is listed.
    pub fn selected_device_index(&self) -> (r: Option<usize>)
        ensures
            match self.config.selected_device {
                None => r is None,
                Some(id) => match r {
                    Some(i) => i < self.devices@.len() && self.devices@[i as int].device_id@ == id@
                        && forall|j: int| 0 <= j < i ==> self.devices@[j].device_id@ != id@,
                    None => forall|j: int| 0 <= j < self.devices@.len() ==> self.devices@[j].device_id@ != id@,
                },
            },
    {
        match &self.config.selected_device {
            None => None,
            Some(id) => {
                let mut i: usize = 0;
                while i < self.devices.len()
                    invariant
                        i <= self.devices@.len(),
                        self.config.selected_device == Some(*id),
                        forall|j: int| 0 <= j < i ==> self.devices@[j].device_id@ != id@,
                    decreases self.devices@.len() - i,
                {
                    if self.devices[i].device_id == *id {
                        return Some(i);
                    }
                    i = i + 1;
                }
                None
            },
        }
    }

    /// The user picks the device at `index` of the list: it becomes the
    /// selected device and the choice is logged by the device's name.
    pub fn select_device(&mut self, index: usize)
        requires
            index < old(self).devices@.len(),
        ensures
            final(self).config == (OperationConfig {
                selected_device: final(self).config.selected_device,
                ..old(self).config
            }),
            final(self).config.selected_device matches Some(id) && id@ == old(self).devices@[index as int].device_id@,
            log_extended(
                old(self).logs@,
                final(self).logs@,
                LogLevel::Info,
                "Selected device: "@ + old(self).devices@[index as int].friendly_name@,
            ),
            final(self).devices == old(self).devices,
            final(self).progress == old(self).progress,
            final(self).is_running == old(self).is_running,
            final(self).iso_info == old(self).iso_info,
    {
        let id = self.devices[index].device_id.clone();
        let msg = concat_text("Selected device: ", self.devices[index].friendly_name.as_str());
        self.config.selected_device = Some(id);
        self.add_log(LogLevel::Info, msg.as_str());
    }

    /// The user picks an image file: refused while an operation runs;
    /// otherwise it becomes the selected image and the choice is logged.
    /// Returns whether it was taken.
    pub fn choose_iso(&mut self, path: &str) -> (taken: bool)
        ensures
            taken == !old(self).is_running,
            !taken ==> *final(self) == *old(self),
            taken ==> {
                &&& final(self).config == (OperationConfig { iso_path: final(self).config.iso_path, ..old(self).config })
                &&& final(self).config.iso_path matches Some(p) && p@ == path@
                &&& log_extended(old(self).logs@, final(self).logs@, LogLevel::Info, "Selected ISO: "@ + path@)
                &&& final(self).devices == old(self).devices
                &&& final(self).is_running == old(self).is_running
            },
    {
        if self.is_running {
            return false;
        }
        self.config.iso_path = Some(String::from_str(path));
        let msg = concat_text("Selected ISO: ", path);
        self.add_log(LogLevel::Info, msg.as_str());
        true
    }

    /// The start button: when the state is ready and nothing runs, the
    /// operation is marked running and logged. Returns whether it started.
    pub fn press_start(&mut self) -> (started: bool)
        ensures
            started == (old(self).config.selected_device is Some && old(self).config.iso_path is Some
                && !old(self).is_running),
            !started ==> *final(self) == *old(self),
            started ==> {
                &&& log_extended(old(self).logs@, final(self).logs@, LogLevel::Info, "Starting write operation..."@)
                &&& same_but_logs(AppState { is_running: true, ..*old(self) }, *final(self))
            },
    {
        let ready = self.is_ready();
        if ready && !self.is_running {
            self.is_running = true;
            self.add_log(LogLevel::Info, "Starting write operation...");
            true
        } else {
            false
        }
    }

    /// The cancel button: while an operation runs, cancellation is
    /// requested. Returns whether it was.
    pub fn press_cancel(&mut self) -> (requested: bool)
        ensures
            requested == old(self).is_running,
            !requested ==> *final(self) == *old(self),
            requested ==> {
                &&& log_extended(old(self).logs@, final(self).logs@, LogLevel::Warning, "Cancellation requested by user"@)
                &&& same_but_logs(AppState { cancel_requested: true, ..*old(self) }, *final(self))
            },
    {
        if self.is_running {
            self.request_cancel();
            true
        } else {
            false
        }
    }

    /// The status overview: the selected device and image ("Not selected"
    /// when missing), whether the state is ready ("✓ Yes" / "✗ No") and
    /// whether an operation runs ("Yes" / "No").
    pub fn status_overview(&self) -> (lines: (String, String, String, String))
        ensures
            lines.0@ == match self.config.selected_device {
                Some(d) => d@,
                None => "Not selected"@,
            },
            lines.1@ == match self.config.iso_path {
                Some(p) => p@,
                None => "Not selected"@,
            },
            lines.2@ == yes_no_mark(
                self.config.selected_device is Some && self.config.iso_path is Some && !self.is_running,
            ),
            lines.3@ == (if self.is_running {
                "Yes"@
            } else {
                "No"@
            }),
    {
        let device = match &self.config.selected_device {
            Some(d) => d.clone(),
            None => String::from_str("Not selected"),
        };
        let iso = match &self.config.iso_path {
            Some(p) => p.clone(),
            None => String::from_str("Not selected"),
        };
        let ready = yes_no_text(self.is_ready());
        let running = if self.is_running {
            String::from_str("Yes")
        } else {
            String::from_str("No")
        };
        (device, iso, ready, running)
    }
}

} // verus!
