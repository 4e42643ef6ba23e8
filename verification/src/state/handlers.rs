//! The state changes the background worker and the user interface make in
//! answer to commands, results and events. The worker performs the device
//! and file work; these functions decide what the application state
//! becomes and which event to report.

use vstd::prelude::*;
use vstd::string::StringExecFns;
use crate::disk::device::{copy_devices, devices_view, mib_digits, mib_text, UsbDevice, UsbDeviceView};
use crate::iso::parser::{IsoInfo, IsoInfoView};
use crate::state::app_state::{
    log_after_add, log_extended, log_view, same_but_logs, AppState, BootMode, FileSystem, LogEntry, LogLevel,
    OperationPhase, PartitionScheme, ProgressInfo,
};
use crate::state::events::{hash_type_name, HashType, UiEvent};
use crate::utils::text::{ascii_text, concat_text, decimal_string, decimal_text};

verus! {

/// What a write needs from the state: the device, the image and the options.
pub struct WriteJob {
    pub device_id: String,
    pub iso_path: String,
    pub boot_mode: BootMode,
    pub partition_scheme: PartitionScheme,
    pub file_system: FileSystem,
}

/// The state with a new phase, all else as in `s`.
pub open spec fn with_phase(s: AppState, phase: OperationPhase) -> AppState {
    AppState { progress: ProgressInfo { phase, ..s.progress }, ..s }
}

/// The devices whose id differs from `id`, in order.
pub open spec fn devices_without(devices: Seq<UsbDeviceView>, id: Seq<char>) -> Seq<UsbDeviceView> {
    devices.filter(|d: UsbDeviceView| d.device_id != id)
}

/// `a` followed by `b` followed by `c`.
fn concat3(a: &str, b: &str, c: &str) -> (s: String)
    ensures
        s@ == a@ + b@ + c@,
{
    let ab = concat_text(a, b);
    concat_text(ab.as_str(), c)
}

/// The devices whose id differs from `id`, in order (what `retain` keeps).
pub fn devices_without_id(devices: &Vec<UsbDevice>, id: &str) -> (kept: Vec<UsbDevice>)
    ensures
        devices_view(kept@) == devices_without(devices_view(devices@), id@),
{
    let mut kept: Vec<UsbDevice> = Vec::new();
    let mut i: usize = 0;
    let target = String::from_str(id);
    while i < devices.len()
        invariant
            i <= devices@.len(),
            target@ == id@,
            devices_view(kept@) == devices_without(devices_view(devices@.subrange(0, i as int)), id@),
        decreases devices@.len() - i,
    {
        let keep = devices[i].device_id != target;
        if keep {
            kept.push(devices[i].duplicate());
        }
        proof {
            let s = devices_view(devices@.subrange(0, i + 1));
            assert(s.drop_last() =~= devices_view(devices@.subrange(0, i as int)));
            assert(s.last() == devices@[i as int]@);
            reveal(Seq::filter);
            assert(devices_view(kept@) =~= devices_without(s, id@));
        }
        i = i + 1;
    }
    assert(devices@.subrange(0, devices@.len() as int) =~= devices@);
    kept
}

impl AppState {
    /// A device scan starts.
    pub fn begin_device_scan(&mut self)
        ensures
            log_extended(old(self).logs@, final(self).logs@, LogLevel::Info, "Scanning for USB devices..."@),
            same_but_logs(with_phase(*old(self), OperationPhase::ScanningDevices), *final(self)),
    {
        self.progress.phase = OperationPhase::ScanningDevices;
        self.add_log(LogLevel::Info, "Scanning for USB devices...");
    }

    /// A device scan ended with the devices found or the enumeration error.
    /// Returns the event for the user interface.
    pub fn finish_device_scan(&mut self, result: Result<Vec<UsbDevice>, String>) -> (event: UiEvent)
        ensures
            match result {
                Ok(devices) => {
                    &&& devices_view(final(self).devices@) == devices_view(devices@)
                    &&& final(self).progress.phase == OperationPhase::Idle
                    &&& log_extended(
                        old(self).logs@,
                        final(self).logs@,
                        LogLevel::Success,
                        "Found "@ + decimal_text(devices@.len()) + " USB device(s)"@,
                    )
                    &&& event matches UiEvent::DevicesUpdated(d) && devices_view(d@) == devices_view(devices@)
                },
                Err(e) => {
                    &&& final(self).devices == old(self).devices
                    &&& final(self).progress.phase == OperationPhase::Error
                    &&& log_extended(old(self).logs@, final(self).logs@, LogLevel::Error, "Device enumeration failed: "@ + e@)
                    &&& event matches UiEvent::Error(m) && m@ == e@
                },
            },
            final(self).config == old(self).config,
            final(self).is_running == old(self).is_running,
            final(self).iso_info == old(self).iso_info,
            final(self).cancel_requested == old(self).cancel_requested,
    {
        match result {
            Ok(devices) => {
                self.devices = copy_devices(&devices);
                self.progress.phase = OperationPhase::Idle;
                let count = decimal_string(devices.len() as u64);
                let msg = concat3("Found ", count.as_str(), " USB device(s)");
                self.add_log(LogLevel::Success, msg.as_str());
                UiEvent::DevicesUpdated(devices)
            },
            Err(e) => {
                self.progress.phase = OperationPhase::Error;
                let msg = concat_text("Device enumeration failed: ", e.as_str());
                self.add_log(LogLevel::Error, msg.as_str());
                UiEvent::Error(e)
            },
        }
    }

    /// Image analysis starts for `path`.
    pub fn begin_iso_validation(&mut self, path: &str)
        ensures
            log_extended(old(self).logs@, final(self).logs@, LogLevel::Info, "Analyzing ISO: "@ + path@),
            same_but_logs(with_phase(*old(self), OperationPhase::ValidatingIso), *final(self)),
    {
        self.progress.phase = OperationPhase::ValidatingIso;
        let msg = concat_text("Analyzing ISO: ", path);
        self.add_log(LogLevel::Info, msg.as_str());
    }

    /// Image analysis of `path` ended with the image's information or the
    /// error. Returns the event for the user interface.
    pub fn finish_iso_validation(&mut self, path: String, result: Result<IsoInfo, String>) -> (event: UiEvent)
        ensures
            match result {
                Ok(info) => {
                    &&& final(self).iso_info matches Some(i) && i@ == info@
                    &&& final(self).config.iso_path matches Some(p) && p@ == path@
                    &&& final(self).progress.phase == OperationPhase::Idle
                    &&& log_extended(
                        old(self).logs@,
                        final(self).logs@,
                        LogLevel::Success,
                        "ISO validated: "@ + info.label@ + " ("@ + ascii_text(mib_digits(info.size as nat)) + " MB)"@,
                    )
                    &&& event matches UiEvent::IsoValidated(i) && i@ == info@
                },
                Err(e) => {
                    &&& final(self).iso_info == old(self).iso_info
                    &&& final(self).config == old(self).config
                    &&& final(self).progress.phase == OperationPhase::Error
                    &&& log_extended(old(self).logs@, final(self).logs@, LogLevel::Error, "ISO validation failed: "@ + e@)
                    &&& event matches UiEvent::Error(m) && m@ == e@
                },
            },
            final(self).devices == old(self).devices,
            final(self).is_running == old(self).is_running,
            final(self).cancel_requested == old(self).cancel_requested,
    {
        match result {
            Ok(info) => {
                self.iso_info = Some(info.duplicate());
                self.config.iso_path = Some(path);
                self.progress.phase = OperationPhase::Idle;
                let size = mib_text(info.size);
                let head = concat3("ISO validated: ", info.label.as_str(), " (");
                let msg = concat3(head.as_str(), size.as_str(), " MB)");
                self.add_log(LogLevel::Success, msg.as_str());
                UiEvent::IsoValidated(info)
            },
            Err(e) => {
                self.progress.phase = OperationPhase::Error;
                let msg = concat_text("ISO validation failed: ", e.as_str());
                self.add_log(LogLevel::Error, msg.as_str());
                UiEvent::Error(e)
            },
        }
    }

    /// A write is requested. Without a selected device and image it is
    /// refused with an error entry; otherwise the operation is marked
    /// running and the job is returned.
    pub fn begin_write(&mut self) -> (job: Option<WriteJob>)
        ensures
            match (old(self).config.selected_device, old(self).config.iso_path) {
                (Some(d), Some(p)) => {
                    &&& job matches Some(j) && j.device_id@ == d@ && j.iso_path@ == p@
                        && j.boot_mode == old(self).config.boot_mode
                        && j.partition_scheme == old(self).config.partition_scheme
                        && j.file_system == old(self).config.file_system
                    &&& log_extended(old(self).logs@, final(self).logs@, LogLevel::Info, "Starting write to device: "@ + d@)
                    &&& same_but_logs(
                        AppState { is_running: true, ..with_phase(*old(self), OperationPhase::Writing) },
                        *final(self),
                    )
                },
                _ => {
                    &&& job is None
                    &&& log_extended(old(self).logs@, final(self).logs@, LogLevel::Error, "Device or ISO not selected"@)
                    &&& same_but_logs(*old(self), *final(self))
                },
            },
    {
        let (device_id, iso_path) = match (&self.config.selected_device, &self.config.iso_path) {
            (Some(d), Some(p)) => (d.clone(), p.clone()),
            _ => {
                self.add_log(LogLevel::Error, "Device or ISO not selected");
                return None;
            },
        };
        self.is_running = true;
        self.progress.phase = OperationPhase::Writing;
        let msg = concat_text("Starting write to device: ", device_id.as_str());
        self.add_log(LogLevel::Info, msg.as_str());
        Some(WriteJob {
            device_id,
            iso_path,
            boot_mode: self.config.boot_mode,
            partition_scheme: self.config.partition_scheme,
            file_system: self.config.file_system,
        })
    }

    /// A write ended, successfully or with an error. The operation is no
    /// longer running either way. Returns the event for the user interface.
    pub fn finish_write(&mut self, result: Result<(), String>) -> (event: UiEvent)
        ensures
            match result {
                Ok(_) => {
                    &&& log_extended(old(self).logs@, final(self).logs@, LogLevel::Success, "Write completed successfully!"@)
                    &&& same_but_logs(
                        AppState { is_running: false, ..with_phase(*old(self), OperationPhase::Completed) },
                        *final(self),
                    )
                    &&& event is OperationCompleted
                },
                Err(e) => {
                    &&& log_extended(old(self).logs@, final(self).logs@, LogLevel::Error, "Write failed: "@ + e@)
                    &&& same_but_logs(
                        AppState { is_running: false, ..with_phase(*old(self), OperationPhase::Error) },
                        *final(self),
                    )
                    &&& event matches UiEvent::Error(m) && m@ == e@
                },
            },
    {
        self.is_running = false;
        match result {
            Ok(_) => {
                self.progress.phase = OperationPhase::Completed;
                self.add_log(LogLevel::Success, "Write completed successfully!");
                UiEvent::OperationCompleted
            },
            Err(e) => {
                self.progress.phase = OperationPhase::Error;
                let msg = concat_text("Write failed: ", e.as_str());
                self.add_log(LogLevel::Error, msg.as_str());
                UiEvent::Error(e)
            },
        }
    }

    /// The worker saw the cancellation flag: the operation stops.
    pub fn apply_cancellation(&mut self) -> (event: UiEvent)
        ensures
            log_extended(old(self).logs@, final(self).logs@, LogLevel::Warning, "Operation cancelled"@),
            same_but_logs(
                AppState { is_running: false, ..with_phase(*old(self), OperationPhase::Cancelled) },
                *final(self),
            ),
            event is OperationCancelled,
    {
        self.is_running = false;
        self.progress.phase = OperationPhase::Cancelled;
        self.add_log(LogLevel::Warning, "Operation cancelled");
        UiEvent::OperationCancelled
    }

    /// A hash computation of the selected image is requested. Returns the
    /// image path when one is selected (nothing happens otherwise).
    pub fn begin_hash_verification(&mut self, hash_type: HashType) -> (path: Option<String>)
        ensures
            match old(self).config.iso_path {
                Some(p) => {
                    &&& path matches Some(q) && q@ == p@
                    &&& log_extended(
                        old(self).logs@,
                        final(self).logs@,
                        LogLevel::Info,
                        "Starting "@ + hash_type_name(hash_type) + " verification..."@,
                    )
                    &&& same_but_logs(*old(self), *final(self))
                },
                None => path is None && *final(self) == *old(self),
            },
    {
        match &self.config.iso_path {
            Some(p) => {
                let path = p.clone();
                let name = hash_type.to_string();
                let msg = concat3("Starting ", name.as_str(), " verification...");
                self.add_log(LogLevel::Info, msg.as_str());
                Some(path)
            },
            None => None,
        }
    }

    /// A hash computation ended with the hash or the error.
    pub fn finish_hash_verification(&mut self, hash_type: HashType, result: Result<String, String>)
        ensures
            match result {
                Ok(h) => log_extended(
                    old(self).logs@,
                    final(self).logs@,
                    LogLevel::Success,
                    "ISO "@ + hash_type_name(hash_type) + " hash: "@ + h@,
                ),
                Err(e) => log_extended(old(self).logs@, final(self).logs@, LogLevel::Error, "Hash verification failed: "@ + e@),
            },
            same_but_logs(*old(self), *final(self)),
    {
        match result {
            Ok(h) => {
                let name = hash_type.to_string();
                let head = concat3("ISO ", name.as_str(), " hash: ");
                let msg = concat_text(head.as_str(), h.as_str());
                self.add_log(LogLevel::Success, msg.as_str());
            },
            Err(e) => {
                let msg = concat_text("Hash verification failed: ", e.as_str());
                self.add_log(LogLevel::Error, msg.as_str());
            },
        }
    }

    /// The format command: with a selected device, two log entries.
    pub fn format_selected_device(&mut self)
        ensures
            match old(self).config.selected_device {
                Some(d) => exists|mid: Seq<LogEntry>| {
                    &&& log_extended(old(self).logs@, mid, LogLevel::Info, "Formatting device: "@ + d@)
                    &&& log_extended(mid, final(self).logs@, LogLevel::Success, "Format completed"@)
                },
                None => *final(self) == *old(self),
            },
            same_but_logs(*old(self), *final(self)),
    {
        match &self.config.selected_device {
            Some(id) => {
                let msg = concat_text("Formatting device: ", id.as_str());
                self.add_log(LogLevel::Info, msg.as_str());
                let ghost mid = self.logs@;
                self.add_log(LogLevel::Success, "Format completed");
                assert(log_extended(mid, self.logs@, LogLevel::Success, "Format completed"@));
            },
            None => {},
        }
    }
}


impl AppState {
    /// Applies an event from the worker to the state the user interface
    /// shows. Returns the message to show in an error dialog, for an error
    /// event.
    pub fn apply_ui_event(&mut self, event: UiEvent) -> (shown: Option<String>)
        ensures
            match event {
                UiEvent::DevicesUpdated(devices) => {
                    &&& devices_view(final(self).devices@) == devices_view(devices@)
                    &&& log_extended(
                        old(self).logs@,
                        final(self).logs@,
                        LogLevel::Success,
                        "Devices updated: "@ + decimal_text(devices@.len()) + " found"@,
                    )
                    &&& same_but_logs(AppState { devices: final(self).devices, ..*old(self) }, *final(self))
                    &&& shown is None
                },
                UiEvent::IsoValidated(info) => {
                    &&& final(self).iso_info matches Some(i) && i@ == info@
                    &&& log_extended(
                        old(self).logs@,
                        final(self).logs@,
                        LogLevel::Info,
                        "ISO validated: "@ + info.label@ + " ("@ + decimal_text(info.size as nat / 0x10_0000) + " MB)"@,
                    )
                    &&& same_but_logs(AppState { iso_info: final(self).iso_info, ..*old(self) }, *final(self))
                    &&& shown is None
                },
                UiEvent::ProgressUpdated(progress) => {
                    *final(self) == (AppState { progress, ..*old(self) }) && shown is None
                },
                UiEvent::LogMessage(entry) => {
                    &&& log_view(final(self).logs@) == log_after_add(log_view(old(self).logs@), entry@)
                    &&& same_but_logs(*old(self), *final(self))
                    &&& shown is None
                },
                UiEvent::OperationCompleted => {
                    &&& log_extended(old(self).logs@, final(self).logs@, LogLevel::Success, "Operation completed successfully!"@)
                    &&& same_but_logs(
                        AppState { is_running: false, ..with_phase(*old(self), OperationPhase::Completed) },
                        *final(self),
                    )
                    &&& shown is None
                },
                UiEvent::OperationCancelled => {
                    &&& log_extended(old(self).logs@, final(self).logs@, LogLevel::Warning, "Operation was cancelled"@)
                    &&& same_but_logs(
                        AppState { is_running: false, ..with_phase(*old(self), OperationPhase::Cancelled) },
                        *final(self),
                    )
                    &&& shown is None
                },
                UiEvent::Error(msg) => {
                    &&& log_extended(old(self).logs@, final(self).logs@, LogLevel::Error, msg@)
                    &&& final(self).error_message matches Some(m) && m@ == msg@
                    &&& same_but_logs(
                        AppState {
                            is_running: false,
                            error_message: final(self).error_message,
                            ..with_phase(*old(self), OperationPhase::Error)
                        },
                        *final(self),
                    )
                    &&& shown matches Some(m) && m@ == msg@
                },
                UiEvent::DeviceRemoved(id) => {
                    &&& devices_view(final(self).devices@) == devices_without(devices_view(old(self).devices@), id@)
                    &&& (match old(self).config.selected_device {
                        Some(sel) => if sel@ == id@ {
                            final(self).config == (crate::state::app_state::OperationConfig { selected_device: None, ..old(self).config })
                        } else {
                            final(self).config == old(self).config
                        },
                        None => final(self).config == old(self).config,
                    })
                    &&& log_extended(old(self).logs@, final(self).logs@, LogLevel::Warning, "Device removed: "@ + id@)
                    &&& same_but_logs(
                        AppState { devices: final(self).devices, config: final(self).config, ..*old(self) },
                        *final(self),
                    )
                    &&& shown is None
                },
                UiEvent::DeviceAdded(device) => {
                    &&& devices_view(final(self).devices@) == devices_view(old(self).devices@).push(device@)
                    &&& log_extended(old(self).logs@, final(self).logs@, LogLevel::Info, "Device added: "@ + device.friendly_name@)
                    &&& same_but_logs(AppState { devices: final(self).devices, ..*old(self) }, *final(self))
                    &&& shown is None
                },
            },
    {
        match event {
            UiEvent::DevicesUpdated(devices) => {
                self.devices = devices;
                let count = decimal_string(self.devices.len() as u64);
                let msg = concat3("Devices updated: ", count.as_str(), " found");
                self.add_log(LogLevel::Success, msg.as_str());
                None
            },
            UiEvent::IsoValidated(iso_info) => {
                self.iso_info = Some(iso_info.duplicate());
                let mb = decimal_string(iso_info.size / 1024 / 1024);
                let head = concat3("ISO validated: ", iso_info.label.as_str(), " (");
                let msg = concat3(head.as_str(), mb.as_str(), " MB)");
                self.add_log(LogLevel::Info, msg.as_str());
                None
            },
            UiEvent::ProgressUpdated(progress) => {
                self.progress = progress;
                None
            },
            UiEvent::LogMessage(log_entry) => {
                self.push_log(log_entry);
                None
            },
            UiEvent::OperationCompleted => {
                self.is_running = false;
                self.progress.phase = OperationPhase::Completed;
                self.add_log(LogLevel::Success, "Operation completed successfully!");
                None
            },
            UiEvent::OperationCancelled => {
                self.is_running = false;
                self.progress.phase = OperationPhase::Cancelled;
                self.add_log(LogLevel::Warning, "Operation was cancelled");
                None
            },
            UiEvent::Error(msg) => {
                self.is_running = false;
                self.progress.phase = OperationPhase::Error;
                self.error_message = Some(msg.clone());
                self.add_log(LogLevel::Error, msg.as_str());
                Some(msg)
            },
            UiEvent::DeviceRemoved(device_id) => {
                self.devices = devices_without_id(&self.devices, device_id.as_str());
                let clear = match &self.config.selected_device {
                    Some(sel) => *sel == device_id,
                    None => false,
                };
                if clear {
                    self.config.selected_device = None;
                }
                let msg = concat_text("Device removed: ", device_id.as_str());
                self.add_log(LogLevel::Warning, msg.as_str());
                None
            },
            UiEvent::DeviceAdded(device) => {
                let msg = concat_text("Device added: ", device.friendly_name.as_str());
                self.devices.push(device);
                self.add_log(LogLevel::Info, msg.as_str());
                proof {
                    assert(devices_view(self.devices@) =~= devices_view(old(self).devices@).push(device@));
                }
                None
            },
        }
    }
}

} // verus!
