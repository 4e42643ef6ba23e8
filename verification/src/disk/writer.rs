//! Writing an image to a USB device: the inputs a write needs, the path the
//! device is opened by, the stages a write goes through with the progress
//! shown for each, and the decisions taken while the image data is copied
//! and read back. The device and file work itself is done by the caller.

use std::sync::atomic::AtomicBool;
use std::sync::Arc;
use vstd::prelude::*;
use vstd::string::StringExecFns;
use crate::state::app_state::{
    log_extended, AppState, BootMode, FileSystem, LogLevel, OperationPhase, PartitionScheme,
    ProgressInfo,
};
use crate::state::events::UiEvent;
use crate::utils::cancel::flag_is_set;
use crate::utils::text::{concat_text, decimal_string, decimal_text};

verus! {

/// Size of the buffer the image is copied through: 4 MiB.
pub const WRITE_BUFFER_SIZE: usize = 4194304;

/// A text as `{:?}` writes it: in double quotes, with quotes, backslashes
/// and non-printable characters escaped (by Unicode tables, so named).
pub uninterp spec fn debug_text(s: Seq<char>) -> Seq<char>;

/// `format!("{:?}", s)` for a `str`: the quoted, escaped form of the text,
/// which is also how a path holding that text is shown.
#[verifier::external_body]
fn debug_quoted(s: &str) -> (q: String)
    ensures
        q@ == debug_text(s@),
{
    format!("{:?}", s)
}

/// The message of a write refused because the image file is missing.
pub open spec fn iso_missing_text(iso_path: Seq<char>) -> Seq<char> {
    "ISO file does not exist: "@ + debug_text(iso_path)
}

/// Disk writer for creating bootable USB drives.
pub struct DiskWriter {
    pub device_id: String,
    pub iso_path: String,
    pub boot_mode: BootMode,
    pub partition_scheme: PartitionScheme,
    pub file_system: FileSystem,
    pub cancel_flag: Arc<AtomicBool>,
    pub buffer_size: usize,
}

/// The prefix of a Win32 device namespace path, `\\.\`.
pub open spec fn device_namespace() -> Seq<char> {
    seq!['\\', '\\', '.', '\\']
}

/// The path a device is opened by: its id when that already starts with
/// `\\.\`, otherwise the id behind that prefix.
pub open spec fn device_path_of(id: Seq<char>) -> Seq<char> {
    if id.len() >= 4 && id.subrange(0, 4) == device_namespace() {
        id
    } else {
        device_namespace() + id
    }
}

/// The stages of a write, in order; verification only when enabled.
#[derive(Debug, Clone, Copy, PartialEq, Eq, Structural)]
pub enum WriteStage {
    PartitionTable,
    Formatting,
    WritingData,
    Bootloader,
    Verifying,
}

/// The progress (a percentage, as the bits of an `f32`) shown when a stage
/// starts: 0, 5, 10, 95 and 97.
pub open spec fn stage_percent_bits(stage: WriteStage) -> u32 {
    match stage {
        WriteStage::PartitionTable => 0x0000_0000,
        WriteStage::Formatting => 0x40A0_0000,
        WriteStage::WritingData => 0x4120_0000,
        WriteStage::Bootloader => 0x42BE_0000,
        WriteStage::Verifying => 0x42C2_0000,
    }
}

/// The text shown when a stage starts.
pub open spec fn stage_text(stage: WriteStage) -> Seq<char> {
    match stage {
        WriteStage::PartitionTable => "Creating partition table..."@,
        WriteStage::Formatting => "Formatting device..."@,
        WriteStage::WritingData => "Writing ISO data..."@,
        WriteStage::Bootloader => "Installing bootloader..."@,
        WriteStage::Verifying => "Verifying write..."@,
    }
}

/// The bits of the `f32` 100.0, the progress shown when a write completes.
pub open spec fn complete_percent_bits() -> u32 {
    0x42C8_0000
}

/// The stages a write goes through, in order.
pub open spec fn write_stages(verify_enabled: bool) -> Seq<WriteStage> {
    let base = seq![
        WriteStage::PartitionTable,
        WriteStage::Formatting,
        WriteStage::WritingData,
        WriteStage::Bootloader,
    ];
    if verify_enabled {
        base.push(WriteStage::Verifying)
    } else {
        base
    }
}

impl WriteStage {
    /// The progress shown when the stage starts, as the bits of an `f32`.
    pub fn percent_bits(&self) -> (bits: u32)
        ensures
            bits == stage_percent_bits(*self),
    {
        match self {
            WriteStage::PartitionTable => 0x0000_0000,
            WriteStage::Formatting => 0x40A0_0000,
            WriteStage::WritingData => 0x4120_0000,
            WriteStage::Bootloader => 0x42BE_0000,
            WriteStage::Verifying => 0x42C2_0000,
        }
    }

    /// The text shown when the stage starts.
    pub fn text(&self) -> (s: String)
        ensures
            s@ == stage_text(*self),
    {
        match self {
            WriteStage::PartitionTable => String::from_str("Creating partition table..."),
            WriteStage::Formatting => String::from_str("Formatting device..."),
            WriteStage::WritingData => String::from_str("Writing ISO data..."),
            WriteStage::Bootloader => String::from_str("Installing bootloader..."),
            WriteStage::Verifying => String::from_str("Verifying write..."),
        }
    }
}

/// The stages a write goes through, in order.
pub fn stages_for(verify_enabled: bool) -> (stages: Vec<WriteStage>)
    ensures
        stages@ == write_stages(verify_enabled),
{
    let mut stages: Vec<WriteStage> = Vec::new();
    stages.push(WriteStage::PartitionTable);
    stages.push(WriteStage::Formatting);
    stages.push(WriteStage::WritingData);
    stages.push(WriteStage::Bootloader);
    if verify_enabled {
        stages.push(WriteStage::Verifying);
    }
    assert(stages@ =~= write_stages(verify_enabled));
    stages
}

impl DiskWriter {
    /// A writer for the given device, image and options, copying through a
    /// 4 MiB buffer.
    pub fn new(
        device_id: String,
        iso_path: String,
        boot_mode: BootMode,
        partition_scheme: PartitionScheme,
        file_system: FileSystem,
        cancel_flag: Arc<AtomicBool>,
    ) -> (w: Self)
        ensures
            w.device_id@ == device_id@,
            w.iso_path@ == iso_path@,
            w.boot_mode == boot_mode,
            w.partition_scheme == partition_scheme,
            w.file_system == file_system,
            w.cancel_flag == cancel_flag,
            w.buffer_size == WRITE_BUFFER_SIZE,
    {
        DiskWriter {
            device_id,
            iso_path,
            boot_mode,
            partition_scheme,
            file_system,
            cancel_flag,
            buffer_size: WRITE_BUFFER_SIZE,
        }
    }

    /// Checks the inputs of a write: the image must exist (`iso_exists`
    /// says whether it does), then a device must be selected.
    pub fn validate_inputs(&self, iso_exists: bool) -> (r: Result<(), String>)
        ensures
            !iso_exists ==> (r matches Err(m) && m@ == iso_missing_text(self.iso_path@)),
            iso_exists && self.device_id@.len() == 0 ==> (r matches Err(m) && m@ == "No device selected"@),
            iso_exists && self.device_id@.len() > 0 ==> r is Ok,
    {
        if !iso_exists {
            let q = debug_quoted(self.iso_path.as_str());
            return Err(concat_text("ISO file does not exist: ", q.as_str()));
        }
        if self.device_id.unicode_len() == 0 {
            return Err(String::from_str("No device selected"));
        }
        Ok(())
    }

    /// The path the device is opened by, for writing and for reading back.
    pub fn device_path(&self) -> (p: String)
        ensures
            p@ == device_path_of(self.device_id@),
    {
        let id = self.device_id.as_str();
        let n = id.unicode_len();
        let prefixed = n >= 4 && id.get_char(0) == '\\' && id.get_char(1) == '\\' && id.get_char(2) == '.'
            && id.get_char(3) == '\\';
        if prefixed {
            assert(id@.subrange(0, 4) =~= device_namespace());
            String::from_str(id)
        } else {
            proof {
                if n >= 4 {
                    assert(id@.subrange(0, 4)[0] == id@[0]);
                    assert(id@.subrange(0, 4)[1] == id@[1]);
                    assert(id@.subrange(0, 4)[2] == id@[2]);
                    assert(id@.subrange(0, 4)[3] == id@[3]);
                    assert(id@.subrange(0, 4) != device_namespace());
                }
                reveal_strlit("\\\\.\\");
            }
            let p = concat_text("\\\\.\\", id);
            assert(p@ =~= device_path_of(self.device_id@));
            p
        }
    }

    /// Whether cancellation has been requested, as the flag reads now.
    pub fn is_cancelled(&self) -> bool {
        flag_is_set(&*self.cancel_flag)
    }
}

/// The running count of bytes copied from the image to the device.
pub struct DataCopy {
    pub bytes_written: u64,
    pub total_size: u64,
}

/// The message a copy or read-back stops with when it is cancelled.
pub open spec fn copy_cancelled_text() -> Seq<char> {
    "Operation cancelled by user"@
}

impl DataCopy {
    /// A copy of an image of `total_size` bytes, nothing written yet.
    pub fn new(total_size: u64) -> (c: Self)
        ensures
            c.bytes_written == 0,
            c.total_size == total_size,
    {
        DataCopy { bytes_written: 0, total_size }
    }

    /// Before each read: a requested cancellation stops the copy.
    pub fn check_cancel(&self, cancelled: bool) -> (r: Result<(), String>)
        ensures
            cancelled <==> r is Err,
            r matches Err(m) ==> m@ == copy_cancelled_text(),
    {
        if cancelled {
            Err(String::from_str("Operation cancelled by user"))
        } else {
            Ok(())
        }
    }

    /// After a read of `bytes_read` bytes from the image: a read of nothing
    /// ends the copy (returns `true`); otherwise the bytes are counted once
    /// the caller has written them.
    pub fn record_read(&mut self, bytes_read: usize) -> (done: bool)
        requires
            old(self).bytes_written + bytes_read <= u64::MAX,
        ensures
            done <==> bytes_read == 0,
            final(self).bytes_written == old(self).bytes_written + bytes_read,
            final(self).total_size == old(self).total_size,
    {
        if bytes_read == 0 {
            return true;
        }
        self.bytes_written = self.bytes_written + bytes_read as u64;
        false
    }
}

/// How a chunk read back from the device compares with the image chunk.
#[derive(Debug, Clone, Copy, PartialEq, Eq, Structural)]
pub enum ChunkCheck {
    /// Same length and same bytes.
    Agree,
    /// The device gave a different number of bytes.
    SizeMismatch,
    /// Same number of bytes, different contents.
    DataMismatch,
}

/// Compares an image chunk with the chunk read back from the device.
pub fn check_chunk(image: &[u8], device: &[u8]) -> (c: ChunkCheck)
    ensures
        image@.len() != device@.len() ==> c == ChunkCheck::SizeMismatch,
        image@.len() == device@.len() && image@ != device@ ==> c == ChunkCheck::DataMismatch,
        image@ == device@ ==> c == ChunkCheck::Agree,
{
    if image.len() != device.len() {
        return ChunkCheck::SizeMismatch;
    }
    let mut i: usize = 0;
    while i < image.len()
        invariant
            image@.len() == device@.len(),
            i <= image@.len(),
            forall|j: int| 0 <= j < i ==> image@[j] == device@[j],
        decreases image@.len() - i,
    {
        if image[i] != device[i] {
            return ChunkCheck::DataMismatch;
        }
        i = i + 1;
    }
    assert(image@ =~= device@);
    ChunkCheck::Agree
}

/// The running count of bytes read back from the device and found equal to
/// the image.
pub struct WriteCheck {
    pub bytes_verified: u64,
}

impl WriteCheck {
    /// Nothing verified yet.
    pub fn new() -> (c: Self)
        ensures
            c.bytes_verified == 0,
    {
        WriteCheck { bytes_verified: 0 }
    }

    /// Before each read: a requested cancellation stops the read-back.
    pub fn check_cancel(&self, cancelled: bool) -> (r: Result<(), String>)
        ensures
            cancelled <==> r is Err,
            r matches Err(m) ==> m@ == "Verification cancelled"@,
    {
        if cancelled {
            Err(String::from_str("Verification cancelled"))
        } else {
            Ok(())
        }
    }

    /// After reading a chunk of the image and the same span of the device.
    /// An empty image chunk ends the read-back (`Ok(true)`); a chunk that
    /// differs fails it; an equal chunk is counted (`Ok(false)`).
    pub fn record_chunk(&mut self, image: &[u8], device: &[u8]) -> (r: Result<bool, String>)
        requires
            old(self).bytes_verified + image@.len() <= u64::MAX,
        ensures
            image@.len() == 0 ==> r == Ok::<bool, String>(true) && final(self).bytes_verified == old(self).bytes_verified,
            image@.len() > 0 && image@.len() != device@.len() ==> (r matches Err(m)
                && m@ == "Device read size mismatch during verification"@),
            image@.len() > 0 && image@.len() == device@.len() && image@ != device@ ==> (r matches Err(m)
                && m@ == "Verification failed: data mismatch detected"@),
            image@.len() > 0 && image@ == device@ ==> r == Ok::<bool, String>(false)
                && final(self).bytes_verified == old(self).bytes_verified + image@.len(),
    {
        if image.len() == 0 {
            return Ok(true);
        }
        match check_chunk(image, device) {
            ChunkCheck::SizeMismatch => Err(String::from_str("Device read size mismatch during verification")),
            ChunkCheck::DataMismatch => Err(String::from_str("Verification failed: data mismatch detected")),
            ChunkCheck::Agree => {
                self.bytes_verified = self.bytes_verified + image.len() as u64;
                Ok(false)
            },
        }
    }
}

impl AppState {
    /// Shows a step of a write: the progress becomes a fresh record in the
    /// writing phase with the given percentage (bits of an `f32` already
    /// within 0..=100), image size and text, and the text is logged. Returns
    /// the progress event for the user interface.
    pub fn update_progress(&mut self, percentage_bits: u32, operation: &str, total_bytes: u64) -> (event: UiEvent)
        ensures
            final(self).progress.phase == OperationPhase::Writing,
            final(self).progress.percentage_bits == percentage_bits,
            final(self).progress.bytes_written == 0,
            final(self).progress.total_bytes == total_bytes,
            final(self).progress.speed_mbps_bits == 0,
            final(self).progress.eta_seconds == 0,
            final(self).progress.current_operation@ == operation@,
            log_extended(old(self).logs@, final(self).logs@, LogLevel::Info, operation@),
            final(self).config == old(self).config,
            final(self).devices == old(self).devices,
            final(self).iso_info == old(self).iso_info,
            final(self).is_running == old(self).is_running,
            final(self).cancel_requested == old(self).cancel_requested,
            event matches UiEvent::ProgressUpdated(p) && p.phase == OperationPhase::Writing
                && p.percentage_bits == percentage_bits && p.total_bytes == total_bytes
                && p.bytes_written == 0 && p.current_operation@ == operation@,
    {
        let progress = ProgressInfo {
            phase: OperationPhase::Writing,
            percentage_bits,
            bytes_written: 0,
            total_bytes,
            speed_mbps_bits: 0,
            eta_seconds: 0,
            current_operation: String::from_str(operation),
        };
        let shown = ProgressInfo {
            phase: OperationPhase::Writing,
            percentage_bits,
            bytes_written: 0,
            total_bytes,
            speed_mbps_bits: 0,
            eta_seconds: 0,
            current_operation: String::from_str(operation),
        };
        self.progress = progress;
        self.add_log(LogLevel::Info, operation);
        UiEvent::ProgressUpdated(shown)
    }

    /// Shows the start of a write stage.
    pub fn show_stage(&mut self, stage: WriteStage, total_bytes: u64) -> (event: UiEvent)
        ensures
            final(self).progress.phase == OperationPhase::Writing,
            final(self).progress.percentage_bits == stage_percent_bits(stage),
            final(self).progress.total_bytes == total_bytes,
            final(self).progress.current_operation@ == stage_text(stage),
            log_extended(old(self).logs@, final(self).logs@, LogLevel::Info, stage_text(stage)),
            final(self).config == old(self).config,
            final(self).is_running == old(self).is_running,
            event matches UiEvent::ProgressUpdated(p) && p.percentage_bits == stage_percent_bits(stage)
                && p.current_operation@ == stage_text(stage),
    {
        let text = stage.text();
        self.update_progress(stage.percent_bits(), text.as_str(), total_bytes)
    }

    /// Shows copy progress with speed and time left (the percentage and
    /// speed as bits of `f32`s); nothing is logged.
    pub fn update_progress_with_speed(
        &mut self,
        percentage_bits: u32,
        operation: &str,
        bytes_written: u64,
        total_bytes: u64,
        speed_mbps_bits: u32,
        eta_seconds: u64,
    ) -> (event: UiEvent)
        ensures
            final(self).progress.phase == OperationPhase::Writing,
            final(self).progress.percentage_bits == percentage_bits,
            final(self).progress.bytes_written == bytes_written,
            final(self).progress.total_bytes == total_bytes,
            final(self).progress.speed_mbps_bits == speed_mbps_bits,
            final(self).progress.eta_seconds == eta_seconds,
            final(self).progress.current_operation@ == operation@,
            final(self).logs == old(self).logs,
            final(self).config == old(self).config,
            final(self).devices == old(self).devices,
            final(self).iso_info == old(self).iso_info,
            final(self).is_running == old(self).is_running,
            final(self).cancel_requested == old(self).cancel_requested,
            event matches UiEvent::ProgressUpdated(p) && p.percentage_bits == percentage_bits
                && p.bytes_written == bytes_written && p.total_bytes == total_bytes
                && p.speed_mbps_bits == speed_mbps_bits && p.eta_seconds == eta_seconds
                && p.current_operation@ == operation@,
    {
        let progress = ProgressInfo {
            phase: OperationPhase::Writing,
            percentage_bits,
            bytes_written,
            total_bytes,
            speed_mbps_bits,
            eta_seconds,
            current_operation: String::from_str(operation),
        };
        let shown = ProgressInfo {
            phase: OperationPhase::Writing,
            percentage_bits,
            bytes_written,
            total_bytes,
            speed_mbps_bits,
            eta_seconds,
            current_operation: String::from_str(operation),
        };
        self.progress = progress;
        UiEvent::ProgressUpdated(shown)
    }

    /// The read-back found the whole image on the device.
    pub fn record_verification_passed(&mut self, bytes_verified: u64)
        ensures
            log_extended(
                old(self).logs@,
                final(self).logs@,
                LogLevel::Success,
                "Write verification passed: "@ + decimal_text(bytes_verified as nat) + " bytes verified"@,
            ),
            final(self).progress == old(self).progress,
            final(self).config == old(self).config,
            final(self).is_running == old(self).is_running,
    {
        let count = decimal_string(bytes_verified);
        let head = concat_text("Write verification passed: ", count.as_str());
        let msg = concat_text(head.as_str(), " bytes verified");
        self.add_log(LogLevel::Success, msg.as_str());
    }
}

} // verus!
