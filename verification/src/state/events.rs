//! The events the worker reports to the user interface and the commands
//! the user interface sends to the worker.

use vstd::prelude::*;
use vstd::string::StringExecFns;
use crate::disk::device::UsbDevice;
use crate::iso::parser::IsoInfo;
use crate::state::app_state::{LogEntry, ProgressInfo};

verus! {

/// Events sent from backend to UI
#[derive(Debug, Clone)]
pub enum UiEvent {
    /// Device list updated
    DevicesUpdated(Vec<UsbDevice>),
    /// ISO validation completed
    IsoValidated(IsoInfo),
    /// Progress update
    ProgressUpdated(ProgressInfo),
    /// Log message
    LogMessage(LogEntry),
    /// Operation completed
    OperationCompleted,
    /// Operation cancelled
    OperationCancelled,
    /// Error occurred
    Error(String),
    /// Device removed
    DeviceRemoved(String),
    /// Device added
    DeviceAdded(UsbDevice),
}

/// Commands sent from UI to backend
#[derive(Debug, Clone)]
pub enum BackendCommand {
    /// Refresh device list
    RefreshDevices,
    /// Select ISO file
    SelectIso(String),
    /// Start writing process
    StartWrite,
    /// Cancel current operation
    CancelOperation,
    /// Verify ISO hash
    VerifyIso(HashType),
    /// Format device
    FormatDevice,
}

/// Hash type for verification
#[derive(Debug, Clone, Copy, PartialEq, Eq, Structural)]
pub enum HashType {
    Md5,
    Sha1,
    Sha256,
}

/// The name each hash type is shown with.
pub open spec fn hash_type_name(h: HashType) -> Seq<char> {
    match h {
        HashType::Md5 => "MD5"@,
        HashType::Sha1 => "SHA1"@,
        HashType::Sha256 => "SHA256"@,
    }
}

impl HashType {
    /// The name the hash type is shown with.
    pub fn to_string(&self) -> (s: String)
        ensures
            s@ == hash_type_name(*self),
    {
        match self {
            HashType::Md5 => String::from_str("MD5"),
            HashType::Sha1 => String::from_str("SHA1"),
            HashType::Sha256 => String::from_str("SHA256"),
        }
    }
}

} // verus!
