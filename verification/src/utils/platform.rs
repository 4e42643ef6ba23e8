//! Texts and decisions about the operating system: the message of a system
//! error code and the version the system reports. Asking the system is left
//! to the caller.

use vstd::prelude::*;
use vstd::string::StringExecFns;
use crate::utils::text::{concat_text, decimal_string, decimal_text, trim_chars, trim_text};

verus! {

/// The message shown for a system error code: the system's own message
/// with surrounding whitespace removed, or "Error code: N" when the system
/// has none.
pub open spec fn error_code_message(code: u32, system_message: Option<Seq<char>>) -> Seq<char> {
    match system_message {
        Some(m) => trim_chars(m),
        None => "Error code: "@ + decimal_text(code as nat),
    }
}

/// The message shown for a system error code, given the message the
/// system's message table holds for it (`None` when the lookup failed).
pub fn format_error_code(error_code: u32, system_message: Option<String>) -> (m: String)
    ensures
        m@ == error_code_message(
            error_code,
            match system_message {
                Some(s) => Some(s@),
                None => None,
            },
        ),
{
    match system_message {
        Some(s) => trim_text(s.as_str()),
        None => {
            let n = decimal_string(error_code as u64);
            concat_text("Error code: ", n.as_str())
        },
    }
}

/// The version the system reports: major, minor and build numbers.
pub struct WindowsVersion {
    pub major: u32,
    pub minor: u32,
    pub build: u32,
}

/// Whether the system is Windows 10 or later; not when the version could
/// not be read.
pub fn is_windows_10_or_later(version: Option<WindowsVersion>) -> (later: bool)
    ensures
        later == (version matches Some(v) && v.major >= 10),
{
    match version {
        Some(v) => v.major >= 10,
        None => false,
    }
}

/// The version line: "Windows M.m (Build B)", or "Unknown Windows Version"
/// when the version could not be read.
pub fn get_windows_version(version: Option<WindowsVersion>) -> (s: String)
    ensures
        s@ == match version {
            Some(v) => "Windows "@ + decimal_text(v.major as nat) + "."@ + decimal_text(v.minor as nat) + " (Build "@
                + decimal_text(v.build as nat) + ")"@,
            None => "Unknown Windows Version"@,
        },
{
    match version {
        Some(v) => {
            let major = decimal_string(v.major as u64);
            let minor = decimal_string(v.minor as u64);
            let build = decimal_string(v.build as u64);
            let a = concat_text("Windows ", major.as_str());
            let b = concat_text(a.as_str(), ".");
            let c = concat_text(b.as_str(), minor.as_str());
            let d = concat_text(c.as_str(), " (Build ");
            let e = concat_text(d.as_str(), build.as_str());
            concat_text(e.as_str(), ")")
        },
        None => String::from_str("Unknown Windows Version"),
    }
}

} // verus!
