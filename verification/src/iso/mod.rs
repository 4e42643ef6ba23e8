//! Disk image inspection: image type, ISO 9660 metadata, hybrid layouts
//! and boot records.

pub mod image;
pub mod parser;
pub mod hybrid;
pub mod boot;
