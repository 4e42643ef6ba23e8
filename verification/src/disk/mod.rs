//! Disks: device listings, partition tables, file system formatting, and
//! the decisions taken while an image is written and read back.

pub mod partition;
pub mod format;
pub mod device;
pub mod writer;
pub mod write_check;
pub mod enumerator;
