//! Sidozdev library: the byte layouts, image inspection rules and state
//! transitions of a USB bootable media creator.

pub mod state;
pub mod ui;
pub mod disk;
pub mod iso;
pub mod utils;
pub mod laws;
