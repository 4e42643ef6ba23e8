//! Text, digests, little-endian encoding, randomness, the clock and the
//! operating system texts.

pub mod cancel;
pub mod clock;
pub mod crc;
pub mod files;
pub mod hash;
pub mod le;
pub mod platform;
pub mod random;
pub mod text;

