//! Reading from the first bytes of a disk image.
//!
//! The inspection functions take the image's first bytes (the whole file,
//! or at least its first `IMAGE_HEAD_LEN` bytes). A read that reaches past
//! them fails as reading past the end of the file does.

use vstd::prelude::*;

verus! {

/// How many leading bytes of an image the inspection functions read at most.
pub const IMAGE_HEAD_LEN: usize = 36864;

/// Why an inspection step failed.
#[derive(Debug, Clone, Copy, PartialEq, Eq, Structural)]
pub enum IsoError {
    /// A read reached past the end of the image.
    UnexpectedEof,
    /// The boot record volume descriptor is not an El Torito one.
    NotElTorito,
    /// No UEFI boot partition was found.
    NoUefiBoot,
    /// The first sector lacks the 0x55 0xAA boot signature.
    NoBootSignature,
    /// The first partition entry is not marked active.
    NoActivePartition,
    /// No GRUB marker was found.
    NoGrub,
    /// No SYSLINUX or ISOLINUX marker was found.
    NoSyslinux,
}

impl IsoError {
    /// The error's message.
    pub fn to_string(&self) -> (s: String)
        ensures
            s@ == iso_error_message(*self),
    {
        match self {
            IsoError::UnexpectedEof => String::from_str("failed to fill whole buffer"),
            IsoError::NotElTorito => String::from_str("Not an El Torito boot record"),
            IsoError::NoUefiBoot => String::from_str("No UEFI boot found"),
            IsoError::NoBootSignature => String::from_str("No valid MBR boot signature"),
            IsoError::NoActivePartition => String::from_str("No active partition found"),
            IsoError::NoGrub => String::from_str("No GRUB bootloader found"),
            IsoError::NoSyslinux => String::from_str("No SYSLINUX/ISOLINUX found"),
        }
    }
}

/// The message of each error.
pub open spec fn iso_error_message(e: IsoError) -> Seq<char> {
    match e {
        IsoError::UnexpectedEof => "failed to fill whole buffer"@,
        IsoError::NotElTorito => "Not an El Torito boot record"@,
        IsoError::NoUefiBoot => "No UEFI boot found"@,
        IsoError::NoBootSignature => "No valid MBR boot signature"@,
        IsoError::NoActivePartition => "No active partition found"@,
        IsoError::NoGrub => "No GRUB bootloader found"@,
        IsoError::NoSyslinux => "No SYSLINUX/ISOLINUX found"@,
    }
}

/// `n` bytes from `offset` lie within the image's first bytes.
pub open spec fn can_read(head: Seq<u8>, offset: int, n: int) -> bool {
    offset + n <= head.len()
}

/// The `n` bytes at `offset`, or `UnexpectedEof` when the image is shorter.
pub fn read_exact(head: &[u8], offset: usize, n: usize) -> (r: Result<&[u8], IsoError>)
    requires
        offset + n <= usize::MAX,
    ensures
        match r {
            Ok(bytes) => can_read(head@, offset as int, n as int) && bytes@ == head@.subrange(
                offset as int,
                offset + n,
            ),
            Err(e) => !can_read(head@, offset as int, n as int) && e == IsoError::UnexpectedEof,
        },
{
    if offset + n <= head.len() {
        Ok(&head[offset..offset + n])
    } else {
        Err(IsoError::UnexpectedEof)
    }
}

/// How many bytes a single `read` of `n` bytes at `offset` fills.
pub open spec fn read_count(head: Seq<u8>, offset: int, n: int) -> int {
    if offset >= head.len() {
        0
    } else if head.len() - offset < n {
        head.len() - offset
    } else {
        n
    }
}

/// The MBR boot signature 0x55 0xAA at bytes 510 and 511.
pub open spec fn has_boot_signature(head: Seq<u8>) -> bool {
    head[510] == 0x55 && head[511] == 0xAA
}

} // verus!
