//! CRC-32 as used by GPT headers: the reflected polynomial 0xEDB88320,
//! register started at all ones, result complemented.

use vstd::prelude::*;

verus! {

/// One shift of the reflected CRC register.
pub open spec fn crc_shift(reg: u32) -> u32 {
    if reg & 1u32 == 1u32 {
        (reg >> 1u32) ^ 0xEDB8_8320u32
    } else {
        reg >> 1u32
    }
}

/// `n` shifts of the register.
pub open spec fn crc_shifts(reg: u32, n: nat) -> u32
    decreases n,
{
    if n == 0 {
        reg
    } else {
        crc_shifts(crc_shift(reg), (n - 1) as nat)
    }
}

/// The register after the bytes of `s` have been fed in, one byte at a time.
pub open spec fn crc32_register(s: Seq<u8>) -> u32
    decreases s.len(),
{
    if s.len() == 0 {
        0xFFFF_FFFFu32
    } else {
        crc_shifts(crc32_register(s.drop_last()) ^ (s.last() as u32), 8)
    }
}

/// The CRC-32 of `s`.
pub open spec fn crc32(s: Seq<u8>) -> u32 {
    crc32_register(s) ^ 0xFFFF_FFFFu32
}

/// The CRC-32 of `bytes`.
pub fn crc32_of(bytes: &[u8]) -> (crc: u32)
    ensures
        crc == crc32(bytes@),
{
    let mut reg: u32 = 0xFFFF_FFFF;
    let mut i: usize = 0;
    while i < bytes.len()
        invariant
            i <= bytes.len(),
            reg == crc32_register(bytes@.subrange(0, i as int)),
        decreases bytes.len() - i,
    {
        let ghost before = bytes@.subrange(0, i as int);
        let start: u32 = reg ^ (bytes[i] as u32);
        let mut r: u32 = start;
        let mut k: u32 = 0;
        while k < 8
            invariant
                k <= 8,
                crc_shifts(r, (8 - k) as nat) == crc_shifts(start, 8),
            decreases 8 - k,
        {
            if r & 1 == 1 {
                r = (r >> 1) ^ 0xEDB8_8320;
            } else {
                r = r >> 1;
            }
            k = k + 1;
        }
        proof {
            let next = bytes@.subrange(0, i + 1);
            assert(next.drop_last() =~= before);
            assert(next.last() == bytes@[i as int]);
        }
        reg = r;
        i = i + 1;
    }
    assert(bytes@.subrange(0, i as int) =~= bytes@);
    reg ^ 0xFFFF_FFFF
}

} // verus!
