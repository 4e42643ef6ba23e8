//! Random values drawn from the thread-local generator of the `rand` crate.

use rand::seq::SliceRandom;
use rand::Rng;
use vstd::prelude::*;

verus! {

/// `rand::thread_rng().fill(&mut [u8; 16])`: sixteen random bytes. Nothing
/// is promised of their values; the generator panics only when the operating
/// system's entropy source fails, which no input can bring about.
#[verifier::external_body]
pub(crate) fn random_bytes_16() -> (bytes: [u8; 16]) {
    let mut bytes = [0u8; 16];
    rand::thread_rng().fill(&mut bytes);
    bytes
}

/// `rand::thread_rng().gen::<u32>()`: a random 32-bit value, of which
/// nothing is promised.
#[verifier::external_body]
pub(crate) fn random_u32() -> (value: u32) {
    rand::thread_rng().gen()
}

/// `SliceRandom::shuffle` with the thread-local generator: the source swaps
/// elements in place (Fisher-Yates), so what comes out is a permutation of
/// what went in. Which permutation is left open.
#[verifier::external_body]
pub(crate) fn shuffle_u64(values: &mut Vec<u64>)
    ensures
        final(values)@.len() == old(values)@.len(),
        final(values)@.to_multiset() == old(values)@.to_multiset(),
{
    values.shuffle(&mut rand::thread_rng());
}

} // verus!
