//! Reading a cancellation flag that another thread may set.

use std::sync::atomic::AtomicBool;
use vstd::prelude::*;

verus! {

/// Whether the flag is set now. Another thread may set or clear it at any
/// moment, so nothing is promised of the value read.
pub fn flag_is_set(flag: &AtomicBool) -> bool {
    flag.load(std::sync::atomic::Ordering::Relaxed)
}

} // verus!
