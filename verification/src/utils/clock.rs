//! The wall clock, through `chrono`.

use vstd::prelude::*;

verus! {

/// `chrono::Local::now().format("%H:%M:%S.%3f").to_string()`: the local
/// time of day with milliseconds. It depends on the clock, so nothing is
/// promised of it.
#[verifier::external_body]
pub(crate) fn local_time_of_day() -> (s: String) {
    chrono::Local::now().format("%H:%M:%S.%3f").to_string()
}

} // verus!
