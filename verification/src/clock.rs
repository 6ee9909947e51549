//! The one place the core reads the wall clock.

use vstd::prelude::*;

verus! {

/// Relies on `std::time::SystemTime::now`, read relative to
/// `UNIX_EPOCH`: the current wall-clock time in milliseconds. The value
/// depends on the clock, so nothing is assumed of it; a clock before the
/// epoch yields zero rather than a panic.
#[verifier::external_body]
pub(crate) fn now_unix_millis() -> u64 {
    match std::time::SystemTime::now().duration_since(std::time::UNIX_EPOCH) {
        Ok(d) => d.as_millis() as u64,
        Err(_) => 0,
    }
}

} // verus!
