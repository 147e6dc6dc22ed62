//! The wall clock.
use vstd::prelude::*;

verus! {

/// The current time in seconds since the Unix epoch (`SystemTime::now`), 0 when the
/// clock is before the epoch. Nothing is stated of the value: it is the clock's.
#[verifier::external_body]
pub(crate) fn unix_now_secs() -> (r: u64) {
    std::time::SystemTime::now().duration_since(std::time::UNIX_EPOCH).map(|d| d.as_secs()).unwrap_or(0)
}

} // verus!
