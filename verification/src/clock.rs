//! Access to the system clock.

use vstd::prelude::*;

verus! {

/// Seconds since the UNIX epoch according to the system clock (`SystemTime::now`),
/// or 0 when the clock reads earlier than the epoch. Nothing is promised of the value.
#[verifier::external_body]
pub(crate) fn unix_now_secs() -> u64 {
    std::time::SystemTime::now().duration_since(std::time::UNIX_EPOCH).map(|d| d.as_secs()).unwrap_or(
        0,
    )
}

/// Nanoseconds past the current second according to the system clock (`SystemTime::now`),
/// or 0 when the clock reads earlier than the epoch. Only its range is promised.
#[verifier::external_body]
pub(crate) fn unix_now_subsec_nanos() -> (n: u32)
    ensures
        n < 1_000_000_000,
{
    std::time::SystemTime::now().duration_since(std::time::UNIX_EPOCH).map(|d| d.subsec_nanos()).unwrap_or(
        0,
    )
}

} // verus!
