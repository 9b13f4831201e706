//! The wall clock.

use vstd::prelude::*;

verus! {

/// Reads the wall clock with `std::time::SystemTime::now`, turns it into a
/// `chrono::DateTime<Utc>` with chrono's `From<SystemTime>` and splits the
/// instant with `DateTime::timestamp` and `DateTime::timestamp_subsec_nanos`.
///
/// Trusted, not proved: the conversion takes the sub-second part of the time
/// elapsed since the Unix epoch, or, for a clock set before the epoch, its
/// complement to one second, so the nanoseconds are below one second either
/// way and never reach the range that chrono keeps for leap seconds. Nothing
/// is claimed about which instant comes back. The conversion is defined for
/// every system time inside chrono's calendar, which reaches more than
/// 262,000 years to either side of the epoch.
#[verifier::external_body]
pub(crate) fn utc_now_parts() -> (parts: (i64, u32))
    ensures
        parts.1 < 1_000_000_000,
{
    let now = chrono::DateTime::<chrono::Utc>::from(std::time::SystemTime::now());
    (now.timestamp(), now.timestamp_subsec_nanos())
}

} // verus!
