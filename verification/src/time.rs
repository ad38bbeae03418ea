//! Points in time, as seconds and nanoseconds relative to the Unix epoch.

use vstd::prelude::*;

verus! {

/// A point in time: whole seconds since the Unix epoch (negative before it)
/// and the nanoseconds into that second.
#[derive(Debug, Clone, Copy, PartialEq, Eq, Structural)]
pub struct Timestamp {
    pub secs: i64,
    pub nanos: u32,
}

/// The Unix epoch.
pub open spec fn epoch() -> Timestamp {
    Timestamp { secs: 0, nanos: 0 }
}

/// `a` comes strictly after `b`.
pub open spec fn later(a: Timestamp, b: Timestamp) -> bool {
    a.secs > b.secs || (a.secs == b.secs && a.nanos > b.nanos)
}

/// Whether `a` comes strictly after `b`.
pub fn is_later(a: Timestamp, b: Timestamp) -> (r: bool)
    ensures
        r == later(a, b),
{
    a.secs > b.secs || (a.secs == b.secs && a.nanos > b.nanos)
}

/// A reading of the system clock, before or after the Unix epoch, with the
/// nanoseconds within the second.
pub open spec fn is_clock_reading(t: Timestamp) -> bool {
    t.nanos < 1_000_000_000
}

/// The current time in UTC.
///
/// Converts `std::time::SystemTime::now` with chrono's
/// `From<SystemTime> for DateTime<Utc>` and reads `timestamp` and
/// `timestamp_subsec_nanos` from the result. That conversion takes a time
/// before 1970 as negative seconds with the nanoseconds counted forward, so
/// the nanoseconds are always below one second. The conversion fails only for
/// a clock reading outside `DateTime`'s range, some 262,000 years from 1970.
/// Which instant it is depends on the clock and is not stated.
#[verifier::external_body]
pub(crate) fn utc_now() -> (t: Timestamp)
    ensures
        is_clock_reading(t),
{
    let now = chrono::DateTime::<chrono::Utc>::from(std::time::SystemTime::now());
    Timestamp { secs: now.timestamp(), nanos: now.timestamp_subsec_nanos() }
}

} // verus!
