//! The current time, and timestamps a number of seconds later, from chrono.

use vstd::prelude::*;

verus! {

/// The earliest Unix timestamp (in seconds) that a chrono `DateTime` can
/// hold: January 1 of the year -262143, 00:00:00 UTC.
pub const MIN_TIMESTAMP: i64 = -8334601228800;

/// The latest Unix timestamp (in seconds) that a chrono `DateTime` can hold:
/// December 31 of the year 262142, 23:59:59 UTC.
pub const MAX_TIMESTAMP: i64 = 8210266876799;

/// `chrono::Utc::now().timestamp()`: the current Unix time in seconds. The
/// contract claims only the range: `Utc::now` panics on a system time before
/// the epoch and builds its `DateTime` with `from_timestamp(..).unwrap()`.
/// Which instant comes back is left unsaid: it is the clock's.
#[verifier::external_body]
pub(crate) fn utc_now_timestamp() -> (r: i64)
    ensures
        0 <= r <= MAX_TIMESTAMP,
{
    chrono::Utc::now().timestamp()
}

/// `(DateTime::from_timestamp(ts, 0) + Duration::seconds(secs)).timestamp()`:
/// the Unix time `secs` seconds after `ts`. The contract claims that chrono
/// adds the seconds exactly whenever both instants lie in its range (outside
/// it, `DateTime + TimeDelta` panics, so `requires` leaves those inputs out).
#[verifier::external_body]
pub(crate) fn timestamp_plus_seconds(ts: i64, secs: i64) -> (r: i64)
    requires
        MIN_TIMESTAMP <= ts <= MAX_TIMESTAMP,
        MIN_TIMESTAMP <= ts + secs <= MAX_TIMESTAMP,
    ensures
        r == ts + secs,
{
    let start = chrono::DateTime::from_timestamp(ts, 0).unwrap();
    (start + chrono::Duration::seconds(secs)).timestamp()
}

} // verus!
