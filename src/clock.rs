use vstd::prelude::*;

verus! {

/// An upper bound on every timestamp that the clock can report: chrono's
/// `DateTime<Utc>` ends in the year 262142, a little over 8.21e12 seconds after
/// the Unix epoch.
pub const CLOCK_LIMIT: i64 = 8_300_000_000_000;

/// Relies on `chrono::Utc::now` and `DateTime::timestamp`: whole seconds since the
/// Unix epoch. `Utc::now` measures from the epoch (it panics on a clock set before
/// it) and builds a `DateTime<Utc>`, so the value lies within chrono's range.
#[verifier::external_body]
pub fn now_timestamp() -> (r: i64)
    ensures
        0 <= r < CLOCK_LIMIT,
{
    chrono::Utc::now().timestamp()
}

} // verus!
