//! Points in time, held as plain values, and the call that reads the clock.

use vstd::prelude::*;

verus! {

/// A point in UTC time: whole seconds since the Unix epoch and the
/// nanoseconds past that second. Ordered by time.
#[derive(Debug, Clone, Copy, PartialEq, Eq, Hash, PartialOrd, Ord, Structural)]
pub struct Timestamp {
    pub seconds: i64,
    pub nanos: u32,
}

/// Calls `chrono::Utc::now`. The source builds it from the system time's
/// whole seconds since the Unix epoch (it panics on a clock set before the
/// epoch) and sub-second nanoseconds, so the seconds are not negative and
/// the nanoseconds stay below one second; the instant itself depends on the
/// clock and is left free.
#[verifier::external_body]
fn utc_now() -> (t: Timestamp)
    ensures
        t.seconds >= 0,
        t.nanos < 1_000_000_000,
{
    let now = chrono::Utc::now();
    Timestamp { seconds: now.timestamp(), nanos: now.timestamp_subsec_nanos() }
}

impl Timestamp {
    /// The current time.
    pub fn now() -> (t: Timestamp)
        ensures
            t.seconds >= 0,
            t.nanos < 1_000_000_000,
    {
        utc_now()
    }
}

} // verus!
