//! The current time.

use vstd::prelude::*;

verus! {

/// Calls `SystemTime::now` and `SystemTime::duration_since(UNIX_EPOCH)`,
/// and returns the nanoseconds since the Unix epoch (0 when the clock
/// reads before the epoch). Nothing is stated of the value: it is the
/// current time.
#[verifier::external_body]
pub fn unix_time_nanos() -> u128 {
    match std::time::SystemTime::now().duration_since(std::time::UNIX_EPOCH) {
        Ok(d) => d.as_nanos(),
        Err(_) => 0,
    }
}

/// The whole seconds of a clock reading in nanoseconds since the Unix
/// epoch (its low 64 bits).
pub open spec fn clock_secs(t: u128) -> u64 {
    (t / 1_000_000_000) as u64
}

/// The whole seconds of a clock reading in nanoseconds.
pub fn secs_of_nanos(t: u128) -> (s: u64)
    ensures
        s == clock_secs(t),
{
    (t / 1_000_000_000) as u64
}

/// Seconds since the Unix epoch.
pub fn now_secs() -> u64 {
    (unix_time_nanos() / 1_000_000_000) as u64
}

} // verus!
