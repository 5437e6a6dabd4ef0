//! The wall clock that stamps responses.

use vstd::prelude::*;

verus! {

/// Calls `std::time::SystemTime::elapsed` on `std::time::UNIX_EPOCH` and
/// hands the time that has passed since then out in whole milliseconds, as
/// `std::time::Duration::as_millis` gives them.
///
/// Trusted: nothing is claimed of the reading. It is `None` where the call
/// fails, which it does where the system clock stands before the epoch.
#[verifier::external_body]
fn millis_since_unix_epoch() -> Option<u128> {
    match std::time::UNIX_EPOCH.elapsed() {
        Ok(elapsed) => Some(elapsed.as_millis()),
        Err(_) => None,
    }
}

/// The timestamp that stands for a clock reading.
pub open spec fn timestamp_of(reading: Option<u128>) -> u128 {
    match reading {
        Some(ms) => ms,
        None => 0,
    }
}

/// The timestamp for a clock reading: the milliseconds read, or 0 where the
/// clock stands before the Unix epoch and has none to give.
pub fn timestamp_of_reading(reading: Option<u128>) -> (timestamp: u128)
    ensures
        timestamp == timestamp_of(reading),
{
    match reading {
        Some(ms) => ms,
        None => 0,
    }
}

/// The current time in milliseconds since the Unix epoch.
///
/// Two calls may return any two numbers: the system clock can be set back.
pub fn unix_timestamp_ms() -> u128 {
    timestamp_of_reading(millis_since_unix_epoch())
}

} // verus!
