//! The wall clock, read in nanoseconds since the Unix epoch.
use std::time::{Duration, SystemTime, UNIX_EPOCH};
use vstd::prelude::*;

verus! {

#[verifier::external_type_specification]
#[verifier::external_body]
pub struct ExSystemTime(std::time::SystemTime);

/// `SystemTime::now` reads the system clock. Nothing is claimed of the reading.
pub assume_specification[ SystemTime::now ]() -> SystemTime;

/// `Duration::as_nanos` gives the whole duration in nanoseconds. With nothing
/// known of a `Duration`, nothing is claimed of the number.
pub assume_specification[ Duration::as_nanos ](duration: &Duration) -> u128;

/// The time from the Unix epoch to `time`, by `SystemTime::duration_since`,
/// or `None` where `time` lies before the epoch.
#[verifier::external_body]
fn since_unix_epoch(time: &SystemTime) -> Option<Duration> {
    time.duration_since(UNIX_EPOCH).ok()
}

/// The number of nanoseconds `nanos` as a timestamp: itself where it fits in
/// 64 bits, else the greatest timestamp.
pub open spec fn saturated(nanos: u128) -> u64 {
    if nanos <= u64::MAX {
        nanos as u64
    } else {
        u64::MAX
    }
}

/// Narrows a number of nanoseconds to a timestamp, saturating.
pub fn nanos_to_timestamp(nanos: u128) -> (timestamp: u64)
    ensures
        timestamp == saturated(nanos),
{
    if nanos <= u64::MAX as u128 {
        nanos as u64
    } else {
        u64::MAX
    }
}

/// The timestamp that a reading of the clock gives: the nanoseconds since
/// the epoch, saturated, or 0 where the clock stands before the epoch.
pub open spec fn timestamp_of_reading(elapsed: Option<u128>) -> u64 {
    match elapsed {
        Some(nanos) => saturated(nanos),
        None => 0,
    }
}

/// Turns a reading of the clock into a timestamp. The reading is the number
/// of nanoseconds since the epoch, or `None` where the clock stands before
/// the epoch.
pub fn reading_to_timestamp(elapsed: Option<u128>) -> (timestamp: u64)
    ensures
        timestamp == timestamp_of_reading(elapsed),
{
    match elapsed {
        Some(nanos) => nanos_to_timestamp(nanos),
        None => 0,
    }
}

/// The current time in nanoseconds since the Unix epoch: the timestamp that
/// the reading of the system clock gives. A clock that stands before the
/// epoch reads as 0, one beyond the 64-bit range as `u64::MAX`. The reading
/// depends on the clock alone, so nothing is promised of it.
pub fn current_time_unix_nano() -> u64 {
    let now = SystemTime::now();
    let elapsed = match since_unix_epoch(&now) {
        Some(elapsed) => Some(elapsed.as_nanos()),
        None => None,
    };
    reading_to_timestamp(elapsed)
}

} // verus!
