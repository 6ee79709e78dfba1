use std::time::{Duration, SystemTime, UNIX_EPOCH};
use vstd::prelude::*;

verus! {

#[verifier::external_type_specification]
#[verifier::external_body]
pub struct ExSystemTime(SystemTime);

/// Reads the system clock with `SystemTime::now`. Nothing is claimed of the reading.
#[verifier::external_body]
fn system_time_now() -> SystemTime {
    SystemTime::now()
}

/// Measures `time` from the Unix epoch with `SystemTime::duration_since`;
/// `None` when the reading lies before the epoch. Nothing is claimed of the duration.
#[verifier::external_body]
fn since_unix_epoch(time: SystemTime) -> Option<Duration> {
    match time.duration_since(UNIX_EPOCH) {
        Ok(duration) => Some(duration),
        Err(_) => None,
    }
}

/// The whole milliseconds of `duration`, by `Duration::as_millis`. Nothing is
/// claimed of the value: the duration is opaque here.
#[verifier::external_body]
fn whole_millis(duration: Duration) -> u128 {
    duration.as_millis()
}

/// Milliseconds since the Unix epoch by the system clock, truncated to 64 bits;
/// `None` when the clock reads before the epoch. The reading is whatever the clock
/// gives: nothing is promised of it.
pub fn wall_clock_ms() -> Option<u64> {
    let now = system_time_now();
    match since_unix_epoch(now) {
        Some(duration) => Some(whole_millis(duration) as u64),
        None => None,
    }
}

/// The age of data stamped `timestamp` at clock reading `now`: zero for data from
/// the future, and zero when the clock could not be read.
pub open spec fn age_at(now: Option<u64>, timestamp: u64) -> u64 {
    match now {
        Some(now) => if now >= timestamp {
            (now - timestamp) as u64
        } else {
            0
        },
        None => 0,
    }
}

/// The age of data stamped `timestamp` at clock reading `now`.
pub fn age_ms(now: Option<u64>, timestamp: u64) -> (age: u64)
    ensures
        age == age_at(now, timestamp),
{
    match now {
        Some(now) => now.saturating_sub(timestamp),
        None => 0,
    }
}

/// The age at a clock reading is the time from the stamp to that reading: stamp
/// plus age gives back the reading for data from the past, data from the future
/// or an unreadable clock has age zero, the age never exceeds the reading, and
/// a later stamp is never older.
pub proof fn lemma_age_is_time_since_stamp(reading: u64, timestamp: u64, later_stamp: u64)
    ensures
        timestamp <= reading ==> timestamp + age_at(Some(reading), timestamp) == reading,
        timestamp > reading ==> age_at(Some(reading), timestamp) == 0,
        age_at(None, timestamp) == 0,
        age_at(Some(reading), timestamp) <= reading,
        timestamp <= later_stamp ==> age_at(Some(reading), later_stamp) <= age_at(
            Some(reading),
            timestamp,
        ),
{
}

/// How old data stamped `timestamp` is by the system clock, in milliseconds.
pub fn data_age_ms(timestamp: u64) -> (age: u64)
    ensures
        exists|now: Option<u64>| age == age_at(now, timestamp),
{
    let now = wall_clock_ms();
    age_ms(now, timestamp)
}

} // verus!
