//! The clock by which entries are stamped and judged.

use vstd::prelude::*;
use std::time::Duration;
use std::time::SystemTime;
use std::time::SystemTimeError;

verus! {

/// `std::time::SystemTime`, a point in time as the system clock counts it.
#[verifier::external_type_specification]
#[verifier::external_body]
pub struct ExSystemTime(SystemTime);

/// `std::time::SystemTimeError`, what `SystemTime::duration_since` fails
/// with where the earlier time is in fact the later one.
#[verifier::external_type_specification]
#[verifier::external_body]
pub struct ExSystemTimeError(SystemTimeError);

/// `SystemTime::now` reads the system clock: nothing is known of the result.
pub assume_specification[ SystemTime::now ]() -> (t: SystemTime);

/// `SystemTime::duration_since` gives the time that passed from `earlier` to
/// `t`, or an error where `earlier` is the later of the two. Nothing is said
/// of which it is, nor of the duration.
pub assume_specification[ SystemTime::duration_since ](t: &SystemTime, earlier: SystemTime) -> (r:
    Result<Duration, SystemTimeError>);

/// `Duration::as_secs` gives the whole seconds of a duration. A `Duration` is
/// opaque here, so nothing is said of the number.
pub assume_specification[ Duration::as_secs ](d: &Duration) -> (secs: u64);

/// Hands out `std::time::UNIX_EPOCH`, the point from which seconds are
/// counted.
#[verifier::external_body]
fn unix_epoch() -> (t: SystemTime) {
    std::time::UNIX_EPOCH
}

/// The stamp for a reading of the clock: the whole seconds since the epoch
/// where the clock stands at or after it, 0 where it stands before.
pub open spec fn stamp_of(since_epoch: Option<u64>) -> u64 {
    match since_epoch {
        Some(secs) => secs,
        None => 0,
    }
}

/// The stamp for a reading of the clock. `since_epoch` is `None` where the
/// clock stands before the epoch.
pub fn stamp(since_epoch: Option<u64>) -> (secs: u64)
    ensures
        secs == stamp_of(since_epoch),
{
    match since_epoch {
        Some(secs) => secs,
        None => 0,
    }
}

/// Whole seconds from the Unix epoch to now, by the system clock; 0 where
/// the clock stands before the epoch. The clock decides the number, so
/// nothing is promised of it: two calls may differ either way.
pub fn now_secs() -> (secs: u64) {
    let now: SystemTime = SystemTime::now();
    let since_epoch: Option<u64> = match now.duration_since(unix_epoch()) {
        Ok(d) => Some(d.as_secs()),
        Err(_) => None,
    };
    stamp(since_epoch)
}

} // verus!
