//! The wall clock, in seconds since the Unix epoch.

use std::time::{Duration, SystemTime, SystemTimeError, UNIX_EPOCH};
use vstd::prelude::*;

verus! {

/// `std::time::SystemTime`, a reading of the system clock.
#[verifier::external_type_specification]
#[verifier::external_body]
pub struct ExSystemTime(std::time::SystemTime);

/// `std::time::SystemTimeError`, which says that a reading lies before the epoch.
#[verifier::external_type_specification]
#[verifier::external_body]
pub struct ExSystemTimeError(std::time::SystemTimeError);

/// The time that `SystemTime::duration_since(UNIX_EPOCH)` finds between the epoch and a reading;
/// `None` for a reading before the epoch.
pub uninterp spec fn since_epoch(reading: SystemTime) -> Option<Duration>;

/// The whole seconds of a duration, as `Duration::as_secs` gives them.
pub uninterp spec fn whole_seconds(duration: Duration) -> u64;

/// `SystemTime::now` reads the system clock. Nothing is known of what it says.
pub assume_specification[ std::time::SystemTime::now ]() -> (res: SystemTime)
;

/// `SystemTime::duration_since` the Unix epoch.
#[verifier::external_body]
fn duration_since_epoch(reading: SystemTime) -> (res: Result<Duration, SystemTimeError>)
    ensures
        match res {
            Ok(duration) => since_epoch(reading) == Some(duration),
            Err(_) => since_epoch(reading) is None,
        },
{
    reading.duration_since(UNIX_EPOCH)
}

/// `Duration::as_secs` gives the whole seconds of a duration.
pub assume_specification[ std::time::Duration::as_secs ](duration: &Duration) -> (res: u64)
    ensures
        res == whole_seconds(*duration),
;

/// The time stamp of a clock that shows `seconds` since the epoch: zero for a clock set before the
/// epoch, and the two's complement of a count that does not fit.
pub open spec fn stamp(seconds: Option<u64>) -> int {
    match seconds {
        None => 0,
        Some(n) => if n <= i64::MAX {
            n as int
        } else {
            n - 0x1_0000_0000_0000_0000
        },
    }
}

/// A reading that a call of `SystemTime::now` has given.
pub open spec fn is_reading(reading: SystemTime) -> bool {
    call_ensures(SystemTime::now, (), reading)
}

/// The time stamp of a clock reading.
pub open spec fn reading_stamp(reading: SystemTime) -> int {
    match since_epoch(reading) {
        Some(duration) => stamp(Some(whole_seconds(duration))),
        None => stamp(None),
    }
}

/// The time stamp for a clock that shows `seconds` since the epoch.
pub fn time_stamp(seconds: Option<u64>) -> (res: i64)
    ensures
        res == stamp(seconds),
{
    match seconds {
        None => 0,
        Some(n) => {
            assert(n > 0x7fff_ffff_ffff_ffff ==> (n as i64) == n - 0x1_0000_0000_0000_0000)
                by (bit_vector);
            n as i64
        },
    }
}

/// The time stamp of this moment.
pub fn now() -> (res: i64)
    ensures
        exists|reading: SystemTime| #[trigger]
            is_reading(reading) && res == reading_stamp(reading),
{
    let reading = SystemTime::now();
    assert(is_reading(reading));
    let res = match duration_since_epoch(reading) {
        Ok(duration) => time_stamp(Some(duration.as_secs())),
        Err(_) => time_stamp(None),
    };
    assert(res == reading_stamp(reading));
    res
}

} // verus!
