//! The system clock as a source of UNIX-epoch millisecond timestamps.

use crate::boundary::{interval_before, is_interval, lemma_last_interval_is_interval};
use crate::error::TimingError;
use crate::timelength::Timelength;
use std::time::{Duration, SystemTime, SystemTimeError, UNIX_EPOCH};
use vstd::prelude::*;

verus! {

/// `std::time::SystemTime`, a reading of the system clock. It is carried from
/// one call to the next and never looked into.
#[verifier::external_type_specification]
#[verifier::external_body]
pub struct ExSystemTime(SystemTime);

/// `std::time::SystemTimeError`, what comes back in place of a duration where a
/// clock reading lies before the time it is measured from. It is never looked
/// into.
#[verifier::external_type_specification]
#[verifier::external_body]
pub struct ExSystemTimeError(SystemTimeError);

/// `SystemTime::now`: the reading of the system clock. Nothing is claimed of
/// it.
pub assume_specification[ SystemTime::now ]() -> (now: SystemTime);

/// `SystemTime::duration_since`, measured from `UNIX_EPOCH`: the time from the
/// epoch to `time`, or an error where `time` lies before the epoch. Nothing is
/// claimed of either.
#[verifier::external_body]
fn since_unix_epoch(time: &SystemTime) -> (elapsed: Result<Duration, SystemTimeError>) {
    time.duration_since(UNIX_EPOCH)
}

/// `Duration::as_millis`: the whole milliseconds of a duration. Nothing is
/// claimed of their number.
pub assume_specification[ Duration::as_millis ](elapsed: &Duration) -> (ms: u128);

/// Gets the system time in unix milliseconds. Fails, without a timestamp, only
/// where the clock reads a time before the epoch.
pub fn unix_timestamp_ms() -> (ts: Result<u128, TimingError>)
    ensures
        ts matches Err(e) ==> e == TimingError::ClockBeforeEpoch,
{
    let now = SystemTime::now();
    match since_unix_epoch(&now) {
        Ok(elapsed) => Ok(elapsed.as_millis()),
        Err(_) => Err(TimingError::ClockBeforeEpoch),
    }
}

/// Gets the most recent complete interval of a given timelength, as
/// `(start, end)`.
///
/// For example, passing `Timelength::OneHour` and calling this at 03:12 will
/// return the period from 02:00 to 03:00. Which window comes back depends on
/// the clock; [`interval_before`] says which one it is for each reading.
pub fn last_timelength_interval(timelength: Timelength) -> (window: Result<
    (u128, u128),
    TimingError,
>)
    ensures
        window matches Ok((start, end)) ==> is_interval(
            timelength.millis(),
            start as int,
            end as int,
        ),
{
    match unix_timestamp_ms() {
        Ok(ts) => {
            proof {
                lemma_last_interval_is_interval(ts as int, timelength.millis());
            }
            interval_before(ts, timelength)
        },
        Err(e) => Err(e),
    }
}

} // verus!
