use vstd::prelude::*;
use std::time::{Duration, SystemTime, SystemTimeError};
use crate::error::WatchtowerError;

verus! {

/// `std::time::SystemTime`, a reading of the system clock. Nothing is known
/// of what a value holds.
#[verifier::external_type_specification]
#[verifier::external_body]
pub struct ExSystemTime(std::time::SystemTime);

/// `std::time::SystemTimeError`, with which the clock says that the second
/// of two readings does not lie after the first.
#[verifier::external_type_specification]
#[verifier::external_body]
pub struct ExSystemTimeError(std::time::SystemTimeError);

/// `SystemTime::now` reads the system clock. Nothing is claimed of the
/// reading.
pub assume_specification[ SystemTime::now ]() -> (now: SystemTime)
;

/// `SystemTime::duration_since` gives the time from `earlier` to `time`, or
/// an error where `earlier` is the later of the two. Nothing is claimed of
/// which it is, nor of the duration.
pub assume_specification[ SystemTime::duration_since ](
    time: &SystemTime,
    earlier: SystemTime,
) -> (elapsed: Result<Duration, SystemTimeError>)
;

/// The number of whole seconds that a duration holds, as `Duration::as_secs`
/// gives it.
pub uninterp spec fn whole_seconds(duration: Duration) -> u64;

/// `Duration::as_secs` gives the whole seconds of a duration: a fraction of a
/// second that it holds besides is left out. The number depends on the
/// duration alone.
pub assume_specification[ Duration::as_secs ](duration: &Duration) -> (secs: u64)
    ensures
        secs == whole_seconds(*duration),
;

/// Hands out `std::time::UNIX_EPOCH`, the reading that stands for the
/// first second of 1970 in UTC. Nothing is claimed of it.
#[verifier::external_body]
fn unix_epoch() -> (epoch: SystemTime) {
    std::time::UNIX_EPOCH
}

/// The whole seconds that the system clock stands after the Unix epoch, or
/// `InternalError` where it stands before the epoch.
pub fn get_time_since_epoch() -> (seconds: Result<u64, WatchtowerError>)
    ensures
        seconds is Err ==> seconds == Err::<u64, WatchtowerError>(WatchtowerError::InternalError),
{
    let now = SystemTime::now();
    seconds_of(now.duration_since(unix_epoch()))
}

/// What an answer of the clock comes to: the whole seconds of the time that
/// has elapsed, or `InternalError` where the clock gave an error.
pub fn seconds_of(elapsed: Result<Duration, SystemTimeError>) -> (seconds: Result<
    u64,
    WatchtowerError,
>)
    ensures
        seconds == match elapsed {
            Ok(duration) => Ok::<u64, WatchtowerError>(whole_seconds(duration)),
            Err(_) => Err::<u64, WatchtowerError>(WatchtowerError::InternalError),
        },
{
    match elapsed {
        Ok(elapsed) => Ok(elapsed.as_secs()),
        Err(error) => Err(WatchtowerError::from(error)),
    }
}

} // verus!
