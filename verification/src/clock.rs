//! The wall clock, read in whole seconds since the Unix epoch.

use std::time::{Duration, SystemTime, SystemTimeError, UNIX_EPOCH};
use vstd::prelude::*;

verus! {

/// `std::time::SystemTime`, carried through as an opaque value.
#[verifier::external_type_specification]
#[verifier::external_body]
pub struct ExSystemTime(SystemTime);

/// `std::time::SystemTimeError`, carried through as an opaque value.
#[verifier::external_type_specification]
#[verifier::external_body]
pub struct ExSystemTimeError(SystemTimeError);

/// `SystemTime::now`: the current reading of the system clock. Nothing is
/// promised of it.
pub assume_specification[ SystemTime::now ]() -> SystemTime;

/// `SystemTime::duration_since`: the time from `earlier` to `time`, or an
/// error where `earlier` is the later of the two.
pub assume_specification[ SystemTime::duration_since ](
    time: &SystemTime,
    earlier: SystemTime,
) -> Result<Duration, SystemTimeError>;

/// `Duration::as_secs`: the whole seconds of a duration.
pub assume_specification[ Duration::as_secs ](duration: &Duration) -> u64;

/// `std::time::UNIX_EPOCH`: 1970-01-01 00:00:00 UTC.
#[verifier::external_body]
fn unix_epoch() -> SystemTime {
    UNIX_EPOCH
}

/// The timestamp that a clock reading stands for: the whole seconds from
/// the epoch to the reading. A reading before the epoch has no timestamp and
/// is left out.
pub fn timestamp_of(since_epoch: Option<u64>) -> (secs: u64)
    requires
        since_epoch is Some,
    ensures
        Some(secs) == since_epoch,
{
    match since_epoch {
        Some(secs) => secs,
        None => vstd::pervasive::unreached(),
    }
}

/// The current time in whole seconds since the Unix epoch; `None` where the
/// system clock is set before the epoch.
pub fn unix_time() -> Option<u64> {
    match SystemTime::now().duration_since(unix_epoch()) {
        Ok(elapsed) => Some(timestamp_of(Some(elapsed.as_secs()))),
        Err(_) => None,
    }
}

} // verus!
