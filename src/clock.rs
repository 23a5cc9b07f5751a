//! The wall clock, read as whole milliseconds since the Unix epoch.
use vstd::prelude::*;
use std::time::{Duration, SystemTime, SystemTimeError, UNIX_EPOCH};
use crate::error::ChainError;

verus! {

/// `std::time::SystemTime`, carried through opaquely.
#[verifier::external_type_specification]
#[verifier::external_body]
pub struct ExSystemTime(SystemTime);

/// `std::time::SystemTimeError`, carried through opaquely.
#[verifier::external_type_specification]
#[verifier::external_body]
pub struct ExSystemTimeError(SystemTimeError);

/// Relies on `SystemTime::now` to read the clock; nothing is known of the value.
pub assume_specification[ SystemTime::now ]() -> SystemTime;

/// Relies on `SystemTime::duration_since` to measure from the epoch; it may
/// fail when the clock is set before it.
pub assume_specification[ SystemTime::duration_since ](
    this: &SystemTime,
    earlier: SystemTime,
) -> Result<Duration, SystemTimeError>;

/// Relies on `std::time::UNIX_EPOCH`: the moment that timestamps count from.
#[verifier::external_body]
fn unix_epoch() -> SystemTime {
    UNIX_EPOCH
}

/// Relies on `Duration::as_millis` to count whole milliseconds.
pub assume_specification[ Duration::as_millis ](this: &Duration) -> u128;

/// Reads the clock as milliseconds since the Unix epoch, or reports
/// `ClockUnavailable` when the clock stands before the epoch. Any time may
/// come back, so callers rely on nothing about its value.
pub fn current_timestamp() -> (r: Result<u128, ChainError>)
    ensures
        r matches Err(e) ==> e == ChainError::ClockUnavailable,
{
    match SystemTime::now().duration_since(unix_epoch()) {
        Ok(elapsed) => Ok(elapsed.as_millis()),
        Err(_) => Err(ChainError::ClockUnavailable),
    }
}

} // verus!
