//! Reading the system clock in microseconds.
use crate::types::DriverError;
use std::time::{Duration, SystemTime, SystemTimeError};
use vstd::prelude::*;
use vstd::string::*;

verus! {

/// `std::time::SystemTime`: an instant of the system clock.
#[verifier::external_type_specification]
#[verifier::external_body]
pub struct ExSystemTime(SystemTime);

/// `SystemTime::now` reads the system clock. Nothing is claimed of the
/// instant it returns.
pub assume_specification[ SystemTime::now ]() -> (now: SystemTime);

/// `SystemTime::duration_since` gives the time from `earlier` to `later`, or
/// an error where `earlier` is the later of the two. Nothing is claimed of
/// which it is.
pub assume_specification[ SystemTime::duration_since ](
    later: &SystemTime,
    earlier: SystemTime,
) -> (elapsed: Result<Duration, SystemTimeError>);

/// `Duration::as_micros` gives a duration in whole microseconds. Nothing is
/// claimed of the number.
pub assume_specification[ Duration::as_micros ](duration: &Duration) -> (micros: u128);

/// The start of the Unix epoch: the constant `std::time::UNIX_EPOCH`.
#[verifier::external_body]
fn unix_epoch() -> (epoch: SystemTime) {
    std::time::UNIX_EPOCH
}

/// The low 64 bits of `micros`.
pub open spec fn low_64_bits(micros: u128) -> u64 {
    (micros % 0x1_0000_0000_0000_0000) as u64
}

/// The text of the error for a clock that could not be read, where `cause`
/// says why.
pub open spec fn clock_failure_text(cause: Seq<char>) -> Seq<char> {
    "Failed to get timestamp: "@ + cause
}

/// Turns a reading of the clock into a timestamp: the microseconds of a
/// reading that succeeded, cut to 64 bits, or the error for one that failed.
pub fn timestamp_from_reading(reading: Result<u128, String>) -> (r: Result<u64, DriverError>)
    ensures
        match reading {
            Ok(micros) => r matches Ok(stamp) && stamp == low_64_bits(micros),
            Err(cause) => r matches Err(DriverError::Other(text)) && text@ == clock_failure_text(
                cause@,
            ),
        },
{
    match reading {
        Ok(micros) => {
            let stamp = #[verifier::truncate] (micros as u64);
            assert(micros as u64 == (micros % 0x1_0000_0000_0000_0000u128) as u64) by (bit_vector);
            Ok(stamp)
        },
        Err(cause) => Err(
            DriverError::Other(String::from_str("Failed to get timestamp: ").concat(cause.as_str())),
        ),
    }
}

/// The microseconds since the start of the Unix epoch, by the system clock.
///
/// Fails only where the clock stands before the epoch.
pub fn current_timestamp_micros() -> (r: Result<u64, DriverError>)
    ensures
        r matches Err(e) ==> e matches DriverError::Other(text) && exists|cause: Seq<char>|
            text@ == clock_failure_text(cause),
{
    let now = SystemTime::now();
    let reading = match now.duration_since(unix_epoch()) {
        Ok(elapsed) => Ok(elapsed.as_micros()),
        Err(e) => Err(e.to_string()),
    };
    timestamp_from_reading(reading)
}

/// The microseconds from `start` to `now`, and zero where the clock went
/// back in between.
pub open spec fn micros_between(start: u64, now: u64) -> u64 {
    if now >= start {
        (now - start) as u64
    } else {
        0
    }
}

/// The microseconds from `start` to `now`, and zero where the clock went
/// back in between.
pub fn elapsed_micros(start: u64, now: u64) -> (micros: u64)
    ensures
        micros == micros_between(start, now),
{
    now.saturating_sub(start)
}

} // verus!
