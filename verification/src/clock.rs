//! The wall clock, read as the time elapsed since the Unix epoch.
//!
//! Nothing is known of a reading before it is taken. Whatever is computed from
//! one is computed by functions that take the reading as an argument.

use vstd::prelude::*;

verus! {

/// Makes `std::time::SystemTime` known to the verifier, as a type it cannot look into.
#[verifier::external_type_specification]
#[verifier::external_body]
pub struct ExSystemTime(std::time::SystemTime);

/// Makes `std::time::SystemTimeError` known to the verifier, as a type it cannot look into.
#[verifier::external_type_specification]
#[verifier::external_body]
pub struct ExSystemTimeError(std::time::SystemTimeError);

/// Calls `SystemTime::now`.
///
/// Trusted: nothing is claimed of the reading.
#[verifier::external_body]
pub(crate) fn now() -> std::time::SystemTime {
    std::time::SystemTime::now()
}

/// Calls `SystemTime::duration_since` with `UNIX_EPOCH` as the earlier time.
///
/// Trusted: nothing is claimed of the outcome; a clock set before the epoch gives an error.
#[verifier::external_body]
pub(crate) fn since_epoch(time: &std::time::SystemTime) -> Result<
    std::time::Duration,
    std::time::SystemTimeError,
> {
    time.duration_since(std::time::UNIX_EPOCH)
}

/// Calls `Duration::as_secs`.
///
/// Trusted: nothing is claimed of the count.
#[verifier::external_body]
pub(crate) fn whole_seconds(elapsed: &std::time::Duration) -> u64 {
    elapsed.as_secs()
}

/// Calls `Duration::as_nanos`.
///
/// Trusted: nothing is claimed of the count.
#[verifier::external_body]
pub(crate) fn nanoseconds(elapsed: &std::time::Duration) -> u128 {
    elapsed.as_nanos()
}

/// Renders a `SystemTimeError` through its `Display` impl.
///
/// Trusted: nothing is claimed of the text.
#[verifier::external_body]
pub(crate) fn error_text(error: &std::time::SystemTimeError) -> String {
    error.to_string()
}

/// Reads the clock as the time elapsed since the epoch.
fn read_clock() -> Result<std::time::Duration, String> {
    let time = now();
    match since_epoch(&time) {
        Ok(elapsed) => Ok(elapsed),
        Err(error) => Err(error_text(&error)),
    }
}

/// Reads the clock in whole seconds since the epoch, or says why it cannot be read.
pub(crate) fn read_seconds() -> Result<u64, String> {
    match read_clock() {
        Ok(elapsed) => Ok(whole_seconds(&elapsed)),
        Err(detail) => Err(detail),
    }
}

/// Reads the clock in nanoseconds since the epoch, or says why it cannot be read.
pub(crate) fn read_nanos() -> Result<u128, String> {
    match read_clock() {
        Ok(elapsed) => Ok(nanoseconds(&elapsed)),
        Err(detail) => Err(detail),
    }
}

} // verus!
