//! Wall-clock time, read through the standard library.

use vstd::prelude::*;

verus! {

/// Makes `std::time::SystemTime` known as a type whose values are carried
/// through without being looked into.
#[verifier::external_type_specification]
#[verifier::external_body]
pub struct ExSystemTime(std::time::SystemTime);

/// Makes `std::time::SystemTimeError` known as a type whose values are
/// carried through without being looked into.
#[verifier::external_type_specification]
#[verifier::external_body]
pub struct ExSystemTimeError(std::time::SystemTimeError);

/// Calls `std::time::SystemTime::now`. Nothing is claimed of the instant
/// that comes back.
#[verifier::external_body]
fn system_now() -> std::time::SystemTime {
    std::time::SystemTime::now()
}

/// Calls `std::time::SystemTime::duration_since` against the Unix epoch.
/// Nothing is claimed of the outcome: a clock set before 1970 gives the error.
#[verifier::external_body]
fn since_unix_epoch(instant: &std::time::SystemTime) -> Result<
    std::time::Duration,
    std::time::SystemTimeError,
> {
    instant.duration_since(std::time::UNIX_EPOCH)
}

/// Calls `std::time::Duration::as_secs`. Nothing is claimed of the count.
#[verifier::external_body]
fn whole_seconds(span: &std::time::Duration) -> u64 {
    span.as_secs()
}

/// Seconds since the Unix epoch by the system clock; zero where the clock is
/// set before the epoch.
pub(crate) fn unix_seconds() -> u64 {
    let now = system_now();
    match since_unix_epoch(&now) {
        Ok(span) => whole_seconds(&span),
        Err(_) => 0,
    }
}

} // verus!
