//! Readings of the wall clock, the monotonic clock and the identifier source.

use vstd::prelude::*;

verus! {

/// A wall-clock reading: milliseconds since the Unix epoch, and the local
/// offset from UTC, in seconds, at that moment.
#[derive(Clone, Copy, Debug, PartialEq, Eq)]
pub struct WallTime {
    pub unix_millis: i64,
    pub offset_secs: i32,
}

#[verifier::external_type_specification]
#[verifier::external_body]
pub struct ExInstant(std::time::Instant);

/// Relies on `Instant::now`: a reading of the monotonic clock, of which
/// nothing is known beforehand.
pub assume_specification[ std::time::Instant::now ]() -> std::time::Instant;

/// Relies on `Instant::elapsed`: nanoseconds on the monotonic clock since
/// `origin`. The value depends on the time of the call, so nothing is stated.
#[verifier::external_body]
pub(crate) fn nanos_since(origin: &std::time::Instant) -> (r: u128) {
    origin.elapsed().as_nanos()
}

/// Relies on `chrono::Local::now`: the current time and the local offset.
/// The value depends on the time of the call, so nothing is stated.
#[verifier::external_body]
pub(crate) fn wall_now() -> (r: WallTime) {
    let now = chrono::Local::now().fixed_offset();
    WallTime { unix_millis: now.timestamp_millis(), offset_secs: now.offset().local_minus_utc() }
}

/// Relies on `uuid::Uuid::new_v4`: a random identifier, read as a `u128`.
/// Nothing can be stated of a random value.
#[verifier::external_body]
pub(crate) fn fresh_id() -> (r: u128) {
    uuid::Uuid::new_v4().as_u128()
}

} // verus!
