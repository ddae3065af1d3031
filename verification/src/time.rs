//! Points in time, as plain numbers.

use vstd::prelude::*;
use std::time::{Duration, SystemTime, SystemTimeError, UNIX_EPOCH};

verus! {

/// A point in time: whole seconds since the Unix epoch, and the nanoseconds
/// past that second.
#[derive(Debug, Clone, Copy, PartialEq, Eq, Structural)]
pub struct Timestamp {
    pub secs: u64,
    pub nanos: u32,
}

/// Trusted: `std::time::SystemTime`, a reading of the wall clock.
#[verifier::external_type_specification]
#[verifier::external_body]
pub struct ExSystemTime(SystemTime);

/// Trusted: `std::time::SystemTimeError`, which says that one reading lies
/// before another.
#[verifier::external_type_specification]
#[verifier::external_body]
pub struct ExSystemTimeError(SystemTimeError);

/// Trusted: `std::time::UNIX_EPOCH`, the first second of 1970.
#[verifier::external_body]
pub(crate) fn unix_epoch() -> SystemTime {
    UNIX_EPOCH
}

/// Trusted: `SystemTime::now` reads the wall clock. Nothing is claimed of
/// the reading.
pub assume_specification[ SystemTime::now ]() -> SystemTime;

/// Trusted: `SystemTime::duration_since` measures the time from an earlier
/// reading to this one, and fails if that one is the later. Nothing is
/// claimed of the span.
pub assume_specification[ SystemTime::duration_since ](
    later: &SystemTime,
    earlier: SystemTime,
) -> std::result::Result<Duration, SystemTimeError>;

/// Trusted: `Duration::as_secs` gives the whole seconds of a span. Nothing
/// is claimed of the number.
pub assume_specification[ Duration::as_secs ](span: &Duration) -> u64;

/// Trusted: `Duration::subsec_nanos` gives the part of a span that is
/// short of a second, in nanoseconds: less than one billion.
pub assume_specification[ Duration::subsec_nanos ](span: &Duration) -> (nanos: u32)
    ensures
        nanos < 1_000_000_000,
;

/// Reads the wall clock. A clock that is set before 1970 reads as the
/// first second of 1970.
pub fn wall_clock() -> (now: Timestamp)
    ensures
        now.nanos < 1_000_000_000,
{
    match SystemTime::now().duration_since(unix_epoch()) {
        Ok(span) => Timestamp { secs: span.as_secs(), nanos: span.subsec_nanos() },
        Err(_) => Timestamp { secs: 0, nanos: 0 },
    }
}

} // verus!
