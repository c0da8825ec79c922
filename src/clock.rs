//! Readings of the monotonic clock and lengths of time, both in nanoseconds.

use vstd::prelude::*;

verus! {

/// The number of nanoseconds in one second.
pub const NANOS_PER_SEC: u128 = 1_000_000_000;

/// The number of nanoseconds in one minute.
pub const NANOS_PER_MINUTE: u128 = 60_000_000_000;

/// A length of time, in nanoseconds.
#[derive(Clone, Copy, Debug, PartialEq, Eq, Structural)]
pub struct Span {
    pub nanos: u128,
}

/// A reading of a monotonic clock: nanoseconds since the clock's origin.
#[derive(Clone, Copy, Debug, PartialEq, Eq, Structural)]
pub struct Moment {
    pub nanos: u128,
}

impl Span {
    /// The span of `secs` whole seconds.
    pub fn from_secs(secs: u64) -> (r: Span)
        ensures
            r.nanos == secs * NANOS_PER_SEC,
    {
        Span { nanos: secs as u128 * NANOS_PER_SEC }
    }

    /// The whole seconds in this span, the fraction of a second dropped.
    pub fn as_secs(&self) -> (r: u128)
        ensures
            r == self.nanos / NANOS_PER_SEC,
    {
        self.nanos / NANOS_PER_SEC
    }
}

#[verifier::external_type_specification]
#[verifier::external_body]
pub struct ExInstant(std::time::Instant);

/// Relies on `Instant::now`: a reading of the monotonic clock. Nothing is
/// promised of its value.
pub assume_specification[ std::time::Instant::now ]() -> std::time::Instant;

/// Relies on `Instant::elapsed`: the time since the instant; it saturates at
/// zero rather than panic. Nothing is promised of its value.
pub assume_specification[ std::time::Instant::elapsed ](i: &std::time::Instant) -> std::time::Duration;

/// Relies on `Duration::as_nanos`: the whole nanoseconds of a duration.
pub assume_specification[ core::time::Duration::as_nanos ](d: &core::time::Duration) -> u128;

/// The process's monotonic clock, read as nanoseconds since the clock was
/// started.
pub struct Clock {
    origin: std::time::Instant,
}

impl Clock {
    /// A clock whose origin is the present instant.
    pub fn start() -> (r: Clock) {
        Clock { origin: std::time::Instant::now() }
    }

    /// The present reading. The reading depends on the time at which the
    /// call is made, so nothing is stated of it.
    pub fn now(&self) -> (r: Moment) {
        let since = self.origin.elapsed();
        Moment { nanos: since.as_nanos() }
    }
}

} // verus!
