//! Time as the caches see it: spans and clock readings in nanoseconds.

use std::time::Duration;
use std::time::Instant;
use vstd::prelude::*;

verus! {

/// A length of time, in nanoseconds.
#[derive(Clone, Copy, Debug, PartialEq, Eq, Structural)]
pub struct Span {
    pub nanos: u128,
}

impl Span {
    pub fn from_nanos(nanos: u128) -> (r: Span)
        ensures
            r.nanos == nanos,
    {
        Span { nanos }
    }

    pub fn from_millis(millis: u64) -> (r: Span)
        ensures
            r.nanos == millis * 1_000_000,
    {
        Span { nanos: millis as u128 * 1_000_000 }
    }

    pub fn from_secs(secs: u64) -> (r: Span)
        ensures
            r.nanos == secs * 1_000_000_000,
    {
        Span { nanos: secs as u128 * 1_000_000_000 }
    }
}

/// A reading of a monotonic clock: the nanoseconds elapsed since the clock's
/// origin.
#[derive(Clone, Copy, Debug, PartialEq, Eq, Structural)]
pub struct Moment {
    pub nanos: u128,
}

impl Moment {
    /// The moment `span` after `self`. A sum past the largest reading is held
    /// at the largest reading, a deadline that the clock never passes.
    pub open spec fn plus(self, span: Span) -> Moment {
        if self.nanos + span.nanos <= u128::MAX {
            Moment { nanos: (self.nanos + span.nanos) as u128 }
        } else {
            Moment { nanos: u128::MAX }
        }
    }

    pub fn after(self, span: Span) -> (r: Moment)
        ensures
            r == self.plus(span),
    {
        Moment { nanos: self.nanos.saturating_add(span.nanos) }
    }

    /// Whether `self` lies strictly later than `other`.
    pub open spec fn is_past(self, other: Moment) -> bool {
        self.nanos > other.nanos
    }
}

#[verifier::external_type_specification]
#[verifier::external_body]
pub struct ExInstant(Instant);

/// Relies on `Instant::now`: a reading of the operating system's monotonic
/// clock. Nothing is promised of its value.
pub assume_specification[ Instant::now ]() -> Instant;

/// Relies on `Instant::elapsed`: the time passed since the instant, read from
/// the monotonic clock. Nothing is promised of its value.
pub assume_specification[ Instant::elapsed ](this: &Instant) -> Duration;

/// Relies on `Duration::as_nanos`: the whole duration in nanoseconds.
pub assume_specification[ Duration::as_nanos ](this: &Duration) -> u128;

/// A monotonic clock whose readings count from the moment it was created.
pub struct Clock {
    origin: Instant,
}

impl Clock {
    pub fn new() -> Clock {
        Clock { origin: Instant::now() }
    }

    /// The current reading. Readings never go backwards, which is the monotonic
    /// clock's own guarantee and not stated here.
    pub fn now(&self) -> Moment {
        let elapsed = self.origin.elapsed();
        Moment { nanos: elapsed.as_nanos() }
    }
}

} // verus!
