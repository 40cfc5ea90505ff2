//! The clock that runs are timed with.

use vstd::prelude::*;
use std::time::{Duration, Instant};
use crate::span::Span;

verus! {

/// A moment on the monotonic clock of `std`. Nothing is known of it here.
#[verifier::external_type_specification]
#[verifier::external_body]
pub struct ExInstant(std::time::Instant);

/// `Instant::now` reads the clock. Nothing is claimed of the moment it gives.
pub assume_specification[ Instant::now ]() -> (now: Instant);

/// `Instant::elapsed` gives the time since the moment was taken. Nothing is
/// claimed of its length.
pub assume_specification[ Instant::elapsed ](moment: &Instant) -> (elapsed: Duration);

/// `Duration::as_secs` gives the whole seconds of a duration. Nothing is
/// claimed of their number.
pub assume_specification[ Duration::as_secs ](duration: &Duration) -> (secs: u64);

/// `Duration::subsec_nanos` gives the fraction of a second of a duration in
/// nanoseconds, which `std` documents to be less than one billion.
pub assume_specification[ Duration::subsec_nanos ](duration: &Duration) -> (subsec_nanos: u32)
    ensures
        subsec_nanos < 1_000_000_000,
;

/// A clock that counts from the moment it was started.
pub struct Stopwatch {
    started: Instant,
}

impl Stopwatch {
    /// Starts a clock now.
    pub fn start() -> Stopwatch {
        Stopwatch { started: Instant::now() }
    }

    /// The reading of the clock: the time since it was started. Nothing is
    /// promised of a reading but that it is a span.
    pub fn read(&self) -> Span {
        let elapsed = self.started.elapsed();
        Span::new(elapsed.as_secs(), elapsed.subsec_nanos()).unwrap()
    }
}

} // verus!
