//! Wall-clock stopwatches for timing physics and render work.
//!
//! Time is read through `std::time::Instant`, which Verus has no model of;
//! the two assumed specifications below declare the calls, promising
//! nothing about the opaque timestamps they return.

use vstd::prelude::*;
use std::time::{Duration, Instant};

verus! {

#[verifier::external_type_specification]
#[verifier::external_body]
pub struct ExInstant(Instant);

/// Relies on `std::time::Instant::now`: an opaque timestamp of the
/// monotonic clock. Which instant comes back depends on when the call runs,
/// so nothing is promised of it.
pub assume_specification[ Instant::now ]() -> Instant;

/// Relies on `std::time::Instant::duration_since`: the time elapsed from
/// `earlier` to this instant, or zero when `earlier` is the later one; the
/// call never panics. The value depends on the clock, so nothing is
/// promised of it.
pub assume_specification[ Instant::duration_since ](
    origin: &Instant,
    earlier: Instant,
) -> Duration;

/// A stopwatch: remembers the instant it was started or last reset.
pub struct Stopwatch {
    start_time: Instant,
}

impl Stopwatch {
    /// A stopwatch started now.
    pub fn new() -> Stopwatch {
        Stopwatch { start_time: Instant::now() }
    }

    /// The time elapsed since the start, without resetting.
    pub fn elapsed(&mut self) -> Duration {
        Instant::now().duration_since(self.start_time)
    }

    /// The time elapsed since the start; the stopwatch restarts from now.
    pub fn check_and_reset(&mut self) -> Duration {
        let now = Instant::now();
        let elapsed = now.duration_since(self.start_time);
        self.start_time = now;
        elapsed
    }
}

/// Run `f` once and report its result together with how long it took.
pub fn measure<F, Res>(f: F) -> (r: (Res, Duration)) where F: FnOnce() -> Res
    requires
        call_requires(f, ()),
    ensures
        call_ensures(f, (), r.0),
{
    let mut stopwatch = Stopwatch::new();
    let result = f();
    (result, stopwatch.elapsed())
}

} // verus!
