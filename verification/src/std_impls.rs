//! A tick source over the standard library's monotonic clock, at one tick
//! per microsecond.

use crate::{TickDuration, TickFrequency, TickInstant};
use std::time::{Duration, Instant};
use vstd::prelude::*;

verus! {

/// The standard library's opaque monotonic clock reading.
#[verifier::external_type_specification]
#[verifier::external_body]
pub struct ExInstant(Instant);

/// Relies on `std::time::Instant::now`: a sample of the monotonic clock.
/// What it reads depends on the clock alone, so nothing is promised of it.
#[verifier::external_body]
fn sample_clock() -> Instant {
    Instant::now()
}

/// Relies on `std::time::Instant::clone`: an `Instant` is a plain copy of
/// its clock reading.
pub assume_specification[ <std::time::Instant as Clone>::clone ](v: &std::time::Instant) -> std::time::Instant;

/// Relies on `std::time::Instant::duration_since`: the span from `earlier`
/// to `v`, zero if `earlier` is the later of the two.
pub assume_specification[ std::time::Instant::duration_since ](
    v: &std::time::Instant,
    earlier: std::time::Instant,
) -> std::time::Duration;

/// Relies on `std::time::Instant::checked_add`: the reading moved forward
/// by `duration`, or `None` where the platform cannot represent it.
pub assume_specification[ std::time::Instant::checked_add ](
    v: &std::time::Instant,
    duration: std::time::Duration,
) -> Option<std::time::Instant>;

/// Relies on `std::time::Duration::from_micros`: the span of `micros`
/// microseconds.
pub assume_specification[ std::time::Duration::from_micros ](micros: u64) -> std::time::Duration;

/// Relies on `std::time::Duration::as_micros`: the span in whole
/// microseconds.
pub assume_specification[ std::time::Duration::as_micros ](v: &std::time::Duration) -> u128;

/// A tick source backed by [`std::time::Instant`], one tick per microsecond
/// (1000 ticks per millisecond). For hosted test builds rather than
/// bare-metal targets.
pub struct StdTickInstant {
    instant: Instant,
}

impl Clone for StdTickInstant {
    fn clone(&self) -> Self {
        StdTickInstant { instant: self.instant.clone() }
    }
}

impl TickFrequency for StdTickInstant {
    open spec fn spec_frequency() -> u32 {
        1000
    }

    fn frequency() -> (khz: u32) {
        1000
    }
}

impl TickInstant for StdTickInstant {
    fn now() -> Self {
        StdTickInstant { instant: sample_clock() }
    }

    /// The microseconds since this instant's reading, pinned at the
    /// largest representable tick count for immeasurably long spans.
    fn elapsed(&mut self) -> TickDuration<Self> {
        let here = sample_clock();
        let spanned = here.duration_since(self.instant.clone());
        let us = spanned.as_micros();
        let ticks: u64 = if us > (u64::MAX as u128) {
            u64::MAX
        } else {
            us as u64
        };
        TickDuration::from_ticks(ticks)
    }

    /// Moves the reading forward by `dur` microseconds. Where the platform
    /// cannot represent the advanced reading, the reading stays where it
    /// is: it must never pass the true clock, and an unmoved reading only
    /// reports more elapsed time than asked.
    fn move_forward(&mut self, dur: &TickDuration<Self>) {
        match self.instant.checked_add(Duration::from_micros(dur.as_ticks())) {
            Some(moved) => {
                self.instant = moved;
            },
            None => {},
        }
    }
}

} // verus!
