//! A re-armable timeout detector over a self-contained instant.
//!
//! [`TickTimeout`] keeps an armed instant and a threshold duration. A poll
//! asks the instant whether the threshold has elapsed; on firing, the armed
//! instant is moved forward by exactly the threshold -- not re-sampled -- so
//! repeated polls behave like a free-running periodic timer with the excess
//! carried forward.

use crate::duration::ticks_of_unit;
use crate::{TickDuration, TickInstant};
use vstd::prelude::*;

verus! {

/// A timeout detector for the tick source `T`, armed at construction.
pub struct TickTimeout<T: TickInstant> {
    time: T,
    timeout: TickDuration<T>,
}

impl<T: TickInstant> TickTimeout<T> {
    /// The threshold, in ticks.
    pub closed spec fn spec_threshold(&self) -> u64 {
        self.timeout.spec_ticks()
    }

    /// Arms a detector for `timeout` nanoseconds, rounded up to whole ticks.
    pub fn from_nanos(timeout: u32) -> (r: Self)
        ensures
            r.spec_threshold() == ticks_of_unit(
                timeout as int,
                T::spec_frequency() as int,
                1_000_000,
            ),
    {
        Self::new(TickDuration::nanos(timeout))
    }

    /// Arms a detector for `timeout` microseconds, rounded up to whole
    /// ticks.
    pub fn from_micros(timeout: u32) -> (r: Self)
        ensures
            r.spec_threshold() == ticks_of_unit(timeout as int, T::spec_frequency() as int, 1_000),
    {
        Self::new(TickDuration::micros(timeout))
    }

    /// Arms a detector for `timeout` milliseconds (an exact conversion).
    pub fn from_millis(timeout: u32) -> (r: Self)
        ensures
            r.spec_threshold() == ticks_of_unit(timeout as int, T::spec_frequency() as int, 1),
    {
        Self::new(TickDuration::millis(timeout))
    }

    /// Arms a detector for an already-computed duration.
    pub fn from_duration(timeout: &TickDuration<T>) -> (r: Self)
        ensures
            r.spec_threshold() == timeout.spec_ticks(),
    {
        Self::new(timeout.clone())
    }

    fn new(timeout: TickDuration<T>) -> (r: Self)
        ensures
            r.spec_threshold() == timeout.spec_ticks(),
    {
        TickTimeout { time: T::now(), timeout }
    }

    /// The threshold, in ticks.
    pub fn timeout_ticks(&self) -> (t: u64)
        ensures
            t == self.spec_threshold(),
    {
        self.timeout.as_ticks()
    }

    /// Polls the detector: reports whether the threshold has elapsed since
    /// the armed instant. On firing, the armed instant moves forward by
    /// exactly the threshold, so the detector keeps running without a
    /// restart and the excess carries forward.
    pub fn timeout(&mut self) -> (fired: bool)
        ensures
            final(self).spec_threshold() == old(self).spec_threshold(),
    {
        if self.time.timeout(&self.timeout) {
            self.time.move_forward(&self.timeout);
            return true;
        }
        false
    }

    /// Discards all progress and re-arms from a fresh clock sample: the
    /// full threshold must elapse before the next fire.
    pub fn restart(&mut self)
        ensures
            final(self).spec_threshold() == old(self).spec_threshold(),
    {
        self.time = T::now();
    }

    /// How much of the threshold is still to elapse: the empty duration
    /// once the threshold has been reached, and never more than the
    /// threshold itself.
    pub fn time_left(&mut self) -> (left: TickDuration<T>)
        ensures
            final(self).spec_threshold() == old(self).spec_threshold(),
            left.spec_ticks() <= old(self).spec_threshold(),
    {
        self.time.time_left(&self.timeout)
    }
}

} // verus!
