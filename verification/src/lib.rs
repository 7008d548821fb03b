//! Elapsed-time measurement and timeout detection over an abstract monotonic
//! tick counter, for platforms without a real-time clock or an operating
//! system.
//!
//! A platform supplies a tick source: a monotonic counter with a fixed,
//! positive frequency. On top of it this crate offers [`TickDuration`], a tick
//! count convertible to and from nanoseconds, microseconds and milliseconds
//! with ceiling rounding (a timeout never fires earlier than requested), and
//! re-armable timeout detectors that accumulate elapsed ticks across counter
//! wraparound.

use vstd::prelude::*;

pub mod delay_impls;
pub mod duration;
pub mod fake_impls;
pub mod rounds;
pub mod std_impls;
pub mod tick_impl;
pub mod timeout;
pub mod utils;

pub use delay_impls::TickDelay;
pub use duration::TickDuration;
pub use fake_impls::FakeTickInstant;
pub use rounds::RoundTimeoutState;
pub use std_impls::StdTickInstant;
pub use tick_impl::{TickTimeoutNs, TickTimeoutState};
pub use timeout::TickTimeout;
pub use utils::FrequencyHolder;

verus! {

/// A tick source's fixed rate, in kilohertz (ticks per millisecond).
///
/// The rate is a property of the tick-source type, constant for the lifetime
/// of the program; it is the sole conversion factor between physical time
/// units and tick counts.
pub trait TickFrequency: Sized {
    /// The rate in kilohertz, as a specification-level constant.
    spec fn spec_frequency() -> u32;

    /// The rate in kilohertz. Always positive.
    fn frequency() -> (khz: u32)
        ensures
            khz == Self::spec_frequency(),
            khz >= 1,
    ;
}

/// A tick source sampled as a self-contained instant.
///
/// An instant remembers a reading of the underlying monotonic counter;
/// [`Self::elapsed`] measures the ticks since that reading and
/// [`Self::move_forward`] advances the reading by a duration, which re-arms
/// a periodic window without sampling the clock again. The reading must
/// never be moved into the future relative to the true clock.
pub trait TickInstant: TickFrequency + Clone {
    /// Samples the clock.
    fn now() -> Self;

    /// The ticks elapsed since this instant's reading.
    fn elapsed(&mut self) -> TickDuration<Self>;

    /// Moves the reading forward by `dur`.
    fn move_forward(&mut self, dur: &TickDuration<Self>);

    /// Whether at least `dur` has elapsed since this instant's reading.
    fn timeout(&mut self, dur: &TickDuration<Self>) -> (fired: bool) {
        let e = self.elapsed();
        e.as_ticks() >= dur.as_ticks()
    }

    /// How much of `dur` is still to elapse: the empty duration once `dur`
    /// has fully elapsed, and never more than `dur` itself.
    fn time_left(&mut self, dur: &TickDuration<Self>) -> (left: TickDuration<Self>)
        ensures
            left.spec_ticks() <= dur.spec_ticks(),
    {
        let e = self.elapsed();
        if e.as_ticks() >= dur.as_ticks() {
            TickDuration::zero()
        } else {
            dur.saturating_sub(&e)
        }
    }

    /// Polls `poller` until it returns `false` (result `false`: condition
    /// satisfied) or `dur` has elapsed since a fresh clock sample (result
    /// `true`: timed out). The poller runs at least once, before the first
    /// timeout check.
    ///
    /// The spin loop carries an explicit bound of `u64::MAX` polls. A poll
    /// costs real time, so on any clock that advances the bound could only
    /// be reached long after every representable threshold has elapsed; if
    /// it is reached, the wait reports a timeout.
    fn timeout_with<P: Poller>(
        &self,
        dur: &TickDuration<Self>,
        poller: &mut P,
    ) -> (timed_out: bool) {
        let mut t = Self::now();
        let mut budget: u64 = u64::MAX;
        loop
            decreases budget,
        {
            if !poller.poll() {
                return false;
            }
            if t.timeout(dur) {
                return true;
            }
            if budget == 0 {
                return true;
            }
            budget = budget - 1;
        }
    }
}

/// A tick source sampled as a raw counter value.
///
/// The counter is monotonic modulo wraparound at its native width; two
/// samples are differenced with wrapping subtraction, so a wraparound between
/// them still yields the correct small delta.
pub trait TickCounter: TickFrequency {
    /// Samples the counter.
    fn sample() -> Self;

    /// Ticks elapsed from `earlier` to this sample, as the wrapping
    /// difference of the two raw counter values.
    fn tick_since(&self, earlier: &Self) -> u32;
}

/// A caller-supplied condition, polled between timeout checks by the
/// poll-until combinators.
pub trait Poller {
    /// One poll of the condition; `true` means "keep waiting".
    fn poll(&mut self) -> bool;
}

} // verus!
