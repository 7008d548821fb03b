//! The wide-form timeout engine: a 64-bit elapsed-tick accumulator compared
//! against a 64-bit threshold, fed by raw counter samples.
//!
//! The engine is level-triggered and reusable: when the accumulator reaches
//! the threshold, the threshold is consumed and any excess carries forward,
//! so repeated unattended polls behave like a free-running periodic timer.
//! The spec functions here model a poll as a pure step on the accumulator,
//! and the lemmas state the engine's laws over arbitrary sequences of clock
//! advances.

use crate::duration::ticks_of_unit;
use crate::{Poller, TickCounter, TickDuration};
use core::marker::PhantomData;
use vstd::prelude::*;

verus! {

/// Unsigned 64-bit addition that sticks at the maximum instead of wrapping.
pub open spec fn sat_add_u64(a: u64, d: u64) -> u64 {
    if a + d <= u64::MAX {
        (a + d) as u64
    } else {
        u64::MAX
    }
}

/// Whether one poll that measured `delta` elapsed ticks fires: the
/// accumulated elapsed time has reached the threshold.
pub open spec fn wide_fires(threshold: u64, acc: u64, delta: u64) -> bool {
    sat_add_u64(acc, delta) >= threshold
}

/// The accumulator after one poll that measured `delta` elapsed ticks: on
/// firing the threshold is consumed and the excess carries forward; otherwise
/// the delta is accumulated.
pub open spec fn wide_next(threshold: u64, acc: u64, delta: u64) -> u64 {
    if wide_fires(threshold, acc, delta) {
        (sat_add_u64(acc, delta) - threshold) as u64
    } else {
        sat_add_u64(acc, delta)
    }
}

/// The observable effect of one poll that measured `delta` elapsed ticks.
pub open spec fn polled(threshold: u64, acc_before: u64, acc_after: u64, fired: bool, delta: u64) -> bool {
    &&& fired == wide_fires(threshold, acc_before, delta)
    &&& acc_after == wide_next(threshold, acc_before, delta)
}

/// The accumulator after one poll per delta of `deltas`, starting freshly
/// armed (accumulator zero).
pub open spec fn wide_acc_after(threshold: u64, deltas: Seq<u64>) -> u64
    decreases deltas.len(),
{
    if deltas.len() == 0 {
        0u64
    } else {
        wide_next(threshold, wide_acc_after(threshold, deltas.drop_last()), deltas.last())
    }
}

/// How many of those polls fired.
pub open spec fn wide_fire_count(threshold: u64, deltas: Seq<u64>) -> nat
    decreases deltas.len(),
{
    if deltas.len() == 0 {
        0nat
    } else {
        wide_fire_count(threshold, deltas.drop_last()) + if wide_fires(
            threshold,
            wide_acc_after(threshold, deltas.drop_last()),
            deltas.last(),
        ) {
            1nat
        } else {
            0nat
        }
    }
}

/// The total of a sequence of tick deltas.
pub open spec fn sum_of(deltas: Seq<u64>) -> int
    decreases deltas.len(),
{
    if deltas.len() == 0 {
        0int
    } else {
        sum_of(deltas.drop_last()) + deltas.last()
    }
}

/// A total of tick deltas is never negative.
pub proof fn lemma_sum_nonneg(deltas: Seq<u64>)
    ensures
        sum_of(deltas) >= 0,
    decreases deltas.len(),
{
    if deltas.len() > 0 {
        lemma_sum_nonneg(deltas.drop_last());
    }
}

/// The detector never fires early: over any sequence of clock advances, the
/// fires consume at most the time that really elapsed. In particular the
/// first fire cannot come before a full threshold has accumulated.
pub proof fn lemma_fires_never_early(threshold: u64, deltas: Seq<u64>)
    ensures
        wide_fire_count(threshold, deltas) * threshold + wide_acc_after(threshold, deltas)
            <= sum_of(deltas),
        wide_fire_count(threshold, deltas) * threshold <= sum_of(deltas),
    decreases deltas.len(),
{
    if deltas.len() == 0 {
        assert(wide_fire_count(threshold, deltas) * threshold == 0) by (nonlinear_arith)
            requires
                wide_fire_count(threshold, deltas) == 0,
        ;
    } else {
        let pre = deltas.drop_last();
        let d = deltas.last();
        let k = wide_fire_count(threshold, pre);
        let acc = wide_acc_after(threshold, pre);
        lemma_fires_never_early(threshold, pre);
        let s = sat_add_u64(acc, d);
        if wide_fires(threshold, acc, d) {
            assert((k + 1) * threshold == k * threshold + threshold) by (nonlinear_arith);
        }
    }
}

/// Carry-forward conservation: as long as the true cumulative elapsed time is
/// representable, every fire consumes exactly one threshold from the
/// accumulator and nothing is lost -- the engine free-runs without drift.
pub proof fn lemma_carry_forward(threshold: u64, deltas: Seq<u64>)
    requires
        sum_of(deltas) <= u64::MAX,
    ensures
        wide_fire_count(threshold, deltas) * threshold + wide_acc_after(threshold, deltas)
            == sum_of(deltas),
    decreases deltas.len(),
{
    if deltas.len() == 0 {
        assert(wide_fire_count(threshold, deltas) * threshold == 0) by (nonlinear_arith)
            requires
                wide_fire_count(threshold, deltas) == 0,
        ;
    } else {
        let pre = deltas.drop_last();
        let d = deltas.last();
        let k = wide_fire_count(threshold, pre);
        let acc = wide_acc_after(threshold, pre);
        lemma_carry_forward(threshold, pre);
        assert(k * threshold >= 0) by (nonlinear_arith)
            requires
                k >= 0,
                threshold >= 0,
        ;
        // The prefix accumulator is at most the prefix total, so this step
        // does not saturate.
        assert(acc + d <= sum_of(deltas));
        if wide_fires(threshold, acc, d) {
            assert((k + 1) * threshold == k * threshold + threshold) by (nonlinear_arith);
        }
    }
}

/// A free-running counter advanced by exactly the threshold between polls
/// fires on every poll: `k` whole thresholds give exactly `k` fires, with no
/// residue left in the accumulator.
pub proof fn lemma_periodic(threshold: u64, deltas: Seq<u64>)
    requires
        forall|i: int| 0 <= i < deltas.len() ==> deltas[i] == threshold,
    ensures
        wide_fire_count(threshold, deltas) == deltas.len(),
        wide_acc_after(threshold, deltas) == 0,
    decreases deltas.len(),
{
    if deltas.len() > 0 {
        let pre = deltas.drop_last();
        assert(forall|i: int| 0 <= i < pre.len() ==> pre[i] == threshold);
        lemma_periodic(threshold, pre);
        assert(deltas.last() == threshold);
    }
}

/// After arming (or re-arming) the accumulator at zero, no poll fires until
/// at least the full threshold has elapsed again.
pub proof fn lemma_no_fire_below_threshold(threshold: u64, deltas: Seq<u64>)
    requires
        sum_of(deltas) < threshold,
    ensures
        wide_fire_count(threshold, deltas) == 0,
{
    lemma_fires_never_early(threshold, deltas);
    lemma_sum_nonneg(deltas);
    let k = wide_fire_count(threshold, deltas);
    if k >= 1 {
        assert(k * threshold >= threshold) by (nonlinear_arith)
            requires
                k >= 1,
                threshold >= 0,
        ;
    }
}

/// A timeout detector fed by raw counter samples of the tick source `T`.
///
/// Arming captures the current counter sample; each [`Self::timeout`] poll
/// measures the ticks since the previous sample with wrapping subtraction,
/// accumulates them, and fires when the accumulated total reaches the
/// threshold, consuming the threshold and carrying any excess forward.
pub struct TickTimeoutState<T: TickCounter> {
    tick: T,
    timeout_tick: u64,
    elapsed_tick: u64,
}

impl<T: TickCounter> TickTimeoutState<T> {
    /// The threshold, in ticks.
    pub closed spec fn spec_threshold(&self) -> u64 {
        self.timeout_tick
    }

    /// The elapsed ticks accumulated since the threshold was last consumed.
    pub closed spec fn spec_elapsed(&self) -> u64 {
        self.elapsed_tick
    }

    /// Arms a detector for `timeout` nanoseconds, rounded up to whole ticks.
    pub fn new_ns(timeout: u32) -> (s: Self)
        ensures
            s.spec_threshold() == ticks_of_unit(
                timeout as int,
                T::spec_frequency() as int,
                1_000_000,
            ),
            s.spec_elapsed() == 0,
    {
        Self::new(TickDuration::<T>::nanos(timeout).as_ticks())
    }

    /// Arms a detector for `timeout` microseconds, rounded up to whole ticks.
    pub fn new_us(timeout: u32) -> (s: Self)
        ensures
            s.spec_threshold() == ticks_of_unit(timeout as int, T::spec_frequency() as int, 1_000),
            s.spec_elapsed() == 0,
    {
        Self::new(TickDuration::<T>::micros(timeout).as_ticks())
    }

    /// Arms a detector for `timeout` milliseconds (an exact conversion).
    pub fn new_ms(timeout: u32) -> (s: Self)
        ensures
            s.spec_threshold() == ticks_of_unit(timeout as int, T::spec_frequency() as int, 1),
            s.spec_elapsed() == 0,
    {
        Self::new(TickDuration::<T>::millis(timeout).as_ticks())
    }

    fn new(timeout_tick: u64) -> (s: Self)
        ensures
            s.spec_threshold() == timeout_tick,
            s.spec_elapsed() == 0,
    {
        TickTimeoutState { tick: T::sample(), timeout_tick, elapsed_tick: 0 }
    }

    /// The threshold, in ticks.
    pub fn timeout_tick(&self) -> (t: u64)
        ensures
            t == self.spec_threshold(),
    {
        self.timeout_tick
    }

    /// The accumulated elapsed ticks.
    pub fn elapsed_tick(&self) -> (t: u64)
        ensures
            t == self.spec_elapsed(),
    {
        self.elapsed_tick
    }

    /// Polls the detector: samples the counter, accumulates the ticks since
    /// the previous sample, and reports whether the threshold was reached.
    /// On firing, the threshold is consumed and the excess carries forward,
    /// so the detector keeps running without a restart.
    ///
    /// How many ticks the poll measures depends on the clock alone; whatever
    /// the measurement, the detector takes exactly one [`polled`] step by it.
    pub fn timeout(&mut self) -> (fired: bool)
        ensures
            final(self).spec_threshold() == old(self).spec_threshold(),
            exists|d: u32|
                #[trigger] polled(
                    old(self).spec_threshold(),
                    old(self).spec_elapsed(),
                    final(self).spec_elapsed(),
                    fired,
                    d as u64,
                ),
    {
        let now = T::sample();
        let d: u32 = now.tick_since(&self.tick);
        let acc = self.elapsed_tick.saturating_add(d as u64);
        self.tick = now;
        let fired: bool;
        if acc >= self.timeout_tick {
            self.elapsed_tick = acc - self.timeout_tick;
            fired = true;
        } else {
            self.elapsed_tick = acc;
            fired = false;
        }
        proof {
            assert(polled(
                old(self).spec_threshold(),
                old(self).spec_elapsed(),
                self.spec_elapsed(),
                fired,
                d as u64,
            ));
        }
        fired
    }

    /// Discards all accumulated progress and re-arms from the current
    /// counter sample: a full threshold must elapse before the next fire.
    pub fn restart(&mut self)
        ensures
            final(self).spec_threshold() == old(self).spec_threshold(),
            final(self).spec_elapsed() == 0,
    {
        self.tick = T::sample();
        self.elapsed_tick = 0;
    }
}

/// A zero-sized factory that arms [`TickTimeoutState`] detectors for the
/// tick source `T` from nanosecond, microsecond or millisecond thresholds.
pub struct TickTimeoutNs<T> {
    _t: PhantomData<T>,
}

impl<T: TickCounter> TickTimeoutNs<T> {
    /// A factory for timeout states over `T`.
    pub fn new() -> (r: Self) {
        TickTimeoutNs { _t: PhantomData }
    }

    /// Arms a detector for `timeout` nanoseconds.
    pub fn start_ns(&self, timeout: u32) -> (s: TickTimeoutState<T>)
        ensures
            s.spec_threshold() == ticks_of_unit(
                timeout as int,
                T::spec_frequency() as int,
                1_000_000,
            ),
            s.spec_elapsed() == 0,
    {
        TickTimeoutState::<T>::new_ns(timeout)
    }

    /// Arms a detector for `timeout` microseconds.
    pub fn start_us(&self, timeout: u32) -> (s: TickTimeoutState<T>)
        ensures
            s.spec_threshold() == ticks_of_unit(timeout as int, T::spec_frequency() as int, 1_000),
            s.spec_elapsed() == 0,
    {
        TickTimeoutState::<T>::new_us(timeout)
    }

    /// Arms a detector for `timeout` milliseconds.
    pub fn start_ms(&self, timeout: u32) -> (s: TickTimeoutState<T>)
        ensures
            s.spec_threshold() == ticks_of_unit(timeout as int, T::spec_frequency() as int, 1),
            s.spec_elapsed() == 0,
    {
        TickTimeoutState::<T>::new_ms(timeout)
    }

    /// Polls `poller` until it returns `false` (result `false`: condition
    /// satisfied) or a detector armed for `timeout` nanoseconds fires
    /// (result `true`: timed out). The poller runs at least once, before the
    /// first timeout check.
    ///
    /// The spin loop carries an explicit bound of `u64::MAX` polls. A poll
    /// costs real time, so on any clock that advances the bound could only be
    /// reached long after every representable threshold has elapsed; if it is
    /// reached, the wait reports a timeout.
    pub fn ns_with<P: Poller>(&self, timeout: u32, poller: &mut P) -> (timed_out: bool) {
        let mut state = self.start_ns(timeout);
        let mut budget: u64 = u64::MAX;
        loop
            decreases budget,
        {
            if !poller.poll() {
                return false;
            }
            if state.timeout() {
                return true;
            }
            if budget == 0 {
                return true;
            }
            budget = budget - 1;
        }
    }
}

} // verus!
