//! A deterministic fake tick source, for examples and tests that need a
//! clock without a platform.

use crate::{TickCounter, TickDuration, TickFrequency, TickInstant, TickTimeoutNs,
    TickTimeoutState};
use vstd::prelude::*;

verus! {

/// A fake tick source at one tick per millisecond. Its counter holds the
/// ticks elapsed since the instant's reading and advances by one tick each
/// time it is read, so repeated queries see time passing.
#[derive(Clone, Copy)]
pub struct FakeTickInstant {
    count: u64,
}

/// A timeout factory over the fake tick source.
pub type FakeTimeoutNs = TickTimeoutNs<FakeTickInstant>;

/// A timeout state over the fake tick source.
pub type FakeTimeoutState = TickTimeoutState<FakeTickInstant>;

impl FakeTickInstant {
    /// The ticks counted so far.
    pub closed spec fn spec_count(&self) -> u64 {
        self.count
    }
}

impl TickFrequency for FakeTickInstant {
    open spec fn spec_frequency() -> u32 {
        1
    }

    fn frequency() -> (khz: u32) {
        1
    }
}

impl TickInstant for FakeTickInstant {
    fn now() -> (r: Self)
        ensures
            r.spec_count() == 0,
    {
        FakeTickInstant { count: 0 }
    }

    /// Each reading advances the fake clock by one tick and reports the
    /// total counted so far.
    fn elapsed(&mut self) -> (r: TickDuration<Self>)
        ensures
            final(self).spec_count() == if old(self).spec_count() == u64::MAX {
                0int
            } else {
                old(self).spec_count() + 1
            },
            r.spec_ticks() == final(self).spec_count(),
    {
        self.count = self.count.wrapping_add(1);
        TickDuration::from_ticks(self.count)
    }

    /// Moving the reading forward discounts `dur` from the counted ticks
    /// (wrapping at the counter's width).
    fn move_forward(&mut self, dur: &TickDuration<Self>)
        ensures
            final(self).spec_count() == if old(self).spec_count() >= dur.spec_ticks() {
                old(self).spec_count() - dur.spec_ticks()
            } else {
                old(self).spec_count() - dur.spec_ticks() + u64::MAX + 1
            },
    {
        self.count = self.count.wrapping_sub(dur.as_ticks());
    }
}

impl TickCounter for FakeTickInstant {
    fn sample() -> (r: Self)
        ensures
            r.spec_count() == 0,
    {
        FakeTickInstant { count: 0 }
    }

    /// The counted ticks since `earlier`, where neither counter has
    /// wrapped and the difference fits the narrow width.
    fn tick_since(&self, earlier: &Self) -> (r: u32)
        ensures
            earlier.spec_count() <= self.spec_count() && self.spec_count() - earlier.spec_count()
                <= u32::MAX ==> r == self.spec_count() - earlier.spec_count(),
    {
        let wide: u64 = self.count.wrapping_sub(earlier.count);
        #[verifier::truncate] (wide as u32)
    }
}

} // verus!
