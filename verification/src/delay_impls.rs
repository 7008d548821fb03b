//! A busy-wait delay provider built on the timeout engine.

use crate::{TickCounter, TickTimeoutState};
use core::marker::PhantomData;
use vstd::prelude::*;

verus! {

/// A delay provider for the tick source `T` that busy-waits on a timeout
/// detector; suitable for bare-metal targets with no scheduler to yield to.
pub struct TickDelay<T> {
    _t: PhantomData<T>,
}

impl<T: TickCounter> Default for TickDelay<T> {
    fn default() -> Self {
        Self::new()
    }
}

impl<T: TickCounter> TickDelay<T> {
    /// A delay provider over `T`.
    pub fn new() -> (r: Self) {
        TickDelay { _t: PhantomData }
    }

    /// Busy-waits until at least `ns` nanoseconds have elapsed on `T`.
    ///
    /// The spin loop carries an explicit bound of `u64::MAX` polls. A poll
    /// costs real time, so on any clock that advances the bound could only
    /// be reached long after every representable threshold has elapsed.
    pub fn delay_ns(&mut self, ns: u32) {
        let mut t = TickTimeoutState::<T>::new_ns(ns);
        let mut budget: u64 = u64::MAX;
        loop
            decreases budget,
        {
            if t.timeout() {
                return ;
            }
            if budget == 0 {
                return ;
            }
            budget = budget - 1;
        }
    }
}

} // verus!
