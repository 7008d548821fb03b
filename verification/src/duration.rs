//! Tick-count durations tagged by their tick source, with ceiling-rounded
//! conversions to and from nanoseconds, microseconds and milliseconds.

use crate::TickFrequency;
use core::marker::PhantomData;
use vstd::arithmetic::div_mod::{
    lemma_div_is_ordered, lemma_div_pos_is_pos, lemma_fundamental_div_mod,
    lemma_fundamental_div_mod_converse_div, lemma_hoist_over_denominator,
    lemma_mod_division_less_than_divisor,
};
use vstd::prelude::*;

verus! {

/// Ceiling division: the least integer no smaller than `a / b`,
/// for `a >= 0` and `b >= 1`.
pub open spec fn ceil_div(a: int, b: int) -> int
    recommends
        a >= 0,
        b >= 1,
{
    (a + b - 1) / b
}

/// Tick count representing `value` time units at `khz` ticks per millisecond,
/// where one millisecond holds `per_ms` units; rounded up, so the tick count
/// never stands for less time than requested.
pub open spec fn ticks_of_unit(value: int, khz: int, per_ms: int) -> int {
    ceil_div(value * khz, per_ms)
}

/// Time units spanned by `ticks` ticks at `khz` ticks per millisecond, where
/// one millisecond holds `per_ms` units; rounded up.
pub open spec fn unit_of_ticks(ticks: int, khz: int, per_ms: int) -> int {
    ceil_div(ticks * per_ms, khz)
}

/// `ceil_div` computed from truncating division and the remainder.
proof fn lemma_ceil_div_parts(a: int, b: int)
    requires
        a >= 0,
        b >= 1,
    ensures
        ceil_div(a, b) == a / b + if a % b == 0 { 0int } else { 1int },
        a % b == 0 ==> ceil_div(a, b) * b == a,
{
    lemma_fundamental_div_mod(a, b);
    lemma_mod_division_less_than_divisor(a, b);
    let q = a / b;
    let r = a % b;
    if r == 0 {
        // a + b - 1 == q * b + (b - 1), with 0 <= b - 1 < b
        assert(a + b - 1 == q * b + (b - 1)) by (nonlinear_arith)
            requires
                a == b * q + r,
                r == 0,
        ;
        lemma_fundamental_div_mod_converse_div(a + b - 1, b, q, b - 1);
        assert(ceil_div(a, b) * b == q * b == a) by {
            lemma_fundamental_div_mod(a, b);
        }
    } else {
        // a + b - 1 == (q + 1) * b + (r - 1), with 0 <= r - 1 < b
        assert(a + b - 1 == (q + 1) * b + (r - 1)) by (nonlinear_arith)
            requires
                a == b * q + r,
        ;
        lemma_fundamental_div_mod_converse_div(a + b - 1, b, q + 1, r - 1);
    }
}

/// Ceiling division covers the dividend: the quotient times the divisor is
/// at least the dividend.
pub proof fn lemma_ceil_div_covers(a: int, b: int)
    requires
        a >= 0,
        b >= 1,
    ensures
        ceil_div(a, b) * b >= a,
        ceil_div(a, b) >= 0,
{
    lemma_fundamental_div_mod(a + b - 1, b);
    lemma_mod_division_less_than_divisor(a + b - 1, b);
    lemma_div_pos_is_pos(a + b - 1, b);
    let q = ceil_div(a, b);
    assert(q * b >= a) by (nonlinear_arith)
        requires
            a + b - 1 == b * q + (a + b - 1) % b,
            (a + b - 1) % b < b,
    ;
}

/// Round trip through ticks never loses time, and overshoots by at most one
/// tick's worth of the unit: converting `v` units to ticks (rounding up) and
/// back (rounding up) yields at least `v`, and at most `v` plus one tick
/// expressed in the unit, itself rounded up.
pub proof fn lemma_unit_round_trip(v: int, khz: int, per_ms: int)
    requires
        v >= 0,
        khz >= 1,
        per_ms >= 1,
    ensures
        unit_of_ticks(ticks_of_unit(v, khz, per_ms), khz, per_ms) >= v,
        unit_of_ticks(ticks_of_unit(v, khz, per_ms), khz, per_ms) <= v + ceil_div(per_ms, khz),
{
    let a = v * khz;
    assert(a >= 0) by (nonlinear_arith)
        requires
            a == v * khz,
            v >= 0,
            khz >= 1,
    ;
    let t = ceil_div(a, per_ms);
    let c = t * per_ms;
    let u = ceil_div(c, khz);

    // Lower bound: each ceiling only adds time, so the round trip covers
    // the original value.
    lemma_ceil_div_covers(a, per_ms);
    assert(c >= 0) by (nonlinear_arith)
        requires
            c == t * per_ms,
            t >= 0,
            per_ms >= 1,
    ;
    lemma_ceil_div_covers(c, khz);
    assert(u >= v) by (nonlinear_arith)
        requires
            u * khz >= c,
            c >= a,
            a == v * khz,
            khz >= 1,
    ;

    // Upper bound: the tick count overshoots by less than one unit's worth
    // of ticks, and reading it back adds less than one tick's worth of the
    // unit.
    lemma_fundamental_div_mod(a + per_ms - 1, per_ms);
    lemma_mod_division_less_than_divisor(a + per_ms - 1, per_ms);
    assert(c <= a + per_ms - 1) by (nonlinear_arith)
        requires
            a + per_ms - 1 == per_ms * t + (a + per_ms - 1) % per_ms,
            (a + per_ms - 1) % per_ms >= 0,
            c == t * per_ms,
    ;
    lemma_div_is_ordered(c + khz - 1, a + per_ms + khz - 2, khz);
    lemma_hoist_over_denominator(per_ms + khz - 2, v, khz as nat);
    lemma_div_is_ordered(per_ms + khz - 2, per_ms + khz - 1, khz);
}

/// Ceiling division on machine words.
fn div_ceil_u64(a: u64, b: u64) -> (r: u64)
    requires
        b >= 1,
    ensures
        r == ceil_div(a as int, b as int),
{
    proof {
        lemma_ceil_div_parts(a as int, b as int);
        lemma_fundamental_div_mod(a as int, b as int);
        lemma_mod_division_less_than_divisor(a as int, b as int);
    }
    let q = a / b;
    let rem = a % b;
    if rem == 0 {
        q
    } else {
        proof {
            assert(q < a) by (nonlinear_arith)
                requires
                    a == b * q + rem,
                    b >= 1,
                    rem >= 1,
                    q >= 0,
            ;
        }
        q + 1
    }
}

/// An amount of time expressed as an unsigned 64-bit tick count, tagged by
/// the tick-source type `T` it was computed against.
///
/// The tag is a compile-time discipline: durations computed for one tick
/// source cannot be mixed with durations of another, because the tick rates
/// differ. Conversions from and to physical time units always round up, so a
/// duration never stands for less time than was requested.
pub struct TickDuration<T: TickFrequency> {
    ticks: u64,
    _t: PhantomData<T>,
}

impl<T: TickFrequency> Clone for TickDuration<T> {
    fn clone(&self) -> (r: Self)
        ensures
            r.spec_ticks() == self.spec_ticks(),
    {
        TickDuration { ticks: self.ticks, _t: PhantomData }
    }
}

impl<T: TickFrequency> TickDuration<T> {
    /// The raw tick count this duration stands for.
    pub closed spec fn spec_ticks(&self) -> u64 {
        self.ticks
    }

    /// Builds a duration directly from a raw tick count.
    pub fn from_ticks(ticks: u64) -> (r: Self)
        ensures
            r.spec_ticks() == ticks,
    {
        TickDuration { ticks, _t: PhantomData }
    }

    /// The raw tick count.
    pub fn as_ticks(&self) -> (t: u64)
        ensures
            t == self.spec_ticks(),
    {
        self.ticks
    }

    /// The empty duration.
    pub fn zero() -> (r: Self)
        ensures
            r.spec_ticks() == 0,
    {
        Self::from_ticks(0)
    }

    /// The longest representable duration.
    pub fn max() -> (r: Self)
        ensures
            r.spec_ticks() == u64::MAX,
    {
        Self::from_ticks(u64::MAX)
    }

    /// Whether this duration spans no ticks at all.
    pub fn is_zero(&self) -> (r: bool)
        ensures
            r == (self.spec_ticks() == 0),
    {
        self.ticks == 0
    }

    /// The duration of `timeout` nanoseconds, rounded up to whole ticks.
    pub fn nanos(timeout: u32) -> (r: Self)
        ensures
            r.spec_ticks() == ticks_of_unit(
                timeout as int,
                T::spec_frequency() as int,
                1_000_000,
            ),
    {
        let khz = T::frequency();
        proof {
            assert((timeout as int) * (khz as int) <= 0xffff_ffff * 0xffff_ffff)
                by (nonlinear_arith)
                requires
                    timeout <= 0xffff_ffffu32,
                    khz <= 0xffff_ffffu32,
            ;
        }
        let scaled: u64 = (timeout as u64) * (khz as u64);
        Self::from_ticks(div_ceil_u64(scaled, 1_000_000))
    }

    /// The duration of `timeout` microseconds, rounded up to whole ticks.
    pub fn micros(timeout: u32) -> (r: Self)
        ensures
            r.spec_ticks() == ticks_of_unit(timeout as int, T::spec_frequency() as int, 1_000),
    {
        let khz = T::frequency();
        proof {
            assert((timeout as int) * (khz as int) <= 0xffff_ffff * 0xffff_ffff)
                by (nonlinear_arith)
                requires
                    timeout <= 0xffff_ffffu32,
                    khz <= 0xffff_ffffu32,
            ;
        }
        let scaled: u64 = (timeout as u64) * (khz as u64);
        Self::from_ticks(div_ceil_u64(scaled, 1_000))
    }

    /// The duration of `timeout` milliseconds. The frequency is in ticks per
    /// millisecond, so this conversion is exact.
    pub fn millis(timeout: u32) -> (r: Self)
        ensures
            r.spec_ticks() == ticks_of_unit(timeout as int, T::spec_frequency() as int, 1),
    {
        let khz = T::frequency();
        proof {
            assert((timeout as int) * (khz as int) <= 0xffff_ffff * 0xffff_ffff)
                by (nonlinear_arith)
                requires
                    timeout <= 0xffff_ffffu32,
                    khz <= 0xffff_ffffu32,
            ;
        }
        let scaled: u64 = (timeout as u64) * (khz as u64);
        proof {
            lemma_ceil_div_parts(scaled as int, 1);
            lemma_fundamental_div_mod(scaled as int, 1);
        }
        Self::from_ticks(scaled)
    }

    /// This duration in whole nanoseconds, rounded up.
    ///
    /// The duration must be short enough for the value to be computed and
    /// returned: the tick count scaled by a million must fit 64 bits, and the
    /// nanosecond count must fit the 32-bit result.
    pub fn as_nanos(&self) -> (ns: u32)
        requires
            self.spec_ticks() * 1_000_000 <= u64::MAX,
            unit_of_ticks(self.spec_ticks() as int, T::spec_frequency() as int, 1_000_000)
                <= u32::MAX,
        ensures
            ns == unit_of_ticks(self.spec_ticks() as int, T::spec_frequency() as int, 1_000_000),
    {
        let khz = T::frequency();
        let scaled: u64 = self.ticks * 1_000_000;
        let r = div_ceil_u64(scaled, khz as u64);
        r as u32
    }

    /// This duration in whole microseconds, rounded up; the scaled tick count
    /// and the result must be representable, as in [`Self::as_nanos`].
    pub fn as_micros(&self) -> (us: u32)
        requires
            self.spec_ticks() * 1_000 <= u64::MAX,
            unit_of_ticks(self.spec_ticks() as int, T::spec_frequency() as int, 1_000) <= u32::MAX,
        ensures
            us == unit_of_ticks(self.spec_ticks() as int, T::spec_frequency() as int, 1_000),
    {
        let khz = T::frequency();
        let scaled: u64 = self.ticks * 1_000;
        let r = div_ceil_u64(scaled, khz as u64);
        r as u32
    }

    /// This duration in whole milliseconds, rounded up; the result must fit
    /// the 32-bit return type.
    pub fn as_millis(&self) -> (ms: u32)
        requires
            unit_of_ticks(self.spec_ticks() as int, T::spec_frequency() as int, 1) <= u32::MAX,
        ensures
            ms == unit_of_ticks(self.spec_ticks() as int, T::spec_frequency() as int, 1),
    {
        let khz = T::frequency();
        let r = div_ceil_u64(self.ticks, khz as u64);
        r as u32
    }

    /// Adds two durations of the same tick source; the result sticks at the
    /// largest representable duration instead of wrapping.
    pub fn saturating_add(&self, rhs: &Self) -> (r: Self)
        ensures
            r.spec_ticks() == if self.spec_ticks() + rhs.spec_ticks() <= u64::MAX {
                self.spec_ticks() + rhs.spec_ticks()
            } else {
                u64::MAX as int
            },
    {
        Self::from_ticks(self.ticks.saturating_add(rhs.ticks))
    }

    /// Subtracts a duration of the same tick source; the result sticks at the
    /// empty duration instead of wrapping.
    pub fn saturating_sub(&self, rhs: &Self) -> (r: Self)
        ensures
            r.spec_ticks() == if self.spec_ticks() >= rhs.spec_ticks() {
                self.spec_ticks() - rhs.spec_ticks()
            } else {
                0int
            },
    {
        Self::from_ticks(self.ticks.saturating_sub(rhs.ticks))
    }
}

impl<T: TickFrequency> PartialEq for TickDuration<T> {
    /// Durations of one tick source are equal exactly when their tick
    /// counts are.
    fn eq(&self, other: &Self) -> (r: bool) {
        self.ticks == other.ticks
    }
}

impl<T: TickFrequency> vstd::std_specs::cmp::PartialEqSpecImpl for TickDuration<T> {
    open spec fn obeys_eq_spec() -> bool {
        true
    }

    open spec fn eq_spec(&self, other: &Self) -> bool {
        self.spec_ticks() == other.spec_ticks()
    }
}

impl<T: TickFrequency> PartialOrd for TickDuration<T> {
    /// Durations of one tick source are ordered by tick count alone.
    fn partial_cmp(&self, other: &Self) -> (r: Option<core::cmp::Ordering>) {
        if self.ticks < other.ticks {
            Some(core::cmp::Ordering::Less)
        } else if self.ticks == other.ticks {
            Some(core::cmp::Ordering::Equal)
        } else {
            Some(core::cmp::Ordering::Greater)
        }
    }
}

impl<T: TickFrequency> vstd::std_specs::cmp::PartialOrdSpecImpl for TickDuration<T> {
    open spec fn obeys_partial_cmp_spec() -> bool {
        true
    }

    open spec fn partial_cmp_spec(&self, other: &Self) -> Option<core::cmp::Ordering> {
        if self.spec_ticks() < other.spec_ticks() {
            Some(core::cmp::Ordering::Less)
        } else if self.spec_ticks() == other.spec_ticks() {
            Some(core::cmp::Ordering::Equal)
        } else {
            Some(core::cmp::Ordering::Greater)
        }
    }
}

} // verus!
