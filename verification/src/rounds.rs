//! The narrow-form timeout engine, for hosts restricted to 32-bit arithmetic
//! on the hot path.
//!
//! A 64-bit threshold is pre-reduced to a `(base, rounds)` pair by repeated
//! ceiling halving: the per-round `base` fits half the 32-bit range and
//! `rounds` is the power-of-two round multiplier, with
//! `base * rounds >= threshold` -- the ceiling keeps the "never fire early"
//! guarantee -- and the bias below one tick per round. At run time a narrow
//! accumulator counts ticks up to `base`; each completed `base` increments a
//! round counter instead of firing, and the detector fires only when the
//! round counter reaches `rounds`, rebasing both with the excess carried
//! forward, exactly as the wide form does.

use crate::duration::ticks_of_unit;
use crate::tick_impl::{
    lemma_fires_never_early, lemma_sum_nonneg, sum_of, wide_acc_after, wide_fire_count,
};
use crate::{TickCounter, TickDuration};
use vstd::arithmetic::div_mod::{
    lemma_basic_div, lemma_div_plus_one, lemma_div_pos_is_pos, lemma_fundamental_div_mod,
    lemma_mod_add_multiples_vanish, lemma_mod_division_less_than_divisor, lemma_small_mod,
};
use vstd::prelude::*;

verus! {

/// The largest per-round base the reduction may leave: half the maximum of
/// the narrow 32-bit accumulator.
pub const BASE_LIMIT: u32 = 0x7fff_ffff;

/// The `(base, rounds)` pair a threshold reduces to: while the threshold
/// exceeds [`BASE_LIMIT`] it is halved rounding up (an odd value is biased
/// upward before the low bit is discarded, so the reduced threshold never
/// stands for less time than the original) and the round count doubles.
pub open spec fn reduced(t: int) -> (int, int)
    recommends
        t >= 0,
    decreases t,
{
    if t > BASE_LIMIT as int {
        let (base, rounds) = reduced(t / 2 + t % 2);
        (base, 2 * rounds)
    } else {
        (t, 1)
    }
}

/// Reduces a threshold of `t` ticks to its narrow `(base, rounds)` form.
///
/// The product `base * rounds` covers `t` ticks but overshoots by less than
/// one tick per round; a threshold already within the narrow range is kept
/// exactly, with a single round.
pub fn reduce_threshold(t: u64) -> (br: (u32, u64))
    ensures
        br.0 as int == reduced(t as int).0,
        br.1 as int == reduced(t as int).1,
        br.0 <= BASE_LIMIT,
        br.1 >= 1,
        br.0 as int * br.1 as int >= t,
        br.0 as int * br.1 as int - t < br.1,
        t <= BASE_LIMIT ==> br.0 == t && br.1 == 1,
{
    let mut base: u64 = t;
    let mut rounds: u64 = 1;
    while base > BASE_LIMIT as u64
        invariant
            rounds >= 1,
            rounds as int * base as int >= t,
            rounds as int * base as int - t < rounds,
            reduced(t as int).0 == reduced(base as int).0,
            reduced(t as int).1 == rounds as int * reduced(base as int).1,
        decreases base,
    {
        proof {
            let b = base as int;
            let r = rounds as int;
            let tt = t as int;
            let lim = BASE_LIMIT as int;
            // The doubled round count still fits: the tight-ceiling
            // invariant bounds `rounds` well below half the 64-bit range
            // while `base` is large.
            assert(2 * r <= u64::MAX) by (nonlinear_arith)
                requires
                    r >= 1,
                    b > lim,
                    lim == 0x7fff_ffff,
                    r * b - tt < r,
                    tt <= u64::MAX,
            ;
        }
        let halved: u64 = base / 2 + base % 2;
        proof {
            let b = base as int;
            let r = rounds as int;
            let h = halved as int;
            lemma_fundamental_div_mod(b, 2);
            lemma_mod_division_less_than_divisor(b, 2);
            assert((2 * r) * h >= r * b && (2 * r) * h <= r * b + r) by (nonlinear_arith)
                requires
                    b == 2 * (b / 2) + b % 2,
                    0 <= b % 2 < 2,
                    h == b / 2 + b % 2,
                    r >= 1,
            ;
            assert(reduced(base as int).0 == reduced(halved as int).0);
            assert(reduced(base as int).1 == 2 * reduced(halved as int).1);
            assert(reduced(t as int).1 == (2 * r) * reduced(h).1) by (nonlinear_arith)
                requires
                    reduced(t as int).1 == r * reduced(b).1,
                    reduced(b).1 == 2 * reduced(h).1,
            ;
            assert((rounds * 2) as int == 2 * r);
        }
        base = halved;
        rounds = rounds * 2;
    }
    proof {
        assert(reduced(base as int) == (base as int, 1int));
        let r = rounds as int;
        let b = base as int;
        assert(r * 1 == r && b * r == r * b) by (nonlinear_arith);
    }
    (base as u32, rounds)
}

/// The spec-level state of the narrow detector: the sub-round tick
/// accumulator and the completed-round counter.
pub struct RoundModel {
    pub acc: u32,
    pub round: u64,
}

/// The model after absorbing `delta` elapsed ticks: whole multiples of
/// `base` become rounds (the round counter sticks at its maximum instead of
/// wrapping), the remainder stays in the accumulator.
pub open spec fn round_absorb(base: u32, m: RoundModel, delta: u32) -> RoundModel
    recommends
        base >= 1,
{
    let total = m.acc + delta;
    let gain = total / (base as int);
    (RoundModel {
        acc: (total % (base as int)) as u32,
        round: if m.round + gain <= u64::MAX {
            (m.round + gain) as u64
        } else {
            u64::MAX
        },
    })
}

/// Whether one poll that measured `delta` elapsed ticks fires: the absorbed
/// rounds reach the round target.
pub open spec fn round_fires(base: u32, rounds: u64, m: RoundModel, delta: u32) -> bool {
    round_absorb(base, m, delta).round >= rounds
}

/// The model after one poll: on firing the round target is consumed and any
/// excess rounds carry forward, as the wide form carries excess ticks.
pub open spec fn round_next(base: u32, rounds: u64, m: RoundModel, delta: u32) -> RoundModel {
    let m2 = round_absorb(base, m, delta);
    if m2.round >= rounds {
        (RoundModel { acc: m2.acc, round: (m2.round - rounds) as u64 })
    } else {
        m2
    }
}

/// The observable effect of one poll of the narrow detector that measured
/// `delta` elapsed ticks. A zero threshold reduces to a zero base; such a
/// detector fires on every poll and accumulates nothing.
pub open spec fn round_polled(
    base: u32,
    rounds: u64,
    before: RoundModel,
    after: RoundModel,
    fired: bool,
    delta: u32,
) -> bool {
    if base == 0 {
        fired && after == before
    } else {
        &&& fired == round_fires(base, rounds, before, delta)
        &&& after == round_next(base, rounds, before, delta)
    }
}

/// The model after one poll per delta of `deltas`, starting freshly armed
/// (accumulator and round counter zero).
pub open spec fn round_model_after(base: u32, rounds: u64, deltas: Seq<u32>) -> RoundModel
    decreases deltas.len(),
{
    if deltas.len() == 0 {
        (RoundModel { acc: 0, round: 0 })
    } else {
        round_next(
            base,
            rounds,
            round_model_after(base, rounds, deltas.drop_last()),
            deltas.last(),
        )
    }
}

/// How many of those polls fired.
pub open spec fn round_fire_count(base: u32, rounds: u64, deltas: Seq<u32>) -> nat
    decreases deltas.len(),
{
    if deltas.len() == 0 {
        0nat
    } else {
        round_fire_count(base, rounds, deltas.drop_last()) + if round_fires(
            base,
            rounds,
            round_model_after(base, rounds, deltas.drop_last()),
            deltas.last(),
        ) {
            1nat
        } else {
            0nat
        }
    }
}

/// A sequence of narrow tick deltas, widened for the wide-form model.
pub open spec fn widen_deltas(deltas: Seq<u32>) -> Seq<u64> {
    deltas.map_values(|d: u32| d as u64)
}

/// Wide-form/round-form equivalence: for a threshold that the narrow
/// reduction represents exactly (`threshold == base * rounds`), and any
/// sequence of clock advances whose total stays representable, the narrow
/// detector and the wide detector fire on exactly the same polls -- the
/// fire counts agree for this sequence, hence for each of its prefixes, so
/// both fire at the same cumulative elapsed-tick counts. Throughout, the
/// narrow state `(round, acc)` is exactly the wide accumulator written in
/// base `base`.
pub proof fn lemma_wide_round_agree(threshold: u64, base: u32, rounds: u64, deltas: Seq<u32>)
    requires
        base >= 1,
        rounds >= 1,
        threshold as int == base as int * rounds as int,
        sum_of(widen_deltas(deltas)) <= u64::MAX,
    ensures
        round_fire_count(base, rounds, deltas) == wide_fire_count(threshold, widen_deltas(deltas)),
        ({
            let m = round_model_after(base, rounds, deltas);
            &&& wide_acc_after(threshold, widen_deltas(deltas)) as int == m.round as int * base
                + m.acc
            &&& m.acc < base
        }),
    decreases deltas.len(),
{
    let wdeltas = widen_deltas(deltas);
    if deltas.len() == 0 {
        assert(wdeltas.len() == 0);
        assert(0int * base == 0) by (nonlinear_arith);
    } else {
        let pre = deltas.drop_last();
        let d = deltas.last();
        let wpre = widen_deltas(pre);
        assert(wdeltas.drop_last() =~= wpre);
        assert(wdeltas.last() == d as u64);
        assert(sum_of(wdeltas) == sum_of(wpre) + d);
        lemma_sum_nonneg(wpre);
        lemma_wide_round_agree(threshold, base, rounds, pre);

        let m = round_model_after(base, rounds, pre);
        let acc_w = wide_acc_after(threshold, wpre);
        let b = base as int;
        let r = rounds as int;
        let t = threshold as int;

        // The wide accumulator never exceeds the elapsed total, so this
        // step does not saturate.
        lemma_fires_never_early(threshold, wpre);
        assert(wide_fire_count(threshold, wpre) * threshold >= 0) by (nonlinear_arith)
            requires
                threshold >= 0,
        ;
        assert(acc_w + d <= u64::MAX);

        let total = m.acc + d;
        let gain = total / b;
        let rem = total % b;
        lemma_fundamental_div_mod(total, b);
        lemma_mod_division_less_than_divisor(total, b);
        let m2 = round_absorb(base, m, d);

        // The round counter does not saturate either: counted in ticks it
        // is bounded by the elapsed total.
        assert((m.round + gain) * b <= m.round as int * b + (gain * b + rem)) by (nonlinear_arith)
            requires
                rem >= 0,
                b >= 1,
                total == b * gain + rem,
                gain >= 0,
        ;
        assert(m.round + gain <= (m.round + gain) * b) by (nonlinear_arith)
            requires
                b >= 1,
                m.round + gain >= 0,
        ;
        assert(b * gain == gain * b) by (nonlinear_arith);
        assert(m.round + gain <= acc_w + d);
        assert(m2.round == m.round + gain && m2.acc == rem);

        // Absorbing the delta keeps the correspondence: the narrow pair
        // still writes the wide accumulator in base `base`.
        assert(m2.round as int * b + m2.acc == acc_w + d) by (nonlinear_arith)
            requires
                m2.round == m.round + gain,
                m2.acc == rem,
                total == b * gain + rem,
                total == m.acc + d,
                acc_w as int == m.round as int * b + m.acc,
        ;

        // Both detectors fire together: with the sub-round accumulator
        // below the base, reaching `rounds` completed rounds is the same as
        // reaching `base * rounds` accumulated ticks.
        if m2.round >= rounds {
            assert(acc_w + d >= t) by (nonlinear_arith)
                requires
                    m2.round as int * b + m2.acc == acc_w + d,
                    m2.round >= r,
                    m2.acc >= 0,
                    b >= 1,
                    t == b * r,
            ;
        } else {
            assert(acc_w + d < t) by (nonlinear_arith)
                requires
                    m2.round as int * b + m2.acc == acc_w + d,
                    m2.round < r,
                    m2.acc < b,
                    b >= 1,
                    t == b * r,
            ;
        }

        if round_fires(base, rounds, m, d) {
            // On a fire both sides consume one full threshold.
            assert((m2.round - r) * b + m2.acc == acc_w + d - t) by (nonlinear_arith)
                requires
                    m2.round as int * b + m2.acc == acc_w + d,
                    t == b * r,
            ;
        }
    }
}

/// The narrow model's progress counted in ticks: completed rounds at `base`
/// ticks each, plus the sub-round accumulator.
pub open spec fn round_value(base: u32, m: RoundModel) -> int {
    m.round as int * base + m.acc
}

/// The narrow detector never fires early with respect to its own reduced
/// threshold: over any sequence of clock advances, the fires consume at most
/// the time that really elapsed, counted in whole `base * rounds` thresholds.
pub proof fn lemma_round_never_early(base: u32, rounds: u64, deltas: Seq<u32>)
    requires
        base >= 1,
    ensures
        round_fire_count(base, rounds, deltas) * (base as int * rounds as int) + round_value(
            base,
            round_model_after(base, rounds, deltas),
        ) <= sum_of(widen_deltas(deltas)),
        round_fire_count(base, rounds, deltas) * (base as int * rounds as int) <= sum_of(
            widen_deltas(deltas),
        ),
    decreases deltas.len(),
{
    let b = base as int;
    let r = rounds as int;
    let bt = b * r;
    if deltas.len() == 0 {
        assert(round_fire_count(base, rounds, deltas) * bt == 0 && 0int * b == 0)
            by (nonlinear_arith)
            requires
                round_fire_count(base, rounds, deltas) == 0,
        ;
    } else {
        let pre = deltas.drop_last();
        let d = deltas.last();
        assert(widen_deltas(deltas).drop_last() =~= widen_deltas(pre));
        assert(widen_deltas(deltas).last() == d as u64);
        lemma_round_never_early(base, rounds, pre);

        let m = round_model_after(base, rounds, pre);
        let k = round_fire_count(base, rounds, pre);
        let v = round_value(base, m);
        let total = m.acc + d;
        let gain = total / b;
        let rem = total % b;
        lemma_fundamental_div_mod(total, b);
        lemma_mod_division_less_than_divisor(total, b);
        lemma_div_pos_is_pos(total, b);
        let m2 = round_absorb(base, m, d);

        // Absorbing `d` ticks grows the counted progress by at most `d`:
        // exactly `d` normally, less if the round counter saturates.
        assert(m2.round as int * b + m2.acc <= v + d) by (nonlinear_arith)
            requires
                m2.round <= m.round + gain,
                m2.round >= 0,
                m2.acc == rem,
                total == b * gain + rem,
                total == m.acc + d,
                v == m.round as int * b + m.acc,
                b >= 1,
                gain >= 0,
                rem >= 0,
        ;

        if round_fires(base, rounds, m, d) {
            // The fire consumes one whole threshold of counted progress.
            assert((k + 1) * bt == k * bt + bt && (m2.round - r) * b + m2.acc == (m2.round as int
                * b + m2.acc) - bt) by (nonlinear_arith)
                requires
                    bt == b * r,
            ;
        }
        // The counted progress left after the poll is never negative.
        let mf = round_model_after(base, rounds, deltas);
        assert(mf.round as int * b >= 0) by (nonlinear_arith)
            requires
                mf.round >= 0,
                b >= 1,
        ;
    }
}

/// The reduction's upward bias preserves the "never fire early" guarantee
/// for the threshold it was computed from: a narrow detector whose
/// `base * rounds` covers `t` ticks cannot fire before `t` ticks really
/// elapsed, for each of its fires.
pub proof fn lemma_round_never_early_for(t: u64, base: u32, rounds: u64, deltas: Seq<u32>)
    requires
        base >= 1,
        base as int * rounds as int >= t,
    ensures
        round_fire_count(base, rounds, deltas) * t <= sum_of(widen_deltas(deltas)),
{
    lemma_round_never_early(base, rounds, deltas);
    let k = round_fire_count(base, rounds, deltas);
    assert(k * t <= k * (base as int * rounds as int)) by (nonlinear_arith)
        requires
            k >= 0,
            t <= base as int * rounds as int,
    ;
}

/// A timeout detector equivalent to [`crate::TickTimeoutState`] but holding
/// its hot-path state in 32 bits: the threshold is kept in reduced
/// `(base, rounds)` form and the accumulator never exceeds the base.
pub struct RoundTimeoutState<T: TickCounter> {
    tick: T,
    base: u32,
    rounds: u64,
    elapsed_tick: u32,
    round: u64,
}

impl<T: TickCounter> RoundTimeoutState<T> {
    /// The per-round threshold, in ticks.
    pub closed spec fn spec_base(&self) -> u32 {
        self.base
    }

    /// The round target: how many completed bases make one fire.
    pub closed spec fn spec_rounds(&self) -> u64 {
        self.rounds
    }

    /// The accumulated progress: completed rounds and sub-round ticks.
    pub closed spec fn model(&self) -> RoundModel {
        RoundModel { acc: self.elapsed_tick, round: self.round }
    }

    /// The detector's internal invariant: the threshold is in reduced form
    /// and the accumulator stays below the base.
    pub open spec fn wf(&self) -> bool {
        &&& self.spec_base() <= BASE_LIMIT
        &&& self.spec_rounds() >= 1
        &&& if self.spec_base() == 0 {
            self.model().acc == 0
        } else {
            self.model().acc < self.spec_base()
        }
    }

    /// Arms a detector for a threshold of `timeout_tick` ticks, reducing it
    /// to narrow form.
    pub fn new(timeout_tick: u64) -> (s: Self)
        ensures
            s.wf(),
            s.spec_base() as int == reduced(timeout_tick as int).0,
            s.spec_rounds() as int == reduced(timeout_tick as int).1,
            s.model() == (RoundModel { acc: 0, round: 0 }),
    {
        let (base, rounds) = reduce_threshold(timeout_tick);
        RoundTimeoutState { tick: T::sample(), base, rounds, elapsed_tick: 0, round: 0 }
    }

    /// Arms a detector for `timeout` nanoseconds, rounded up to whole ticks.
    pub fn new_ns(timeout: u32) -> (s: Self)
        ensures
            s.wf(),
            s.spec_base() as int == reduced(
                ticks_of_unit(timeout as int, T::spec_frequency() as int, 1_000_000),
            ).0,
            s.spec_rounds() as int == reduced(
                ticks_of_unit(timeout as int, T::spec_frequency() as int, 1_000_000),
            ).1,
            s.model() == (RoundModel { acc: 0, round: 0 }),
    {
        Self::new(TickDuration::<T>::nanos(timeout).as_ticks())
    }

    /// Arms a detector for `timeout` microseconds, rounded up to whole ticks.
    pub fn new_us(timeout: u32) -> (s: Self)
        ensures
            s.wf(),
            s.spec_base() as int == reduced(
                ticks_of_unit(timeout as int, T::spec_frequency() as int, 1_000),
            ).0,
            s.spec_rounds() as int == reduced(
                ticks_of_unit(timeout as int, T::spec_frequency() as int, 1_000),
            ).1,
            s.model() == (RoundModel { acc: 0, round: 0 }),
    {
        Self::new(TickDuration::<T>::micros(timeout).as_ticks())
    }

    /// Arms a detector for `timeout` milliseconds (an exact conversion).
    pub fn new_ms(timeout: u32) -> (s: Self)
        ensures
            s.wf(),
            s.spec_base() as int == reduced(
                ticks_of_unit(timeout as int, T::spec_frequency() as int, 1),
            ).0,
            s.spec_rounds() as int == reduced(
                ticks_of_unit(timeout as int, T::spec_frequency() as int, 1),
            ).1,
            s.model() == (RoundModel { acc: 0, round: 0 }),
    {
        Self::new(TickDuration::<T>::millis(timeout).as_ticks())
    }

    /// The per-round threshold, in ticks.
    pub fn base(&self) -> (b: u32)
        ensures
            b == self.spec_base(),
    {
        self.base
    }

    /// The round target.
    pub fn rounds(&self) -> (r: u64)
        ensures
            r == self.spec_rounds(),
    {
        self.rounds
    }

    /// Polls the detector: samples the counter, absorbs the ticks since the
    /// previous sample into the accumulator and the round counter, and
    /// reports whether the round target was reached. On firing, the target
    /// is consumed and excess rounds carry forward.
    ///
    /// How many ticks the poll measures depends on the clock alone; whatever
    /// the measurement, the detector takes exactly one [`round_polled`] step
    /// by it.
    pub fn timeout(&mut self) -> (fired: bool)
        requires
            old(self).wf(),
        ensures
            final(self).wf(),
            final(self).spec_base() == old(self).spec_base(),
            final(self).spec_rounds() == old(self).spec_rounds(),
            exists|d: u32|
                #[trigger] round_polled(
                    old(self).spec_base(),
                    old(self).spec_rounds(),
                    old(self).model(),
                    final(self).model(),
                    fired,
                    d,
                ),
    {
        let now = T::sample();
        let d: u32 = now.tick_since(&self.tick);
        self.tick = now;
        if self.base == 0 {
            proof {
                assert(round_polled(
                    old(self).spec_base(),
                    old(self).spec_rounds(),
                    old(self).model(),
                    self.model(),
                    true,
                    d,
                ));
            }
            return true;
        }
        let ghost before = self.model();
        let space: u32 = self.base - self.elapsed_tick;
        if d >= space {
            let beyond: u32 = d - space;
            let gained: u32 = beyond / self.base + 1;
            let rem: u32 = beyond % self.base;
            proof {
                let b = self.base as int;
                let total = before.acc + d;
                // total == base + beyond, so absorbing gains one round for
                // the completed base plus one per whole base in the excess.
                lemma_div_plus_one(beyond as int, b);
                lemma_mod_add_multiples_vanish(beyond as int, b);
                lemma_mod_division_less_than_divisor(beyond as int, b);
            }
            self.round = self.round.saturating_add(gained as u64);
            self.elapsed_tick = rem;
        } else {
            proof {
                let b = self.base as int;
                lemma_basic_div(before.acc + d, b);
                lemma_small_mod((before.acc + d) as nat, b as nat);
            }
            self.elapsed_tick = self.elapsed_tick + d;
        }
        proof {
            assert(self.model() == round_absorb(old(self).spec_base(), before, d));
        }
        let fired: bool;
        if self.round >= self.rounds {
            self.round = self.round - self.rounds;
            fired = true;
        } else {
            fired = false;
        }
        proof {
            assert(round_polled(
                old(self).spec_base(),
                old(self).spec_rounds(),
                old(self).model(),
                self.model(),
                fired,
                d,
            ));
        }
        fired
    }

    /// Discards all accumulated progress and re-arms from the current
    /// counter sample: the full threshold must elapse before the next fire.
    pub fn restart(&mut self)
        ensures
            old(self).wf() ==> final(self).wf(),
            final(self).spec_base() == old(self).spec_base(),
            final(self).spec_rounds() == old(self).spec_rounds(),
            final(self).model() == (RoundModel { acc: 0, round: 0 }),
    {
        self.tick = T::sample();
        self.elapsed_tick = 0;
        self.round = 0;
    }
}

} // verus!
