//! Repeating note timers.
//!
//! A `NoteTimer` is a repeating countdown bound to one `NoteKind`. Its
//! period comes from the duration math; when no duration can be derived
//! the period is the zero sentinel and the timer is disabled: it never
//! fires. Ticking advances an accumulator and reports how many whole
//! periods elapsed; the accumulator keeps the remainder, so repeated
//! ticking never drifts. Updating the timer re-targets the new period
//! while keeping the fraction of the period already elapsed.

use vstd::prelude::*;
use vstd::arithmetic::div_mod::{
    lemma_fundamental_div_mod,
    lemma_mod_division_less_than_divisor,
    lemma_mod_self_0,
    lemma_multiply_divide_lt,
};
use vstd::arithmetic::mul::{
    lemma_mul_is_commutative,
    lemma_mul_is_distributive_add_other_way,
    lemma_mul_strict_inequality,
    lemma_mul_upper_bound,
};
use crate::timing::{AudioInfo, NoteKind};

verus! {

/// A repeating countdown for one note kind. `period` and `elapsed` are
/// in nanoseconds; a zero period disables the timer.
#[derive(Clone, Copy, Debug, PartialEq)]
pub struct NoteTimer {
    pub kind: NoteKind,
    pub period: u64,
    pub elapsed: u64,
}

/// The period a fresh or re-targeted timer gets: the note's duration,
/// or the zero sentinel when none can be derived.
pub open spec fn period_nanos(kind: NoteKind, info: AudioInfo) -> u64 {
    if info.valid() {
        crate::timing::note_nanos(kind, info) as u64
    } else {
        0u64
    }
}

/// The state of a freshly constructed timer.
pub open spec fn fresh_timer(kind: NoteKind, info: AudioInfo) -> NoteTimer {
    NoteTimer { kind, period: period_nanos(kind, info), elapsed: 0u64 }
}

/// How many times a timer fires when ticked by `delta` nanoseconds.
pub open spec fn spec_fires(t: NoteTimer, delta: u64) -> int {
    if t.period == 0 {
        0
    } else {
        (t.elapsed + delta) / (t.period as int)
    }
}

/// The timer after a tick by `delta` nanoseconds: the accumulator keeps
/// the remainder of the whole periods that passed.
pub open spec fn spec_ticked(t: NoteTimer, delta: u64) -> NoteTimer {
    if t.period == 0 {
        t
    } else {
        NoteTimer {
            kind: t.kind,
            period: t.period,
            elapsed: ((t.elapsed + delta) % (t.period as int)) as u64,
        }
    }
}

/// The timer after re-targeting to the durations of `info`: the new
/// period replaces the old one and the accumulator is rescaled so the
/// fraction of the period already elapsed is kept (rounded down).
pub open spec fn spec_updated(t: NoteTimer, info: AudioInfo) -> NoteTimer {
    let p = period_nanos(t.kind, info);
    if p == 0 {
        NoteTimer { kind: t.kind, period: 0u64, elapsed: 0u64 }
    } else if t.period == 0 {
        NoteTimer { kind: t.kind, period: p, elapsed: t.elapsed }
    } else {
        NoteTimer { kind: t.kind, period: p, elapsed: ((t.elapsed * p) / (t.period as int)) as u64 }
    }
}

/// A run of ticks: the final timer and the total number of fires.
pub open spec fn spec_run(t: NoteTimer, deltas: Seq<u64>) -> (NoteTimer, int)
    decreases deltas.len(),
{
    if deltas.len() == 0 {
        (t, 0)
    } else {
        let rest = spec_run(spec_ticked(t, deltas[0]), deltas.drop_first());
        (rest.0, spec_fires(t, deltas[0]) + rest.1)
    }
}

impl NoteTimer {
    /// The accumulator never reaches the period, and a disabled timer
    /// holds no progress.
    pub open spec fn wf(self) -> bool {
        if self.period == 0 {
            self.elapsed == 0
        } else {
            self.elapsed < self.period
        }
    }

    /// A repeating timer for one note of `kind`; disabled when no
    /// duration can be derived from `info`.
    pub fn new(kind: NoteKind, info: &AudioInfo) -> (t: NoteTimer)
        ensures
            t == fresh_timer(kind, *info),
            t.wf(),
    {
        let period: u64 = match kind.length(info) {
            Ok(p) => p,
            Err(_) => 0,
        };
        NoteTimer { kind, period, elapsed: 0 }
    }

    /// Advance the timer by `delta` nanoseconds. Returns how many times
    /// it fired: zero, one, or more if `delta` spans several periods.
    /// A disabled timer never fires and does not change.
    pub fn tick(&mut self, delta: u64) -> (fires: u64)
        requires
            old(self).wf(),
            old(self).elapsed + delta <= u64::MAX,
        ensures
            fires == spec_fires(*old(self), delta),
            *final(self) == spec_ticked(*old(self), delta),
            final(self).wf(),
    {
        if self.period == 0 {
            return 0;
        }
        let total: u64 = self.elapsed + delta;
        let fires: u64 = total / self.period;
        self.elapsed = total % self.period;
        fires
    }

    /// Re-target the timer to the durations of `info` without losing
    /// progress: the fraction of the period already elapsed is kept,
    /// rounded down to the nanosecond. When `info` defines no duration
    /// the timer is disabled.
    pub fn update(&mut self, info: &AudioInfo)
        requires
            old(self).wf(),
        ensures
            *final(self) == spec_updated(*old(self), *info),
            final(self).wf(),
    {
        let p: u64 = match self.kind.length(info) {
            Ok(x) => x,
            Err(_) => 0,
        };
        if p == 0 {
            self.period = 0;
            self.elapsed = 0;
        } else if self.period == 0 {
            self.period = p;
        } else {
            proof {
                lemma_mul_upper_bound(
                    self.elapsed as int,
                    u64::MAX as int,
                    p as int,
                    u64::MAX as int,
                );
            }
            let scaled: u128 = (self.elapsed as u128) * (p as u128) / (self.period as u128);
            proof {
                lemma_mul_strict_inequality(self.elapsed as int, self.period as int, p as int);
                lemma_multiply_divide_lt(self.elapsed * p, self.period as int, p as int);
            }
            self.elapsed = scaled as u64;
            self.period = p;
        }
    }
}

impl Default for NoteTimer {
    /// A disabled whole-note timer.
    fn default() -> (t: Self)
        ensures
            t == (NoteTimer { kind: NoteKind::Whole, period: 0u64, elapsed: 0u64 }),
            t.wf(),
    {
        NoteTimer { kind: NoteKind::Whole, period: 0, elapsed: 0 }
    }
}

/// Law: a disabled timer never fires and never changes, over any run of
/// ticks.
pub proof fn lemma_disabled_timer_never_fires(t: NoteTimer, deltas: Seq<u64>)
    requires
        t.period == 0,
    ensures
        spec_run(t, deltas).1 == 0,
        spec_run(t, deltas).0 == t,
    decreases deltas.len(),
{
    if deltas.len() > 0 {
        lemma_disabled_timer_never_fires(t, deltas.drop_first());
    }
}

/// Law: a timer starting at rest and ticked with steps of exactly one
/// period fires exactly once per step and returns to rest each time:
/// no drift accumulates over the run.
pub proof fn lemma_exact_steps_no_drift(t: NoteTimer, deltas: Seq<u64>)
    requires
        t.wf(),
        t.period > 0,
        t.elapsed == 0,
        forall|i: int| 0 <= i < deltas.len() ==> deltas[i] == t.period,
    ensures
        spec_run(t, deltas).1 == deltas.len(),
        spec_run(t, deltas).0 == t,
    decreases deltas.len(),
{
    if deltas.len() > 0 {
        let p = t.period as int;
        lemma_mod_self_0(p);
        lemma_fundamental_div_mod(p, p);
        assert(spec_fires(t, deltas[0]) == 1);
        assert(spec_ticked(t, deltas[0]) == t);
        lemma_exact_steps_no_drift(t, deltas.drop_first());
    }
}

/// Law: re-targeting a live timer keeps the fraction of the period
/// already elapsed, rounded down to the nanosecond: the new accumulator
/// is the largest one whose fraction of the new period does not exceed
/// the old fraction, and the fractions are equal whenever the rescaling
/// is exact.
pub proof fn lemma_update_preserves_progress(t: NoteTimer, info: AudioInfo)
    requires
        t.wf(),
        t.period > 0,
        period_nanos(t.kind, info) > 0,
    ensures
        spec_updated(t, info).elapsed == (t.elapsed * period_nanos(t.kind, info)) / (
        t.period as int),
        spec_updated(t, info).elapsed * t.period <= t.elapsed * period_nanos(t.kind, info),
        t.elapsed * period_nanos(t.kind, info) < (spec_updated(t, info).elapsed + 1) * (
        t.period as int),
        (t.elapsed * period_nanos(t.kind, info)) % (t.period as int) == 0 ==> spec_updated(
            t,
            info,
        ).elapsed * t.period == t.elapsed * period_nanos(t.kind, info),
{
    let p = period_nanos(t.kind, info);
    let per = t.period as int;
    let product = t.elapsed * p;
    let q = product / per;
    lemma_mul_strict_inequality(t.elapsed as int, per, p as int);
    lemma_multiply_divide_lt(product, per, p as int);
    lemma_fundamental_div_mod(product, per);
    lemma_mod_division_less_than_divisor(product, per);
    lemma_mul_is_commutative(q, per);
    lemma_mul_is_distributive_add_other_way(per, q, 1);
    assert(product == per * q + product % per);
    assert(q * per <= product);
    assert(product < (q + 1) * per);
}

} // verus!
