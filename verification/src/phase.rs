//! The animation phase: a scalar angle that advances by a fixed step once per
//! tick and wraps back to zero once it passes a full turn.
//!
//! The phase is held in fixed point, in ten-millionths of a radian, so the
//! step of one hundredth of a radian is `PHASE_STEP` units and a full turn is
//! `TWO_PI_UNITS` units.

use vstd::prelude::*;

verus! {

/// One tick's increment of the phase: one hundredth of a radian, in
/// ten-millionths of a radian.
pub const PHASE_STEP: u32 = 100_000;

/// A full turn, in ten-millionths of a radian (two pi, rounded to this
/// resolution).
pub const TWO_PI_UNITS: u32 = 62_831_853;

/// The value of the phase after one tick: increment by `PHASE_STEP`, and
/// wrap to zero when the incremented value passes `TWO_PI_UNITS`. The
/// comparison is strict, so a phase that lands exactly on `TWO_PI_UNITS`
/// stays there until the next tick resets it.
pub open spec fn spec_advance(t: int) -> int {
    if t + PHASE_STEP > TWO_PI_UNITS {
        0
    } else {
        t + PHASE_STEP
    }
}

/// The value of the phase after `n` ticks.
pub open spec fn spec_advance_n(t: int, n: nat) -> int
    decreases n,
{
    if n == 0 {
        t
    } else {
        spec_advance_n(spec_advance(t), (n - 1) as nat)
    }
}

/// The animation parameter driving all rotations, cyclic over one turn.
/// Only the frame-loop driver mutates it.
pub struct AnimationState {
    t: u32,
}

impl View for AnimationState {
    type V = int;

    closed spec fn view(&self) -> int {
        self.t as int
    }
}

impl AnimationState {
    /// The phase never leaves `[0, TWO_PI_UNITS]`; it can sit exactly on the
    /// upper bound for one tick because the wrap comparison is strict.
    pub open spec fn wf(self) -> bool {
        0 <= self@ <= TWO_PI_UNITS
    }

    /// A fresh animation starts with the phase at zero.
    pub fn new() -> (r: AnimationState)
        ensures
            r@ == 0,
            r.wf(),
    {
        AnimationState { t: 0 }
    }

    /// The current phase, in ten-millionths of a radian.
    pub fn units(&self) -> (r: u32)
        ensures
            r as int == self@,
    {
        self.t
    }

    /// One tick of the increment-and-wrap rule.
    pub fn advance(&mut self)
        requires
            old(self).wf(),
        ensures
            final(self)@ == spec_advance(old(self)@),
            final(self).wf(),
    {
        self.t = self.t + PHASE_STEP;
        if self.t > TWO_PI_UNITS {
            self.t = 0;
        }
    }
}

/// Ticking from `t0` wraps to zero on the `n`-th tick when the distance to a
/// full turn lies strictly between `(n - 1)` and `n` steps.
proof fn lemma_advance_n_wraps(t0: int, n: nat)
    requires
        0 <= t0 < TWO_PI_UNITS,
        n >= 1,
        (n - 1) * PHASE_STEP < TWO_PI_UNITS - t0 < n * PHASE_STEP,
    ensures
        spec_advance_n(t0, n) == 0,
    decreases n,
{
    assert(spec_advance_n(t0, n) == spec_advance_n(spec_advance(t0), (n - 1) as nat));
    if n == 1 {
        assert(spec_advance(t0) == 0);
        assert(spec_advance_n(0, 0) == 0);
    } else {
        assert(spec_advance(t0) == t0 + PHASE_STEP);
        lemma_advance_n_wraps(t0 + PHASE_STEP, (n - 1) as nat);
    }
}

/// Wrap correctness: from any phase `t0` in `[0, TWO_PI_UNITS)` whose
/// distance to a full turn is not an exact multiple of the step, applying the
/// increment-and-wrap rule exactly `ceil((TWO_PI_UNITS - t0) / PHASE_STEP)`
/// times yields a value in `[0, PHASE_STEP)` (in fact exactly zero). When the
/// distance is an exact multiple of the step, the final tick lands exactly on
/// `TWO_PI_UNITS` and the strict wrap comparison leaves it there, so those
/// starting points are excluded.
pub proof fn lemma_wrap_after_ceil_ticks(t0: int)
    requires
        0 <= t0 < TWO_PI_UNITS,
        (TWO_PI_UNITS - t0) % (PHASE_STEP as int) != 0,
    ensures
        0 <= spec_advance_n(
            t0,
            ((TWO_PI_UNITS - t0 + PHASE_STEP - 1) / (PHASE_STEP as int)) as nat,
        ) < PHASE_STEP,
{
    let d: int = TWO_PI_UNITS - t0;
    let q: int = (d + PHASE_STEP - 1) / (PHASE_STEP as int);
    vstd::arithmetic::div_mod::lemma_fundamental_div_mod(
        d + PHASE_STEP - 1,
        PHASE_STEP as int,
    );
    let r: int = (d + PHASE_STEP - 1) % (PHASE_STEP as int);
    assert(d + PHASE_STEP - 1 == PHASE_STEP * q + r);
    assert((q - 1) * PHASE_STEP < d);
    assert(d <= q * PHASE_STEP);
    if d == q * PHASE_STEP {
        vstd::arithmetic::div_mod::lemma_mod_multiples_basic(q, PHASE_STEP as int);
        assert(d % (PHASE_STEP as int) == 0);
    }
    assert(d < q * PHASE_STEP);
    lemma_advance_n_wraps(t0, q as nat);
}

} // verus!
