//! The animation clock and emphasis flag.
//!
//! The clock advances by a fixed increment of one hundredth of a unit
//! per tick, independent of wall-clock drift, so the time is always
//! exactly the tick count times the increment. The emphasis flag is
//! flipped by the render pass, twice per frame.

use vstd::prelude::*;

verus! {

/// Clock increment per tick (`0.01` in millionths).
pub const TICK_STEP: i64 = 10_000;

/// Largest tick count the clock accepts; the resulting time still lies
/// within the range the displacement accepts.
pub const MAX_TICKS: u64 = 1_000_000;

/// The mutable per-frame animation state: the tick count, the clock,
/// and the emphasis flag.
pub struct AnimationState {
    /// Number of ticks taken so far.
    pub ticks: u64,
    /// The animation clock, always `ticks * TICK_STEP`.
    pub t: i64,
    /// The draw-emphasis flag, toggled twice within each render pass.
    pub emphasis: bool,
}

impl AnimationState {
    /// The clock is exactly the tick count times the increment, and
    /// the tick count has not outrun the clock's range.
    pub open spec fn wf(self) -> bool {
        self.t == self.ticks * (TICK_STEP as int) && self.ticks <= MAX_TICKS
    }

    /// The initial state: no ticks, clock at zero, emphasis set.
    pub fn new() -> (s: AnimationState)
        ensures
            s.ticks == 0,
            s.t == 0,
            s.emphasis == true,
            s.wf(),
    {
        AnimationState { ticks: 0, t: 0, emphasis: true }
    }

    /// One tick: the clock advances by exactly the fixed increment and
    /// never decreases; the emphasis flag is untouched.
    pub fn tick(&mut self)
        requires
            old(self).wf(),
            old(self).ticks < MAX_TICKS,
        ensures
            final(self).wf(),
            final(self).ticks == old(self).ticks + 1,
            final(self).t == old(self).t + TICK_STEP,
            final(self).t > old(self).t,
            final(self).emphasis == old(self).emphasis,
    {
        proof {
            let k = old(self).ticks as int;
            assert((k + 1) * (TICK_STEP as int) == k * (TICK_STEP as int) + TICK_STEP)
                by (nonlinear_arith);
        }
        self.ticks = self.ticks + 1;
        self.t = self.t + TICK_STEP;
    }
}

/// The clock law: after `n` ticks from the initial state the clock
/// reads exactly `n` times the increment, and it only ever increases.
pub proof fn lemma_clock_follows_ticks(s: AnimationState)
    requires
        s.wf(),
    ensures
        s.t == s.ticks * (TICK_STEP as int),
        s.t >= 0,
{
    assert(s.ticks * (TICK_STEP as int) >= 0) by (nonlinear_arith)
        requires s.ticks >= 0;
}

} // verus!
