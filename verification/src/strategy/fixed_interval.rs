use vstd::prelude::*;

use crate::strategy::{nth_delay, Policy, StepPolicy};

verus! {

/// A retry policy driven by a fixed interval: every produced delay equals
/// the configured base.
#[derive(Debug, Clone)]
pub struct FixedInterval {
    pub millis: u64,
}

impl FixedInterval {
    /// Constructs a new fixed-interval policy, given a base duration in
    /// milliseconds.
    pub fn from_millis(millis: u64) -> (r: FixedInterval)
        ensures
            r == (FixedInterval { millis }),
    {
        FixedInterval { millis }
    }
}

/// One `next` call of the fixed-interval policy: the base is produced and
/// the state is unchanged.
pub open spec fn fixed_interval_step(pre: FixedInterval) -> (Option<u64>, FixedInterval) {
    (Some(pre.millis), pre)
}

impl Policy for FixedInterval {
    open spec fn next_rel(pre: Self, produced: Option<u64>, post: Self) -> bool {
        (produced, post) == fixed_interval_step(pre)
    }

    fn next(&mut self) -> (produced: Option<u64>) {
        Some(self.millis)
    }
}

impl StepPolicy for FixedInterval {
    open spec fn step(pre: Self) -> (Option<u64>, Self) {
        fixed_interval_step(pre)
    }
}

/// Law: whatever the call index `n`, the `n`-th delay a fixed-interval
/// policy produces equals its configured base, unconditionally.
pub proof fn lemma_fixed_interval_nth(s: FixedInterval, n: nat)
    ensures
        nth_delay(s, n) == Some(s.millis),
    decreases n,
{
    if n > 0 {
        lemma_fixed_interval_nth(FixedInterval::step(s).1, (n - 1) as nat);
    }
}

} // verus!
