//! Backoff policies: lazy sequences of millisecond delays consumed by the
//! retry engine, one value per retry.

mod exponential_backoff;
mod fibonacci_backoff;
mod fixed_interval;
mod jitter;
mod max_interval;

pub use self::exponential_backoff::{
    exponential_delay, exponential_raw, exponential_step, lemma_exponential_nth,
    lemma_exponential_saturates, sat_u32, ExponentialBackoff, MAX_EXPONENTIAL_MILLIS,
};
pub use self::fibonacci_backoff::{
    fib_value, fibonacci_step, lemma_fibonacci_nth, lemma_fibonacci_saturates, sat_u64,
    FibonacciBackoff,
};
pub use self::fixed_interval::{fixed_interval_step, lemma_fixed_interval_nth, FixedInterval};
pub use self::jitter::jitter;
pub use self::max_interval::lemma_expired_yields_nothing;
pub use self::max_interval::{MaxInterval, MaxIntervalIterator};

use vstd::prelude::*;

verus! {

/// A backoff policy: a stateful, lazy, possibly infinite sequence of delays,
/// in milliseconds. Each `next` call consumes one element.
pub trait Policy: Sized {
    /// The transition relation of the policy: it relates the state before a
    /// `next` call, the produced value, and the state after the call.
    spec fn next_rel(pre: Self, produced: Option<u64>, post: Self) -> bool;

    /// Produces the delay to wait before the next attempt, or `None` when
    /// the policy is exhausted.
    fn next(&mut self) -> (produced: Option<u64>)
        ensures
            Self::next_rel(*old(self), produced, *final(self)),
    ;

    /// Truncates the policy to its first `count` values, capping the number
    /// of retries.
    fn take(self, count: usize) -> (r: Take<Self>)
        ensures
            r == (Take { inner: self, remaining: count }),
    {
        Take { inner: self, remaining: count }
    }
}

/// A policy whose whole behaviour is a function of its state: one `next`
/// call from a given state always produces the same value and successor.
pub trait StepPolicy: Policy {
    /// The produced value and the successor state of one `next` call.
    spec fn step(pre: Self) -> (Option<u64>, Self);
}

/// The value produced by the `n`-th `next` call (counting from zero) on a
/// deterministic policy that starts in state `s`.
pub open spec fn nth_delay<P: StepPolicy>(s: P, n: nat) -> Option<u64>
    decreases n,
{
    if n == 0 {
        P::step(s).0
    } else {
        nth_delay(P::step(s).1, (n - 1) as nat)
    }
}

/// A policy truncated to a fixed number of values, created by
/// [`Policy::take`].
#[derive(Debug, Clone)]
pub struct Take<P> {
    pub inner: P,
    pub remaining: usize,
}

impl<P: Policy> Policy for Take<P> {
    open spec fn next_rel(pre: Self, produced: Option<u64>, post: Self) -> bool {
        if pre.remaining == 0 {
            produced == None::<u64> && post == pre
        } else {
            &&& post.remaining == pre.remaining - 1
            &&& P::next_rel(pre.inner, produced, post.inner)
        }
    }

    fn next(&mut self) -> (produced: Option<u64>) {
        if self.remaining == 0 {
            None
        } else {
            self.remaining = self.remaining - 1;
            self.inner.next()
        }
    }
}

} // verus!
