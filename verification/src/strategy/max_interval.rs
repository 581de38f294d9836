use vstd::prelude::*;

use crate::strategy::Policy;

verus! {

/// Declares std::time::Instant, an opaque reading of the monotonic clock.
#[verifier::external_type_specification]
#[verifier::external_body]
pub struct ExInstant(std::time::Instant);

/// Relies on std::time::Instant::now: the monotonic clock's reading for
/// this moment.
#[verifier::external_body]
fn instant_now() -> std::time::Instant {
    std::time::Instant::now()
}

/// Relies on std::time::Instant::elapsed: the time passed since `start`.
/// The value depends on the clock, so nothing is promised of it.
#[verifier::external_body]
fn instant_elapsed(start: &std::time::Instant) -> core::time::Duration {
    start.elapsed()
}

/// Relies on core::time::Duration::as_millis: the duration expressed in
/// whole milliseconds.
#[verifier::external_body]
fn duration_as_millis(d: core::time::Duration) -> u128 {
    d.as_millis()
}

/// Wraps a policy, applying a wall-clock ceiling measured from the moment
/// of construction, after which the policy stops producing values.
pub trait MaxInterval: Policy {
    /// Applies a wall-clock ceiling, in milliseconds, to the policy. Same
    /// as [`MaxInterval::max_duration`].
    fn max_interval(self, max_interval: u64) -> (r: MaxIntervalIterator<Self>)
        ensures
            r.iter == self,
            r.max_duration == max_interval,
            !r.expired,
    {
        MaxIntervalIterator {
            iter: self,
            start: instant_now(),
            max_duration: max_interval,
            expired: false,
        }
    }

    /// Applies a wall-clock ceiling, in milliseconds, to the policy: once
    /// that much time has passed since this call, the policy stops
    /// producing values.
    fn max_duration(self, max_duration: u64) -> (r: MaxIntervalIterator<Self>)
        ensures
            r.iter == self,
            r.max_duration == max_duration,
            !r.expired,
    {
        MaxIntervalIterator {
            iter: self,
            start: instant_now(),
            max_duration,
            expired: false,
        }
    }
}

impl<P: Policy> MaxInterval for P {

}

/// A policy wrapper with an applied wall-clock ceiling, created by the
/// [`MaxInterval::max_interval`] function.
#[derive(Debug)]
pub struct MaxIntervalIterator<P> {
    pub iter: P,
    pub start: std::time::Instant,
    pub max_duration: u64,
    pub expired: bool,
}

impl<P: Policy> Policy for MaxIntervalIterator<P> {
    open spec fn next_rel(pre: Self, produced: Option<u64>, post: Self) -> bool {
        if pre.expired {
            produced == None::<u64> && post == pre
        } else {
            ||| (produced == None::<u64> && post == (MaxIntervalIterator {
                expired: true,
                ..pre
            }))
            ||| (P::next_rel(pre.iter, produced, post.iter) && post.start == pre.start
                && post.max_duration == pre.max_duration && !post.expired)
        }
    }

    fn next(&mut self) -> (produced: Option<u64>) {
        if self.expired {
            return None;
        }
        let elapsed = duration_as_millis(instant_elapsed(&self.start));
        if elapsed > self.max_duration as u128 {
            self.expired = true;
            None
        } else {
            self.iter.next()
        }
    }
}

/// Law: once a wall-clock-bounded policy has expired, it yields no further
/// values and its state no longer changes, however many values were
/// already consumed.
pub proof fn lemma_expired_yields_nothing<P: Policy>(
    pre: MaxIntervalIterator<P>,
    produced: Option<u64>,
    post: MaxIntervalIterator<P>,
)
    requires
        pre.expired,
        MaxIntervalIterator::<P>::next_rel(pre, produced, post),
    ensures
        produced == None::<u64>,
        post == pre,
{
}

} // verus!
