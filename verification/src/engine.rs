use vstd::prelude::*;

use crate::condition::Condition;
use crate::error::Error;
use crate::strategy::Policy;

verus! {

/// What the retry engine decides after one attempt: either the operation
/// is over, or the action should be run once more after a delay.
pub enum RetryDecision<T, E> {
    /// The operation is over: the success value, or the payload of the
    /// error that caused termination, stripped of its classification.
    Finished(Result<T, E>),
    /// Wait for `delay` milliseconds, then run the action again. `error`
    /// is the transient error that led here, handed back so the caller can
    /// pass it to a notifier before the wait.
    RetryAfter { error: E, delay: u64 },
}

/// One turn of the retry loop, with the condition's verdict already taken:
/// consumes the outcome of one attempt and decides how to go on.
///
/// A success and a permanent error end the operation at once, without
/// consulting the policy. A transient error with `retry_allowed` false
/// ends it too, surfacing the payload. Otherwise the policy is consumed
/// once — also when the error carries its own `retry_after` delay, which
/// then overrides the produced value — and its exhaustion ends the
/// operation with the last error.
pub fn retry_step<P: Policy, T, E>(
    policy: &mut P,
    outcome: Result<T, Error<E>>,
    retry_allowed: bool,
) -> (d: RetryDecision<T, E>)
    ensures
        match outcome {
            Ok(v) => *final(policy) == *old(policy) && d == RetryDecision::<T, E>::Finished(
                Ok(v),
            ),
            Err(Error::Permanent(e)) => *final(policy) == *old(policy) && d == RetryDecision::<
                T,
                E,
            >::Finished(Err(e)),
            Err(Error::Transient { err, retry_after }) => if !retry_allowed {
                *final(policy) == *old(policy) && d == RetryDecision::<T, E>::Finished(Err(err))
            } else {
                exists|produced: Option<u64>|
                    {
                        &&& #[trigger] P::next_rel(*old(policy), produced, *final(policy))
                        &&& match produced {
                            None => d == RetryDecision::<T, E>::Finished(Err(err)),
                            Some(ms) => d == (RetryDecision::<T, E>::RetryAfter {
                                error: err,
                                delay: match retry_after {
                                    Some(ra) => ra,
                                    None => ms,
                                },
                            }),
                        }
                    }
            },
        },
{
    match outcome {
        Ok(v) => RetryDecision::Finished(Ok(v)),
        Err(Error::Permanent(err)) => RetryDecision::Finished(Err(err)),
        Err(Error::Transient { err, retry_after }) => {
            if !retry_allowed {
                return RetryDecision::Finished(Err(err));
            }
            match policy.next() {
                None => RetryDecision::Finished(Err(err)),
                Some(ms) => {
                    let delay: u64 = match retry_after {
                        Some(ra) => ra,
                        None => ms,
                    };
                    RetryDecision::RetryAfter { error: err, delay }
                },
            }
        },
    }
}

/// One turn of the retry loop guarded by a condition: on a transient error
/// the condition is asked first, and a rejected error ends the operation
/// as if it were permanent. Successes, permanent errors and the policy are
/// treated exactly as in [`retry_step`].
pub fn retry_if_step<P: Policy, T, E, C: Condition<E>>(
    policy: &mut P,
    outcome: Result<T, Error<E>>,
    condition: &mut C,
) -> (d: RetryDecision<T, E>)
    ensures
        match outcome {
            Ok(v) => *final(policy) == *old(policy) && d == RetryDecision::<T, E>::Finished(
                Ok(v),
            ),
            Err(Error::Permanent(e)) => *final(policy) == *old(policy) && d == RetryDecision::<
                T,
                E,
            >::Finished(Err(e)),
            Err(Error::Transient { err, retry_after }) => {
                ||| (*final(policy) == *old(policy) && d == RetryDecision::<T, E>::Finished(
                    Err(err),
                ))
                ||| exists|produced: Option<u64>|
                    {
                        &&& #[trigger] P::next_rel(*old(policy), produced, *final(policy))
                        &&& match produced {
                            None => d == RetryDecision::<T, E>::Finished(Err(err)),
                            Some(ms) => d == (RetryDecision::<T, E>::RetryAfter {
                                error: err,
                                delay: match retry_after {
                                    Some(ra) => ra,
                                    None => ms,
                                },
                            }),
                        }
                    }
            },
        },
{
    match outcome {
        Ok(v) => retry_step(policy, Ok(v), true),
        Err(Error::Permanent(err)) => retry_step(policy, Err(Error::Permanent(err)), true),
        Err(Error::Transient { err, retry_after }) => {
            let allowed = condition.should_retry(&err);
            retry_step(policy, Err(Error::Transient { err, retry_after }), allowed)
        },
    }
}

} // verus!

