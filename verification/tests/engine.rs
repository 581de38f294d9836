use tokio_retry2::strategy::{FixedInterval, Policy};
use tokio_retry2::{retry_if_step, retry_step, Condition, Notify, RetryDecision, RetryError};

/// Drives the decision core the way a host runtime would, with the waits
/// left out: runs `action` until the engine declares the operation over,
/// recording every (error, delay) pair the notifier would observe.
fn drive<P, T, E, A>(policy: &mut P, mut action: A, notified: &mut Vec<(E, u64)>) -> (Result<T, E>, usize)
where
    P: Policy,
    E: Clone,
    A: FnMut(usize) -> Result<T, RetryError<E>>,
{
    let mut attempts: usize = 0;
    loop {
        attempts += 1;
        let outcome = action(attempts);
        match retry_step(policy, outcome, true) {
            RetryDecision::Finished(r) => return (r, attempts),
            RetryDecision::RetryAfter { error, delay } => {
                notified.push((error.clone(), delay));
            }
        }
    }
}

#[test]
fn empty_policy_attempts_just_once() {
    let mut policy = FixedInterval::from_millis(100).take(0);
    let mut notified: Vec<(u64, u64)> = Vec::new();
    let (result, attempts) = drive(
        &mut policy,
        |_attempt| RetryError::to_transient::<()>(42),
        &mut notified,
    );
    assert_eq!(result, Err(42));
    assert_eq!(attempts, 1);
    assert_eq!(notified, Vec::new());
}

#[test]
fn attempts_until_max_retries_exceeded() {
    let mut policy = FixedInterval::from_millis(100).take(2);
    let mut notified: Vec<(u64, u64)> = Vec::new();
    let (result, attempts) = drive(
        &mut policy,
        |_attempt| RetryError::to_transient::<()>(42),
        &mut notified,
    );
    assert_eq!(result, Err(42));
    assert_eq!(attempts, 3);
    assert_eq!(notified, vec![(42, 100), (42, 100)]);
}

#[test]
fn attempts_until_success() {
    let mut policy = FixedInterval::from_millis(100);
    let mut notified: Vec<(u64, u64)> = Vec::new();
    let (result, attempts) = drive(
        &mut policy,
        |attempt| {
            if attempt < 4 {
                RetryError::to_transient(42)
            } else {
                Ok(())
            }
        },
        &mut notified,
    );
    assert_eq!(result, Ok(()));
    assert_eq!(attempts, 4);
}

#[test]
fn doesnt_attempt_on_permanent() {
    let mut policy = FixedInterval::from_millis(10).take(3);
    let mut notified: Vec<(u64, u64)> = Vec::new();
    let (result, attempts) = drive(
        &mut policy,
        |_attempt| RetryError::to_permanent::<()>(42),
        &mut notified,
    );
    assert_eq!(result, Err(42));
    assert_eq!(attempts, 1);
    assert_eq!(notified, Vec::new());
}

#[test]
fn explicit_retry_after_overrides_the_policy_delay() {
    let mut policy = FixedInterval::from_millis(999);
    let mut notified: Vec<(u64, u64)> = Vec::new();
    let (result, attempts) = drive(
        &mut policy,
        |attempt| {
            if attempt < 2 {
                RetryError::to_retry_after(42, 100)
            } else {
                Ok(())
            }
        },
        &mut notified,
    );
    assert_eq!(result, Ok(()));
    assert_eq!(attempts, 2);
    assert_eq!(notified, vec![(42, 100)]);
}

struct RejectLargeErrors;

impl Condition<usize> for RejectLargeErrors {
    fn should_retry(&mut self, error: &usize) -> bool {
        *error < 3
    }
}

#[test]
fn condition_stops_the_loop_at_the_first_rejected_error() {
    let mut policy = FixedInterval::from_millis(100).take(5);
    let mut condition = RejectLargeErrors;
    let mut notified: Vec<(usize, u64)> = Vec::new();
    let mut attempts: usize = 0;
    let result: Result<(), usize> = loop {
        attempts += 1;
        let outcome: Result<(), RetryError<usize>> = RetryError::to_transient(attempts);
        match retry_if_step(&mut policy, outcome, &mut condition) {
            RetryDecision::Finished(r) => break r,
            RetryDecision::RetryAfter { error, delay } => {
                notified.push((error, delay));
            }
        }
    };
    assert_eq!(result, Err(3));
    assert_eq!(attempts, 3);
    assert_eq!(notified, vec![(1, 100), (2, 100)]);
}

struct RecordingNotifier {
    seen: Vec<(u64, u64)>,
}

impl Notify<u64> for RecordingNotifier {
    fn notify(&mut self, err: &u64, duration: u64) {
        self.seen.push((*err, duration));
    }
}

#[test]
fn notifier_observes_the_explicit_retry_after_duration() {
    let mut policy = FixedInterval::from_millis(999);
    let mut notifier = RecordingNotifier { seen: Vec::new() };
    let mut attempts: usize = 0;
    let result: Result<(), u64> = loop {
        attempts += 1;
        let outcome: Result<(), RetryError<u64>> = if attempts < 2 {
            RetryError::to_retry_after(42, 100)
        } else {
            Ok(())
        };
        match retry_step(&mut policy, outcome, true) {
            RetryDecision::Finished(r) => break r,
            RetryDecision::RetryAfter { error, delay } => {
                notifier.notify(&error, delay);
            }
        }
    };
    assert_eq!(result, Ok(()));
    assert_eq!(notifier.seen, vec![(42, 100)]);
}

#[test]
fn success_is_returned_without_consulting_the_policy() {
    let mut policy = FixedInterval::from_millis(100).take(1);
    let outcome: Result<u64, RetryError<u64>> = Ok(7);
    match retry_step(&mut policy, outcome, true) {
        RetryDecision::Finished(r) => assert_eq!(r, Ok(7)),
        RetryDecision::RetryAfter { .. } => panic!("a success must end the operation"),
    }
    // the policy still holds its one value
    assert_eq!(policy.next(), Some(100));
}
