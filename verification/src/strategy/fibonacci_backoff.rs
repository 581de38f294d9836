use vstd::arithmetic::mul::lemma_mul_upper_bound;
use vstd::prelude::*;

use crate::strategy::{nth_delay, Policy, StepPolicy};

verus! {

/// Clamps a value to `u64::MAX`, the ceiling at which the fibonacci
/// progression freezes instead of overflowing.
pub open spec fn sat_u64(x: int) -> int {
    if x > u64::MAX as int {
        u64::MAX as int
    } else {
        x
    }
}

/// A retry policy driven by the fibonacci series.
///
/// Each retry uses a delay which is the sum of the two previous delays.
///
/// Depending on the problem at hand, a fibonacci policy might perform
/// better and lead to better throughput than exponential back-off.
#[derive(Debug, Clone)]
pub struct FibonacciBackoff {
    pub current: u64,
    pub next: u64,
    pub factor: u64,
    pub max_delay: Option<u64>,
}

impl FibonacciBackoff {
    /// Constructs a new fibonacci back-off policy, given a base duration in
    /// milliseconds.
    pub fn from_millis(millis: u64) -> (r: FibonacciBackoff)
        ensures
            r == (FibonacciBackoff {
                current: millis,
                next: millis,
                factor: 1u64,
                max_delay: None,
            }),
    {
        FibonacciBackoff { current: millis, next: millis, factor: 1, max_delay: None }
    }

    /// A multiplicative factor that will be applied to the retry delay.
    ///
    /// For example, using a factor of `1000` will make each delay in units
    /// of seconds. Default factor is `1`.
    pub fn factor(self, factor: u64) -> (r: FibonacciBackoff)
        ensures
            r == (FibonacciBackoff { factor, ..self }),
    {
        FibonacciBackoff { factor, ..self }
    }

    /// Apply a maximum delay: no retry delay will be longer than this
    /// number of milliseconds.
    pub fn max_delay(self, millis: u64) -> (r: FibonacciBackoff)
        ensures
            r == (FibonacciBackoff { max_delay: Some(millis), ..self }),
    {
        FibonacciBackoff { max_delay: Some(millis), ..self }
    }

    /// Apply a maximum delay: no retry delay will be longer than this
    /// number of milliseconds.
    pub fn max_delay_millis(self, millis: u64) -> (r: FibonacciBackoff)
        ensures
            r == (FibonacciBackoff { max_delay: Some(millis), ..self }),
    {
        self.max_delay(millis)
    }

    /// The state after one uncapped `next` call: the pair slides one step
    /// along the fibonacci recurrence, the sum saturating at `u64::MAX`.
    pub open spec fn advanced(self) -> FibonacciBackoff {
        FibonacciBackoff {
            current: self.next,
            next: sat_u64(self.current + self.next) as u64,
            ..self
        }
    }
}

/// One `next` call of the fibonacci policy: the saturated product of the
/// stored value and the factor is produced, the ceiling replacing it (and
/// freezing the state) once exceeded.
pub open spec fn fibonacci_step(pre: FibonacciBackoff) -> (Option<u64>, FibonacciBackoff) {
    let delay = sat_u64(pre.current * pre.factor) as u64;
    match pre.max_delay {
        Some(m) => if delay > m {
            (Some(m), pre)
        } else {
            (Some(delay), pre.advanced())
        },
        None => (Some(delay), pre.advanced()),
    }
}

impl Policy for FibonacciBackoff {
    open spec fn next_rel(pre: Self, produced: Option<u64>, post: Self) -> bool {
        (produced, post) == fibonacci_step(pre)
    }

    fn next(&mut self) -> (produced: Option<u64>) {
        proof {
            lemma_mul_upper_bound(
                self.current as int,
                u64::MAX as int,
                self.factor as int,
                u64::MAX as int,
            );
        }
        let raw: u128 = (self.current as u128) * (self.factor as u128);
        let delay: u64 = if raw > u64::MAX as u128 {
            u64::MAX
        } else {
            raw as u64
        };
        if let Some(m) = self.max_delay {
            if delay > m {
                return Some(m);
            }
        }
        let sum: u128 = (self.current as u128) + (self.next as u128);
        self.current = self.next;
        self.next = if sum > u64::MAX as u128 {
            u64::MAX
        } else {
            sum as u64
        };
        Some(delay)
    }
}

impl StepPolicy for FibonacciBackoff {
    open spec fn step(pre: Self) -> (Option<u64>, Self) {
        fibonacci_step(pre)
    }
}

/// The fibonacci-style progression seeded with `base` twice: the value at
/// index zero and one is `base`, and every later value is the sum of the
/// two before it, saturating at `u64::MAX`.
pub open spec fn fib_value(base: nat, n: nat) -> int
    decreases n,
{
    if n == 0 || n == 1 {
        base as int
    } else {
        sat_u64(fib_value(base, (n - 1) as nat) + fib_value(base, (n - 2) as nat))
    }
}

/// The progression stays within `u64` range when the seed does.
proof fn lemma_fib_value_bounds(base: nat, n: nat)
    requires
        base <= u64::MAX,
    ensures
        0 <= fib_value(base, n) <= u64::MAX,
    decreases n,
{
    if n >= 2 {
        lemma_fib_value_bounds(base, (n - 1) as nat);
        lemma_fib_value_bounds(base, (n - 2) as nat);
    }
}

/// A run of `n` calls starting from the pair at index `k` produces the
/// value at index `k + n`.
proof fn lemma_fib_run(s: FibonacciBackoff, b: nat, k: nat, n: nat)
    requires
        b <= u64::MAX,
        s.max_delay is None,
        s.current == fib_value(b, k),
        s.next == fib_value(b, k + 1),
    ensures
        nth_delay(s, n) == Some(sat_u64(fib_value(b, k + n) * s.factor) as u64),
    decreases n,
{
    lemma_fib_value_bounds(b, k);
    lemma_fib_value_bounds(b, k + 1);
    let (produced0, post0) = fibonacci_step(s);
    if n == 0 {
        assert(nth_delay(s, 0) == produced0);
    } else {
        assert(fib_value(b, k + 2) == sat_u64(fib_value(b, k + 1) + fib_value(b, k)));
        assert(post0 == s.advanced());
        assert(s.advanced().current == fib_value(b, k + 1));
        assert(s.advanced().next == fib_value(b, k + 2));
        lemma_fib_run(s.advanced(), b, k + 1, (n - 1) as nat);
        assert(nth_delay(s, n) == nth_delay(s.advanced(), (n - 1) as nat));
    }
}

/// Law: once the raw fibonacci value exceeds the configured ceiling, the
/// state freezes and every later delay equals the ceiling exactly.
pub proof fn lemma_fibonacci_saturates(s: FibonacciBackoff, m: u64, n: nat)
    requires
        s.max_delay == Some(m),
        sat_u64(s.current * s.factor) > m,
    ensures
        nth_delay(s, n) == Some(m),
    decreases n,
{
    if n > 0 {
        lemma_fibonacci_saturates(s, m, (n - 1) as nat);
    }
}

/// Law: with no ceiling configured, the raw delay sequence follows the
/// fibonacci recurrence seeded with the base twice: the `n`-th produced
/// delay is the `n`-th fibonacci-style value times the factor, saturating
/// at `u64::MAX`.
pub proof fn lemma_fibonacci_nth(base: u64, factor: u64, n: nat)
    ensures
        nth_delay(
            FibonacciBackoff { current: base, next: base, factor, max_delay: None },
            n,
        ) == Some(sat_u64(fib_value(base as nat, n) * factor) as u64),
{
    let s = FibonacciBackoff { current: base, next: base, factor, max_delay: None };
    lemma_fib_run(s, base as nat, 0, n);
}

} // verus!
