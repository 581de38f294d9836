use vstd::arithmetic::mul::{lemma_mul_inequality, lemma_mul_upper_bound};
use vstd::arithmetic::power::{lemma_pow_increases, lemma_pow_positive, pow};
use vstd::prelude::*;

use crate::strategy::{nth_delay, Policy, StepPolicy};

verus! {

/// The largest single delay the exponential policy produces: `u32::MAX`
/// milliseconds, about 49.7 days. The progression saturates here instead of
/// overflowing.
pub const MAX_EXPONENTIAL_MILLIS: u64 = 0xFFFF_FFFF;

/// Clamps a value to [`MAX_EXPONENTIAL_MILLIS`].
pub open spec fn sat_u32(x: int) -> int {
    if x > MAX_EXPONENTIAL_MILLIS as int {
        MAX_EXPONENTIAL_MILLIS as int
    } else {
        x
    }
}

/// A retry policy driven by exponential back-off: the `n`-th delay is
/// `base` to the `n`-th power, times an optional constant factor, in
/// milliseconds.
#[derive(Debug, Clone)]
pub struct ExponentialBackoff {
    pub current: u64,
    pub base: u64,
    pub factor: u64,
    pub max_delay: Option<u64>,
}

impl ExponentialBackoff {
    /// Constructs a new exponential back-off policy, given a base duration
    /// in milliseconds.
    ///
    /// The resulting delay is calculated by taking the base to the `n`-th
    /// power, where `n` denotes the number of past attempts.
    pub fn from_millis(base: u64) -> (r: ExponentialBackoff)
        ensures
            r == (ExponentialBackoff { current: base, base, factor: 1u64, max_delay: None }),
    {
        ExponentialBackoff { current: base, base, factor: 1, max_delay: None }
    }

    /// A multiplicative factor applied to every delay.
    ///
    /// For example, using a factor of `1000` will make each delay in units
    /// of seconds. Default factor is `1`.
    pub fn factor(self, factor: u64) -> (r: ExponentialBackoff)
        ensures
            r == (ExponentialBackoff { factor, ..self }),
    {
        ExponentialBackoff { factor, ..self }
    }

    /// Apply a maximum delay: no retry delay will be longer than this
    /// number of milliseconds.
    pub fn max_delay(self, millis: u64) -> (r: ExponentialBackoff)
        ensures
            r == (ExponentialBackoff { max_delay: Some(millis), ..self }),
    {
        ExponentialBackoff { max_delay: Some(millis), ..self }
    }

    /// Apply a maximum delay: no retry delay will be longer than this
    /// number of milliseconds.
    pub fn max_delay_millis(self, millis: u64) -> (r: ExponentialBackoff)
        ensures
            r == (ExponentialBackoff { max_delay: Some(millis), ..self }),
    {
        self.max_delay(millis)
    }

    /// The state after one uncapped `next` call: the stored value advances
    /// by one multiplication with the base, saturating at the ceiling.
    pub open spec fn advanced(self) -> ExponentialBackoff {
        ExponentialBackoff { current: sat_u32(self.current * self.base) as u64, ..self }
    }
}

/// One `next` call of the exponential policy: the saturated product of the
/// stored value and the factor is produced, the ceiling replacing it (and
/// freezing the state) once exceeded.
pub open spec fn exponential_step(pre: ExponentialBackoff) -> (Option<u64>, ExponentialBackoff) {
    let delay = sat_u32(pre.current * pre.factor) as u64;
    match pre.max_delay {
        Some(m) => if delay > m {
            (Some(m), pre)
        } else {
            (Some(delay), pre.advanced())
        },
        None => (Some(delay), pre.advanced()),
    }
}

impl Policy for ExponentialBackoff {
    open spec fn next_rel(pre: Self, produced: Option<u64>, post: Self) -> bool {
        (produced, post) == exponential_step(pre)
    }

    fn next(&mut self) -> (produced: Option<u64>) {
        proof {
            lemma_mul_upper_bound(
                self.current as int,
                u64::MAX as int,
                self.factor as int,
                u64::MAX as int,
            );
        }
        let raw: u128 = (self.current as u128) * (self.factor as u128);
        let delay: u64 = if raw > MAX_EXPONENTIAL_MILLIS as u128 {
            MAX_EXPONENTIAL_MILLIS
        } else {
            raw as u64
        };
        if let Some(m) = self.max_delay {
            if delay > m {
                return Some(m);
            }
        }
        proof {
            lemma_mul_upper_bound(
                self.current as int,
                u64::MAX as int,
                self.base as int,
                u64::MAX as int,
            );
        }
        let progression: u128 = (self.current as u128) * (self.base as u128);
        self.current = if progression > MAX_EXPONENTIAL_MILLIS as u128 {
            MAX_EXPONENTIAL_MILLIS
        } else {
            progression as u64
        };
        Some(delay)
    }
}

impl StepPolicy for ExponentialBackoff {
    open spec fn step(pre: Self) -> (Option<u64>, Self) {
        exponential_step(pre)
    }
}

/// The raw (pre-ceiling) value of the `n`-th exponential delay:
/// `current * base^n * factor`, saturated at [`MAX_EXPONENTIAL_MILLIS`].
pub open spec fn exponential_raw(s: ExponentialBackoff, n: nat) -> int {
    sat_u32(s.current * pow(s.base as int, n) * s.factor)
}

/// The `n`-th delay of the exponential policy: the raw value where it stays
/// under the configured ceiling, and the ceiling itself everywhere else.
pub open spec fn exponential_delay(s: ExponentialBackoff, n: nat) -> u64 {
    match s.max_delay {
        Some(m) => if exponential_raw(s, n) > m {
            m
        } else {
            exponential_raw(s, n) as u64
        },
        None => exponential_raw(s, n) as u64,
    }
}

/// `sat_u32` absorbs an inner clamp under multiplication by a nonnegative
/// value.
proof fn lemma_sat_u32_mul_absorb(x: int, y: int)
    requires
        0 <= x,
        0 <= y,
    ensures
        sat_u32(sat_u32(x) * y) == sat_u32(x * y),
{
    let m = MAX_EXPONENTIAL_MILLIS as int;
    if x > m {
        if y == 0 {
            assert(m * y == 0 && x * y == 0) by (nonlinear_arith)
                requires y == 0;
        } else {
            assert(m * y >= m) by (nonlinear_arith)
                requires y >= 1, m >= 0;
            assert(x * y >= x) by (nonlinear_arith)
                requires y >= 1, x >= 0;
        }
    }
}

/// Shifts one factor of the base out of the stored value and into the
/// power: one progression step followed by `n - 1` powers of the base is
/// the same raw value as `n` powers of the base.
proof fn lemma_sat_u32_shift(c: int, b: int, p1: int, f: int)
    requires
        0 <= c,
        0 <= b,
        0 <= p1,
        0 <= f,
    ensures
        sat_u32(sat_u32(c * b) * p1 * f) == sat_u32(c * (b * p1) * f),
{
    let x = c * b;
    assert(0 <= x) by (nonlinear_arith)
        requires x == c * b, 0 <= c, 0 <= b;
    let z = p1 * f;
    assert(0 <= z) by (nonlinear_arith)
        requires z == p1 * f, 0 <= p1, 0 <= f;
    assert(sat_u32(x) * p1 * f == sat_u32(x) * z) by (nonlinear_arith)
        requires z == p1 * f;
    lemma_sat_u32_mul_absorb(x, z);
    assert(x * z == c * (b * p1) * f) by (nonlinear_arith)
        requires x == c * b, z == p1 * f;
}

/// The raw exponential value never shrinks as the call index grows, as
/// long as the base is at least one.
proof fn lemma_exponential_raw_monotone(s: ExponentialBackoff, n1: nat, n2: nat)
    requires
        s.base >= 1,
        n1 <= n2,
    ensures
        exponential_raw(s, n1) <= exponential_raw(s, n2),
{
    let p1 = pow(s.base as int, n1);
    let p2 = pow(s.base as int, n2);
    lemma_pow_increases(s.base as nat, n1, n2);
    lemma_pow_positive(s.base as int, n1);
    lemma_mul_inequality(p1, p2, s.current as int);
    assert(s.current as int * p1 == p1 * s.current as int) by (nonlinear_arith);
    assert(s.current as int * p2 == p2 * s.current as int) by (nonlinear_arith);
    lemma_mul_inequality(s.current as int * p1, s.current as int * p2, s.factor as int);
}

/// Law: for every call index `n`, the `n`-th delay the exponential policy
/// produces equals `current * base^n * factor` saturated at
/// [`MAX_EXPONENTIAL_MILLIS`], capped by the configured ceiling; starting
/// from a fresh policy this is `min(base^(n+1), ceiling)` with factor one.
pub proof fn lemma_exponential_nth(s: ExponentialBackoff, n: nat)
    requires
        s.base >= 1,
    ensures
        nth_delay(s, n) == Some(exponential_delay(s, n)),
    decreases n,
{
    let (produced0, post0) = exponential_step(s);
    vstd::arithmetic::power::lemma_pow0(s.base as int);
    assert(exponential_raw(s, 0) == sat_u32(s.current * pow(s.base as int, 0) * s.factor));
    assert(s.current * pow(s.base as int, 0) * s.factor == s.current * s.factor)
        by (nonlinear_arith)
        requires pow(s.base as int, 0) == 1;
    if n == 0 {
        assert(nth_delay(s, 0) == produced0);
    } else {
        let capped = match s.max_delay {
            Some(m) => sat_u32(s.current * s.factor) > m,
            None => false,
        };
        if capped {
            assert(post0 == s);
            lemma_exponential_nth(s, (n - 1) as nat);
            lemma_exponential_raw_monotone(s, 0, (n - 1) as nat);
            lemma_exponential_raw_monotone(s, 0, n);
            assert(nth_delay(s, n) == nth_delay(s, (n - 1) as nat));
        } else {
            assert(post0 == s.advanced());
            lemma_exponential_nth(s.advanced(), (n - 1) as nat);
            // the raw value of the advanced state, one call earlier, is the
            // raw value of the original state at this call
            let b = s.base as int;
            let p1 = pow(b, (n - 1) as nat);
            lemma_pow_positive(b, (n - 1) as nat);
            assert(pow(b, n) == b * p1) by {
                reveal(pow);
            }
            lemma_sat_u32_shift(s.current as int, b, p1, s.factor as int);
            assert(exponential_raw(s.advanced(), (n - 1) as nat) == exponential_raw(s, n));
            assert(nth_delay(s, n) == nth_delay(s.advanced(), (n - 1) as nat));
        }
    }
}

/// Law: once the raw exponential value reaches the configured ceiling,
/// every later delay equals the ceiling exactly.
pub proof fn lemma_exponential_saturates(s: ExponentialBackoff, m: u64, n1: nat, n2: nat)
    requires
        s.base >= 1,
        s.max_delay == Some(m),
        exponential_raw(s, n1) >= m,
        n1 <= n2,
    ensures
        nth_delay(s, n2) == Some(m),
{
    lemma_exponential_nth(s, n2);
    lemma_exponential_raw_monotone(s, n1, n2);
}

} // verus!
