use vstd::prelude::*;

verus! {

/// Relies on rand::random: a `u64` drawn from the thread-local random
/// number generator. Every value is possible, so nothing is promised of
/// the result.
#[verifier::external_body]
fn random_u64() -> u64 {
    rand::random()
}

/// Applies jitter to a delay in milliseconds: the result lies in
/// `[d / 2, d / 2 + d)` and never equals `d` itself, so concurrent
/// retriers sharing a policy cannot stay synchronised. A delay of at most
/// one millisecond collapses to zero, and near `u64::MAX` the upper end
/// saturates.
pub fn jitter(millis: u64) -> (r: u64)
    ensures
        millis <= 1 ==> r == 0,
        millis >= 2 ==> millis / 2 <= r,
        millis >= 2 && millis / 2 + millis <= u64::MAX ==> r < millis / 2 + millis && r
            != millis,
{
    if millis <= 1 {
        return 0;
    }
    let span: u64 = millis - 1;
    let k: u64 = random_u64() % span;
    let half: u64 = millis / 2;
    let candidate: u128 = (half as u128) + (k as u128);
    let out: u128 = if candidate < millis as u128 {
        candidate
    } else {
        candidate + 1
    };
    if out > u64::MAX as u128 {
        u64::MAX
    } else {
        out as u64
    }
}

} // verus!
