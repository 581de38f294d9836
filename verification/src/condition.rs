use vstd::prelude::*;

verus! {

/// A predicate gating whether a transient error should actually be
/// retried: `true` means "keep retrying". Implementations are supplied by
/// the caller, so nothing is assumed of the verdict.
pub trait Condition<E> {
    fn should_retry(&mut self, error: &E) -> bool;
}

} // verus!
