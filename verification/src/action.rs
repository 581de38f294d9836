use vstd::prelude::*;

verus! {

/// An action can be run multiple times, each run producing a fresh pending
/// computation.
///
/// The pending computation is opaque here: a host runtime drives it to a
/// `Result` of [`Item`](Action::Item) against a classified
/// [`Error`](Action::Error), which the retry engine then consumes. Any
/// state the action captures must tolerate repeated invocation.
pub trait Action {
    /// The pending computation that one run produces.
    type Future;

    /// The item the computation may resolve with.
    type Item;

    /// The error payload the computation may resolve with.
    type Error;

    fn run(&mut self) -> Self::Future;
}

} // verus!
