use vstd::prelude::*;

verus! {

/// An observer invoked with the error and the chosen delay, in
/// milliseconds, before each wait. Implementations are supplied by the
/// caller and perform an arbitrary side effect, such as logging.
pub trait Notify<E> {
    fn notify(&mut self, err: &E, duration: u64);
}

} // verus!
