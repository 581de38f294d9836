use vstd::prelude::*;

verus! {

/// `Error` is the error value in an action's retry result.
///
/// Based on the two possible values, the operation may be retried.
#[derive(Debug)]
pub enum Error<E> {
    /// `Permanent` means that it's impossible to execute the operation
    /// successfully. This error is an early return from the retry operation.
    Permanent(E),
    /// `Transient` means that the error is temporary. If `retry_after` is
    /// `None` the operation should be retried according to the policy, else
    /// after the given number of milliseconds. Useful for handling rate
    /// limits like an HTTP 429 response.
    Transient { err: E, retry_after: Option<u64> },
}

impl<E> Error<E> {
    /// Creates a permanent error.
    pub fn permanent(err: E) -> (r: Self)
        ensures
            r == Error::<E>::Permanent(err),
    {
        Error::Permanent(err)
    }

    /// Creates a `Result::Err` container with a permanent error.
    pub fn to_permanent<T>(err: E) -> (r: Result<T, Self>)
        ensures
            r == Result::<T, Self>::Err(Error::Permanent(err)),
    {
        Err(Error::Permanent(err))
    }

    /// Creates a transient error which is retried according to the policy.
    pub fn transient(err: E) -> (r: Self)
        ensures
            r == (Error::<E>::Transient { err, retry_after: None }),
    {
        Error::Transient { err, retry_after: None }
    }

    /// Creates a `Result::Err` container with a transient error which is
    /// retried according to the policy.
    pub fn to_transient<T>(err: E) -> (r: Result<T, Self>)
        ensures
            r == Result::<T, Self>::Err(Error::Transient { err, retry_after: None }),
    {
        Err(Error::Transient { err, retry_after: None })
    }

    /// Creates a `Result::Err` container with a transient error which is
    /// retried after the given number of milliseconds.
    pub fn to_retry_after<T>(err: E, millis: u64) -> (r: Result<T, Self>)
        ensures
            r == Result::<T, Self>::Err(Error::Transient { err, retry_after: Some(millis) }),
    {
        Err(Error::Transient { err, retry_after: Some(millis) })
    }

    /// Creates a transient error which is retried after the given number of
    /// milliseconds.
    pub fn retry_after(err: E, millis: u64) -> (r: Self)
        ensures
            r == (Error::<E>::Transient { err, retry_after: Some(millis) }),
    {
        Error::Transient { err, retry_after: Some(millis) }
    }

    /// The wrapped error payload, for either variant.
    pub fn payload(&self) -> (r: &E)
        ensures
            r == self.spec_payload(),
    {
        match self {
            Error::Permanent(err) => err,
            Error::Transient { err, retry_after: _ } => err,
        }
    }

    /// The payload carried by either variant.
    pub open spec fn spec_payload(&self) -> &E {
        match self {
            Error::Permanent(err) => err,
            Error::Transient { err, retry_after: _ } => err,
        }
    }
}

impl<E: PartialEq> PartialEq for Error<E> {
    /// Two classified errors are equal when they carry the same tag, the same
    /// payload and, for transient errors, the same `retry_after` value.
    fn eq(&self, other: &Self) -> bool {
        match (self, other) {
            (Error::Permanent(self_err), Error::Permanent(other_err)) => self_err == other_err,
            (
                Error::Transient { err: self_err, retry_after: self_retry_after },
                Error::Transient { err: other_err, retry_after: other_retry_after },
            ) => self_err == other_err && self_retry_after == other_retry_after,
            _ => false,
        }
    }
}

impl<E: PartialEq> vstd::std_specs::cmp::PartialEqSpecImpl for Error<E> {
    open spec fn obeys_eq_spec() -> bool {
        <E as vstd::std_specs::cmp::PartialEqSpec>::obeys_eq_spec()
    }

    open spec fn eq_spec(&self, other: &Self) -> bool {
        match (self, other) {
            (Error::Permanent(self_err), Error::Permanent(other_err)) => vstd::std_specs::cmp::PartialEqSpec::eq_spec(self_err, other_err),
            (
                Error::Transient { err: self_err, retry_after: self_retry_after },
                Error::Transient { err: other_err, retry_after: other_retry_after },
            ) => vstd::std_specs::cmp::PartialEqSpec::eq_spec(self_err, other_err)
                && self_retry_after == other_retry_after,
            _ => false,
        }
    }
}

/// By default all errors are transient. Permanent errors can be constructed
/// explicitly. This implementation makes the question mark operator (`?`)
/// lift a bare payload into the classification layer.
impl<E> From<E> for Error<E> {
    fn from(err: E) -> Error<E> {
        Error::Transient { err, retry_after: None }
    }
}

impl<E> vstd::std_specs::convert::FromSpecImpl<E> for Error<E> {
    open spec fn obeys_from_spec() -> bool {
        true
    }

    open spec fn from_spec(err: E) -> Error<E> {
        Error::Transient { err, retry_after: None }
    }
}

/// Lifts a plain `Result` into the classification layer, tagging the error
/// side as transient or permanent.
pub trait MapErr<T, E>: Sized {
    /// The value `map_transient` returns.
    spec fn map_transient_spec(self) -> Result<T, Error<E>>;

    /// The value `map_permanent` returns.
    spec fn map_permanent_spec(self) -> Result<T, Error<E>>;

    /// Keeps `Ok` as is and tags the error as transient.
    fn map_transient(self) -> (r: Result<T, Error<E>>)
        ensures
            r == self.map_transient_spec(),
    ;

    /// Keeps `Ok` as is and tags the error as permanent.
    fn map_permanent(self) -> (r: Result<T, Error<E>>)
        ensures
            r == self.map_permanent_spec(),
    ;
}

impl<T, E> MapErr<T, E> for Result<T, E> {
    open spec fn map_transient_spec(self) -> Result<T, Error<E>> {
        match self {
            Ok(t) => Ok(t),
            Err(e) => Err(Error::Transient { err: e, retry_after: None }),
        }
    }

    open spec fn map_permanent_spec(self) -> Result<T, Error<E>> {
        match self {
            Ok(t) => Ok(t),
            Err(e) => Err(Error::Permanent(e)),
        }
    }

    fn map_transient(self) -> (r: Result<T, Error<E>>) {
        match self {
            Ok(t) => Ok(t),
            Err(e) => Err(Error::transient(e)),
        }
    }

    fn map_permanent(self) -> (r: Result<T, Error<E>>) {
        match self {
            Ok(t) => Ok(t),
            Err(e) => Err(Error::permanent(e)),
        }
    }
}

/// A retry outcome with the classification layer spelled out, for call sites
/// that prefer a dedicated type over `Result<T, Error<E>>`.
#[derive(Debug, PartialEq)]
pub enum RetryResult<T, E> {
    Success(T),
    Failure(Error<E>),
}

impl<T, E> From<Result<T, Error<E>>> for RetryResult<T, E> {
    fn from(r: Result<T, Error<E>>) -> RetryResult<T, E> {
        match r {
            Ok(t) => Self::Success(t),
            Err(e) => Self::Failure(e),
        }
    }
}

impl<T, E> vstd::std_specs::convert::FromSpecImpl<Result<T, Error<E>>> for RetryResult<T, E> {
    open spec fn obeys_from_spec() -> bool {
        true
    }

    open spec fn from_spec(r: Result<T, Error<E>>) -> RetryResult<T, E> {
        match r {
            Ok(t) => RetryResult::Success(t),
            Err(e) => RetryResult::Failure(e),
        }
    }
}

impl<T, E> From<Result<T, E>> for RetryResult<T, E> {
    fn from(r: Result<T, E>) -> RetryResult<T, E> {
        match r {
            Ok(t) => Self::Success(t),
            Err(e) => Self::Failure(Error::Transient { err: e, retry_after: None }),
        }
    }
}

impl<T, E> vstd::std_specs::convert::FromSpecImpl<Result<T, E>> for RetryResult<T, E> {
    open spec fn obeys_from_spec() -> bool {
        true
    }

    open spec fn from_spec(r: Result<T, E>) -> RetryResult<T, E> {
        match r {
            Ok(t) => RetryResult::Success(t),
            Err(e) => RetryResult::Failure(Error::Transient { err: e, retry_after: None }),
        }
    }
}

impl<T, E> From<RetryResult<T, E>> for Result<T, Error<E>> {
    fn from(value: RetryResult<T, E>) -> Result<T, Error<E>> {
        match value {
            RetryResult::Success(t) => Ok(t),
            RetryResult::Failure(error) => Err(error),
        }
    }
}

impl<T, E> vstd::std_specs::convert::FromSpecImpl<RetryResult<T, E>> for Result<T, Error<E>> {
    open spec fn obeys_from_spec() -> bool {
        true
    }

    open spec fn from_spec(value: RetryResult<T, E>) -> Result<T, Error<E>> {
        match value {
            RetryResult::Success(t) => Ok(t),
            RetryResult::Failure(error) => Err(error),
        }
    }
}

impl<T> From<Option<T>> for RetryResult<T, String> {
    /// A missing value becomes a transient error, so that an `Option`
    /// producer can take part in the retry loop.
    fn from(r: Option<T>) -> RetryResult<T, String> {
        match r {
            Some(t) => Self::Success(t),
            None => Self::Failure(
                Error::Transient { err: "transient error".to_string(), retry_after: None },
            ),
        }
    }
}

impl<T> vstd::std_specs::convert::FromSpecImpl<Option<T>> for RetryResult<T, String> {
    open spec fn obeys_from_spec() -> bool {
        false
    }

    open spec fn from_spec(r: Option<T>) -> RetryResult<T, String> {
        match r {
            Some(t) => RetryResult::Success(t),
            None => RetryResult::Failure(
                Error::Transient { err: arbitrary(), retry_after: None },
            ),
        }
    }
}

impl<T: PartialEq, E: PartialEq> PartialEq<RetryResult<T, E>> for Result<T, Error<E>> {
    /// A plain retry result and a `RetryResult` are equal when both are `Ok`
    /// with equal values or both are `Err` with equal classified errors.
    fn eq(&self, other: &RetryResult<T, E>) -> bool {
        match (self, other) {
            (Ok(self_t), RetryResult::Success(other_t)) => self_t == other_t,
            (Err(self_err), RetryResult::Failure(other_err)) => self_err == other_err,
            _ => false,
        }
    }
}

impl<T: PartialEq, E: PartialEq> vstd::std_specs::cmp::PartialEqSpecImpl<RetryResult<T, E>> for Result<T, Error<E>> {
    open spec fn obeys_eq_spec() -> bool {
        <T as vstd::std_specs::cmp::PartialEqSpec>::obeys_eq_spec()
            && <E as vstd::std_specs::cmp::PartialEqSpec>::obeys_eq_spec()
    }

    open spec fn eq_spec(&self, other: &RetryResult<T, E>) -> bool {
        match (self, other) {
            (Ok(self_t), RetryResult::Success(other_t)) => vstd::std_specs::cmp::PartialEqSpec::eq_spec(self_t, other_t),
            (Err(self_err), RetryResult::Failure(other_err)) => vstd::std_specs::cmp::PartialEqSpec::eq_spec(self_err, other_err),
            _ => false,
        }
    }
}

} // verus!
