//! Retry support built from two verified pieces: a classification layer
//! that marks an error as permanent or transient, and a family of backoff
//! policies that produce the delay before each new attempt.
//!
//! The decision core of the retry loop lives in [`retry_step`] and
//! [`retry_if_step`]: each consumes the outcome of one attempt together
//! with a policy and says whether the operation is over or how long to
//! wait before the next attempt. A host runtime supplies the waiting and
//! the repeated runs of the action. Delays are measured in whole
//! milliseconds throughout.

mod action;
mod condition;
mod engine;
mod error;
mod notify;
pub mod strategy;

pub use action::Action;
pub use condition::Condition;
pub use engine::{retry_if_step, retry_step, RetryDecision};
pub use error::Error;
pub use error::Error as RetryError;
pub use error::{MapErr, RetryResult};
pub use notify::Notify;
