//! What a worker is told about the task that it is about to run.

use crate::duration::Duration;
use vstd::prelude::*;

verus! {

/// The answer of a rate limiter.
///
/// Its view is the time to wait in nanoseconds, or `None` where the task may run.
#[derive(Debug, Clone, Copy, PartialEq, Eq)]
pub enum RateLimitDecision {
    /// The task may run now.
    Allowed,
    /// The task has to wait.
    Limited {
        /// How long to wait.
        retry_after: Duration,
    },
}

impl View for RateLimitDecision {
    type V = Option<nat>;

    open spec fn view(&self) -> Option<nat> {
        match *self {
            RateLimitDecision::Allowed => None,
            RateLimitDecision::Limited { retry_after } => Some(retry_after@),
        }
    }
}

/// Why a check came to no decision.
#[derive(Debug, PartialEq, Eq)]
#[non_exhaustive]
pub enum Error {
    /// The database could not do its part, and may be able to later. Holds the
    /// message that it gave.
    Retryable(String),
}

impl View for Error {
    type V = Seq<char>;

    /// The message.
    open spec fn view(&self) -> Seq<char> {
        match *self {
            Error::Retryable(message) => message@,
        }
    }
}

} // verus!
