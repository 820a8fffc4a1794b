//! Fault taxonomy of the upstream RPC gateway.
//!
//! Every adapter call ends in one of these classes. `NotFound` is an
//! expected outcome on this class of chain (skipped slots, unconfirmed
//! transactions), never an error to propagate; `UpstreamUnavailable`
//! and `RateLimited` are retryable; `InvalidInput` is raised before any
//! network round-trip.

use vstd::prelude::*;

verus! {

/// Why an upstream read did not produce a value.
#[derive(Clone, Copy, Debug, PartialEq, Eq, Structural)]
pub enum FetchError {
    /// The key failed format validation before any network call.
    InvalidInput,
    /// The key is well-formed but absent upstream (skipped slot,
    /// unconfirmed transaction). Expected, non-exceptional.
    NotFound,
    /// Connection or timeout failure talking to the upstream node.
    UpstreamUnavailable,
    /// The upstream node signalled throttling; retryable like
    /// `UpstreamUnavailable`, but with a longer backoff.
    RateLimited,
}

/// The retryable classes: transient upstream conditions that a later
/// attempt may not see. Format errors and genuine absence are final.
pub open spec fn spec_is_retryable(e: FetchError) -> bool {
    e == FetchError::UpstreamUnavailable || e == FetchError::RateLimited
}

impl FetchError {
    /// Whether a retry may change the outcome of the failed call.
    pub fn is_retryable(&self) -> (r: bool)
        ensures
            r == spec_is_retryable(*self),
    {
        match self {
            FetchError::UpstreamUnavailable => true,
            FetchError::RateLimited => true,
            FetchError::InvalidInput => false,
            FetchError::NotFound => false,
        }
    }
}

/// Per-task result of one upstream fetch: the value, a definite
/// absence, or a failure that exhausted its retries. One task's
/// `NotFound` or `Failed` never aborts sibling tasks; the caller
/// decides per item whether to drop, null out, or propagate.
#[derive(Clone, Debug)]
pub enum FetchOutcome<T> {
    /// The upstream read succeeded and produced this value.
    Found(T),
    /// The key is valid but nothing exists upstream for it.
    NotFound,
    /// The read failed for the given reason after retries.
    Failed(FetchError),
}

impl<T> FetchOutcome<T> {
    /// Whether this outcome carries a value.
    pub fn is_found(&self) -> (r: bool)
        ensures
            r == self is Found,
    {
        match self {
            FetchOutcome::Found(_) => true,
            _ => false,
        }
    }
}

} // verus!
