//! Pure retry policy: a batch that has already been attempted
//! `retry_count` times may be retried exactly when that count is still
//! below the configured maximum.

use vstd::prelude::*;

verus! {

pub struct RetryEngine {
    pub max_retries: usize,
}

impl RetryEngine {
    pub fn new(max_retries: usize) -> (r: Self)
        ensures
            r.max_retries == max_retries,
    {
        Self { max_retries }
    }

    /// Whether a batch already retried `current_retries` times may be
    /// submitted again.
    pub fn should_retry(&self, current_retries: usize) -> (r: bool)
        ensures
            r == (current_retries < self.max_retries),
    {
        current_retries < self.max_retries
    }
}

impl Clone for RetryEngine {
    fn clone(&self) -> (r: Self)
        ensures
            r.max_retries == self.max_retries,
    {
        Self { max_retries: self.max_retries }
    }
}

} // verus!
