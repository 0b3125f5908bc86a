//! The retry policy for operations that time out: only timeouts are retried,
//! at most a given number of times, after a pause that doubles from one retry
//! to the next up to a cap, with a little random jitter added.

use vstd::prelude::*;
use crate::error::NetsshError;

verus! {

/// The pause before the first retry, in milliseconds.
pub const INITIAL_BACKOFF_MS: u64 = 100;

/// The longest base pause between retries, in milliseconds.
pub const MAX_BACKOFF_MS: u64 = 5000;

/// The random jitter added to a pause is below this many milliseconds.
pub const JITTER_RANGE_MS: u64 = 50;

/// Calls `rand::random::<u64>()`. The number comes from the thread's random
/// generator, so nothing is promised of it.
#[verifier::external_body]
fn random_u64() -> u64 {
    rand::random::<u64>()
}

/// Whether an error is a timeout, the only kind of error that is retried.
pub open spec fn is_timeout(e: NetsshError) -> bool {
    e is TimeoutError || e is Timeout
}

/// Tells whether an error is a timeout.
pub fn is_timeout_error(e: &NetsshError) -> (b: bool)
    ensures
        b == is_timeout(*e),
{
    match e {
        NetsshError::TimeoutError(_) => true,
        NetsshError::Timeout { .. } => true,
        _ => false,
    }
}

/// The base pause after one more retry: doubled, but not beyond the cap.
pub open spec fn next_backoff(backoff_ms: nat) -> nat {
    if backoff_ms * 2 <= MAX_BACKOFF_MS { backoff_ms * 2 } else { MAX_BACKOFF_MS as nat }
}

/// The state of a retry policy: retries made, the next base pause, and the
/// most retries allowed.
pub struct RetryView {
    pub retries: nat,
    pub backoff_ms: nat,
    pub max_retries: nat,
}

/// What to do after a failed attempt.
#[derive(Debug, Clone, Copy, PartialEq, Eq, Structural)]
pub enum RetryDecision {
    /// Pause this many milliseconds, then try again.
    Retry { sleep_ms: u64 },
    /// Hand the error to the caller.
    GiveUp,
}

/// The retry policy of one operation.
pub struct TimeoutRetry {
    retries: usize,
    backoff_ms: u64,
    max_retries: usize,
}

impl View for TimeoutRetry {
    type V = RetryView;

    closed spec fn view(&self) -> RetryView {
        RetryView { retries: self.retries as nat, backoff_ms: self.backoff_ms as nat, max_retries: self.max_retries as nat }
    }
}

impl TimeoutRetry {
    #[verifier::type_invariant]
    spec fn bounded(self) -> bool {
        &&& self.backoff_ms <= MAX_BACKOFF_MS
        &&& self.retries <= self.max_retries
    }

    /// A policy that allows `max_retries` retries, none made yet.
    pub fn new(max_retries: usize) -> (r: Self)
        ensures
            r@ == (RetryView { retries: 0, backoff_ms: INITIAL_BACKOFF_MS as nat, max_retries: max_retries as nat }),
    {
        TimeoutRetry { retries: 0, backoff_ms: INITIAL_BACKOFF_MS, max_retries }
    }

    /// Decides, given the random number `random`, what follows a failed
    /// attempt. An error that is not a timeout, or one that comes when every
    /// retry allowed was made, is given up on and changes nothing. Otherwise
    /// the caller pauses for the base pause plus `random` modulo the jitter
    /// range, one more retry is counted, and the base pause doubles up to the cap.
    pub fn on_error_with(&mut self, e: &NetsshError, random: u64) -> (d: RetryDecision)
        ensures
            final(self)@.backoff_ms <= MAX_BACKOFF_MS,
            final(self)@.retries <= final(self)@.max_retries,
            !is_timeout(*e) || old(self)@.retries >= old(self)@.max_retries ==> {
                &&& d == RetryDecision::GiveUp
                &&& final(self)@ == old(self)@
            },
            is_timeout(*e) && old(self)@.retries < old(self)@.max_retries ==> {
                &&& d == (RetryDecision::Retry {
                    sleep_ms: (old(self)@.backoff_ms + random % JITTER_RANGE_MS) as u64,
                })
                &&& final(self)@ == (RetryView {
                    retries: old(self)@.retries + 1,
                    backoff_ms: next_backoff(old(self)@.backoff_ms),
                    max_retries: old(self)@.max_retries,
                })
            },
    {
        proof { use_type_invariant(&*self); }
        if self.retries >= self.max_retries || !is_timeout_error(e) {
            return RetryDecision::GiveUp;
        }
        let sleep_ms = self.backoff_ms + random % JITTER_RANGE_MS;
        let next = if self.backoff_ms <= MAX_BACKOFF_MS / 2 { self.backoff_ms * 2 } else { MAX_BACKOFF_MS };
        *self = TimeoutRetry { retries: self.retries + 1, backoff_ms: next, max_retries: self.max_retries };
        RetryDecision::Retry { sleep_ms }
    }

    /// Decides what follows a failed attempt, drawing the jitter from the
    /// thread's random generator. Whatever number is drawn, errors that are
    /// not timeouts and errors after the last retry allowed are given up on,
    /// and a retry pauses at least the base pause and less than the base
    /// pause plus the jitter range.
    pub fn on_error(&mut self, e: &NetsshError) -> (d: RetryDecision)
        ensures
            final(self)@.backoff_ms <= MAX_BACKOFF_MS,
            final(self)@.retries <= final(self)@.max_retries,
            !is_timeout(*e) || old(self)@.retries >= old(self)@.max_retries ==> {
                &&& d == RetryDecision::GiveUp
                &&& final(self)@ == old(self)@
            },
            is_timeout(*e) && old(self)@.retries < old(self)@.max_retries ==> {
                &&& d matches RetryDecision::Retry { sleep_ms }
                &&& old(self)@.backoff_ms <= sleep_ms < old(self)@.backoff_ms + JITTER_RANGE_MS
                &&& final(self)@ == (RetryView {
                    retries: old(self)@.retries + 1,
                    backoff_ms: next_backoff(old(self)@.backoff_ms),
                    max_retries: old(self)@.max_retries,
                })
            },
    {
        proof { use_type_invariant(&*self); }
        let random = random_u64();
        self.on_error_with(e, random)
    }
}

} // verus!
