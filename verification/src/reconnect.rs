//! Bounded reconnection policy.
//!
//! Invoked only for a stream error observed while playback intent is active.
//! Each invocation increments the attempt counter; while the counter stays
//! within the budget the policy asks for one more retry, afterwards it gives
//! up. The counter is reset exclusively by the session: when the pipeline is
//! observed to reach `Playing` again, or on an explicit stop.

use vstd::prelude::*;

verus! {

/// What the policy decides for one observed stream error.
#[derive(Clone, Copy, Debug, PartialEq, Eq)]
pub enum RetryDecision {
    /// Retry once more; the payload is the attempt number just started.
    Retry(u32),
    /// The budget is exhausted; do not retry again.
    GiveUp,
}

/// Counters and configuration of the reconnection policy.
#[derive(Clone, Copy, Debug, PartialEq, Eq)]
pub struct ReconnectState {
    /// Consecutive failures observed since the last successful `Playing`.
    pub attempts: u32,
    /// How many retries are allowed before giving up.
    pub max_attempts: u32,
    /// Fixed delay, in seconds, between a failure and the next retry.
    pub backoff_secs: u64,
}

impl ReconnectState {
    /// The counter can pass the budget by exactly one: the increment that
    /// exhausts it. `max_attempts` stays below `u32::MAX` so that the
    /// increment itself cannot overflow.
    pub open spec fn wf(self) -> bool {
        &&& self.max_attempts < u32::MAX
        &&& self.attempts <= self.max_attempts + 1
    }

    /// What one observed error does: increment, then retry while the counter
    /// is within the budget, otherwise give up.
    pub open spec fn on_error_spec(self) -> (ReconnectState, RetryDecision) {
        let bumped = ReconnectState { attempts: (self.attempts + 1) as u32, ..self };
        if self.attempts + 1 <= self.max_attempts {
            (bumped, RetryDecision::Retry((self.attempts + 1) as u32))
        } else {
            (bumped, RetryDecision::GiveUp)
        }
    }

    /// A fresh policy: no failures observed yet.
    pub fn new(max_attempts: u32, backoff_secs: u64) -> (policy: ReconnectState)
        requires
            max_attempts < u32::MAX,
        ensures
            policy == (ReconnectState { attempts: 0, max_attempts, backoff_secs }),
            policy.wf(),
    {
        ReconnectState { attempts: 0, max_attempts, backoff_secs }
    }

    /// Records one observed stream error and decides whether to retry.
    pub fn on_error(&mut self) -> (decision: RetryDecision)
        requires
            old(self).wf(),
            old(self).attempts <= old(self).max_attempts,
        ensures
            (*final(self), decision) == old(self).on_error_spec(),
            final(self).wf(),
    {
        self.attempts = self.attempts + 1;
        if self.attempts <= self.max_attempts {
            RetryDecision::Retry(self.attempts)
        } else {
            RetryDecision::GiveUp
        }
    }

    /// Clears the failure counter.
    pub fn reset(&mut self)
        ensures
            *final(self) == (ReconnectState { attempts: 0, ..*old(self) }),
    {
        self.attempts = 0;
    }
}

} // verus!
