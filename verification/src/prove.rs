//! Decisions of the proving pipeline around the backend: which failures of
//! the backend are tried again, how often, and after how long.

use vstd::prelude::*;
use vstd::arithmetic::power2::{lemma_pow2_unfold, lemma_pow2_pos, pow2};

verus! {

/// A failure that the proving backend reports.
#[derive(Clone, Copy, Debug, PartialEq, Eq, Structural)]
pub enum BackendFailure {
    /// The backend did not answer in time.
    Timeout,
    /// The backend ran out of a resource.
    ResourceExhausted,
    /// The backend could not prove the segment.
    ProofFailed,
}

impl BackendFailure {
    /// Whether the failure may pass: a timeout or an exhausted resource.
    /// A proof that failed is final.
    pub open spec fn transient(self) -> bool {
        self is Timeout || self is ResourceExhausted
    }

    /// Whether the failure may pass, so that the same call can be tried
    /// again.
    pub fn is_transient(&self) -> (transient: bool)
        ensures
            transient == self.transient(),
    {
        match self {
            BackendFailure::Timeout => true,
            BackendFailure::ResourceExhausted => true,
            BackendFailure::ProofFailed => false,
        }
    }
}

/// What to do after a failure of the backend.
#[derive(Clone, Copy, Debug, PartialEq, Eq, Structural)]
pub enum RetryDecision {
    /// Call the backend again, after the given number of milliseconds.
    Retry {
        /// How long to wait before the call.
        delay_ms: u64,
    },
    /// Give up, and hand the failure on as it is.
    GiveUp,
}

/// How often a call of the backend is made, and how long to wait between
/// two calls: the wait doubles with each failure, up to a longest wait.
#[derive(Clone, Copy, Debug, PartialEq, Eq, Structural)]
pub struct RetryPolicy {
    /// The number of calls after which no further call is made.
    pub max_attempts: u32,
    /// The wait after the first failure, in milliseconds.
    pub base_delay_ms: u64,
    /// The longest wait, in milliseconds.
    pub max_delay_ms: u64,
}

impl RetryPolicy {
    /// The wait after the given number of failed calls: the base wait,
    /// doubled for each failure after the first, and at most the longest
    /// wait.
    pub open spec fn delay_after(&self, attempts: u32) -> int {
        let doublings: nat = if attempts == 0 {
            0
        } else {
            (attempts - 1) as nat
        };
        if self.base_delay_ms * pow2(doublings) <= self.max_delay_ms {
            self.base_delay_ms * pow2(doublings)
        } else {
            self.max_delay_ms as int
        }
    }

    /// What to do after the given number of calls have failed, the last of
    /// them with the given failure.
    pub open spec fn decision(&self, attempts: u32, failure: BackendFailure) -> RetryDecision {
        if failure.transient() && attempts < self.max_attempts {
            RetryDecision::Retry { delay_ms: self.delay_after(attempts) as u64 }
        } else {
            RetryDecision::GiveUp
        }
    }

    /// Computes the wait after the given number of failed calls.
    pub fn delay(&self, attempts: u32) -> (delay_ms: u64)
        ensures
            delay_ms == self.delay_after(attempts),
            delay_ms <= self.max_delay_ms,
    {
        let doublings: u32 = if attempts == 0 {
            0
        } else {
            attempts - 1
        };
        if self.base_delay_ms > self.max_delay_ms {
            proof {
                lemma_pow2_pos(doublings as nat);
                assert(self.base_delay_ms * pow2(doublings as nat) >= self.base_delay_ms)
                    by (nonlinear_arith)
                    requires
                        pow2(doublings as nat) >= 1,
                ;
            }
            return self.max_delay_ms;
        }
        let mut delay: u64 = self.base_delay_ms;
        let mut done: u32 = 0;
        proof {
            vstd::arithmetic::power2::lemma2_to64();
        }
        while done < doublings
            invariant
                done <= doublings,
                delay <= self.max_delay_ms,
                delay == (if self.base_delay_ms * pow2(done as nat) <= self.max_delay_ms {
                    self.base_delay_ms * pow2(done as nat)
                } else {
                    self.max_delay_ms as int
                }),
            decreases doublings - done,
        {
            proof {
                lemma_pow2_unfold((done + 1) as nat);
                lemma_pow2_pos(done as nat);
                let b: int = self.base_delay_ms as int;
                let p: int = pow2(done as nat) as int;
                assert(b * (2 * p) == 2 * (b * p)) by (nonlinear_arith);
                assert(b * p >= 0) by (nonlinear_arith)
                    requires
                        b >= 0,
                        p >= 0,
                ;
            }
            if delay > self.max_delay_ms - delay {
                delay = self.max_delay_ms;
            } else {
                delay = delay + delay;
            }
            done = done + 1;
        }
        delay
    }

    /// Decides what to do after the given number of calls have failed, the
    /// last of them with the given failure: a failure that may pass is tried
    /// again while fewer calls were made than the policy allows; any other
    /// failure, and the last failure allowed, ends the attempts.
    pub fn decide(&self, attempts: u32, failure: BackendFailure) -> (decision: RetryDecision)
        ensures
            decision == self.decision(attempts, failure),
            decision is Retry <==> failure.transient() && attempts < self.max_attempts,
    {
        if failure.is_transient() && attempts < self.max_attempts {
            RetryDecision::Retry { delay_ms: self.delay(attempts) }
        } else {
            RetryDecision::GiveUp
        }
    }
}

/// The attempts end: whatever the failures, no call is made after as many
/// calls as the policy allows.
pub proof fn lemma_attempts_bounded(policy: RetryPolicy, attempts: u32, failure: BackendFailure)
    requires
        attempts >= policy.max_attempts,
    ensures
        policy.decision(attempts, failure) == RetryDecision::GiveUp,
{
}

/// A proof that failed is never tried again.
pub proof fn lemma_fatal_not_retried(policy: RetryPolicy, attempts: u32)
    ensures
        policy.decision(attempts, BackendFailure::ProofFailed) == RetryDecision::GiveUp,
{
}

} // verus!
