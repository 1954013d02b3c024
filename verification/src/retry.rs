use vstd::prelude::*;

verus! {

/// Configuration of the bounded exponential-backoff retry wrapper: the
/// backoff multiplier, the first retry delay, the delay ceiling, and the
/// total attempt bound.
#[derive(Clone, Copy, Debug, PartialEq, Eq, Structural)]
pub struct RetryPolicy {
    pub factor: u64,
    pub min_delay_ms: u64,
    pub max_delay_ms: u64,
    pub max_attempts: u64,
}

impl RetryPolicy {
    /// The multiplier never shrinks a delay and at least one attempt is
    /// allowed.
    pub open spec fn wf(self) -> bool {
        self.factor >= 1 && self.max_attempts >= 1
    }

    /// A policy with the given multiplier, first delay, delay ceiling and
    /// attempt bound.
    pub fn new(factor: u64, min_delay_ms: u64, max_delay_ms: u64, max_attempts: u64) -> (r:
        RetryPolicy)
        requires
            factor >= 1,
            max_attempts >= 1,
        ensures
            r == (RetryPolicy { factor, min_delay_ms, max_delay_ms, max_attempts }),
            r.wf(),
    {
        RetryPolicy { factor, min_delay_ms, max_delay_ms, max_attempts }
    }
}

/// The delay, in milliseconds, slept before retry number `k + 1`:
/// the first retry waits the minimum delay, each later retry waits the
/// previous delay times the factor, and every delay is clamped to the
/// configured maximum.
pub open spec fn spec_delay(p: RetryPolicy, k: nat) -> nat
    decreases k,
{
    if k == 0 {
        if p.min_delay_ms > p.max_delay_ms {
            p.max_delay_ms as nat
        } else {
            p.min_delay_ms as nat
        }
    } else {
        let d: nat = spec_delay(p, (k - 1) as nat) * p.factor as nat;
        if d > p.max_delay_ms {
            p.max_delay_ms as nat
        } else {
            d
        }
    }
}

/// Every inter-attempt delay is capped at the configured maximum.
pub proof fn lemma_delay_capped(p: RetryPolicy, k: nat)
    ensures
        spec_delay(p, k) <= p.max_delay_ms,
    decreases k,
{
    if k > 0 {
        lemma_delay_capped(p, (k - 1) as nat);
    }
}

/// The inter-attempt delay never decreases from one retry to the next.
pub proof fn lemma_delay_nondecreasing(p: RetryPolicy, i: nat, j: nat)
    requires
        p.wf(),
        i <= j,
    ensures
        spec_delay(p, i) <= spec_delay(p, j),
    decreases j,
{
    if i < j {
        lemma_delay_nondecreasing(p, i, (j - 1) as nat);
        let d = spec_delay(p, (j - 1) as nat);
        lemma_delay_capped(p, (j - 1) as nat);
        assert(d * p.factor >= d * 1) by (nonlinear_arith)
            requires
                p.factor >= 1,
                d >= 0,
        ;
    }
}

/// Below the ceiling the backoff is exactly exponential: as long as the
/// uncapped value stays within the maximum delay, the delay before retry
/// number `k + 1` is the first delay times the factor raised to `k`.
pub proof fn lemma_delay_exponential(p: RetryPolicy, k: nat)
    requires
        p.wf(),
        p.min_delay_ms * vstd::arithmetic::power::pow(p.factor as int, k) <= p.max_delay_ms,
    ensures
        spec_delay(p, k) == p.min_delay_ms * vstd::arithmetic::power::pow(p.factor as int, k),
    decreases k,
{
    let f = p.factor as int;
    let m = p.min_delay_ms as int;
    if k == 0 {
        vstd::arithmetic::power::lemma_pow0(f);
    } else {
        let pk1 = vstd::arithmetic::power::pow(f, (k - 1) as nat);
        vstd::arithmetic::power::lemma_pow_positive(f, (k - 1) as nat);
        assert(vstd::arithmetic::power::pow(f, k) == f * pk1) by {
            reveal(vstd::arithmetic::power::pow);
        }
        assert(m * pk1 <= m * (f * pk1)) by (nonlinear_arith)
            requires
                f >= 1,
                pk1 >= 1,
                m >= 0,
        ;
        lemma_delay_exponential(p, (k - 1) as nat);
        assert((m * pk1) * f == m * (f * pk1)) by (nonlinear_arith);
    }
}

/// Compute the delay before retry number `k + 1` under policy `p`.
pub fn delay_for_attempt(p: &RetryPolicy, k: u64) -> (r: u64)
    ensures
        r == spec_delay(*p, k as nat),
{
    let mut d: u64 = if p.min_delay_ms > p.max_delay_ms {
        p.max_delay_ms
    } else {
        p.min_delay_ms
    };
    let mut t: u64 = 0;
    while t < k
        invariant
            0 <= t <= k,
            d == spec_delay(*p, t as nat),
        decreases k - t,
    {
        proof {
            assert((d as int) * (p.factor as int) <= 0xffffffffffffffff * 0xffffffffffffffff)
                by (nonlinear_arith)
                requires
                    0 <= d as int <= 0xffffffffffffffff,
                    0 <= p.factor as int <= 0xffffffffffffffff,
            ;
        }
        let prod = (d as u128) * (p.factor as u128);
        if prod > p.max_delay_ms as u128 {
            d = p.max_delay_ms;
        } else {
            d = prod as u64;
        }
        t = t + 1;
    }
    d
}

/// What the retry wrapper does after a failed attempt: sleep and try
/// again, or give up and surface the last error.
#[derive(Clone, Copy, Debug, PartialEq, Eq, Structural)]
pub enum RetryDecision {
    RetryAfter { delay_ms: u64 },
    GiveUp,
}

/// The decision after `failed_attempts` attempts have failed: retry while
/// the attempt bound is not exhausted, with the delay of the retry about
/// to be made; give up once `max_attempts` attempts have been spent.
pub open spec fn spec_retry_decision(p: RetryPolicy, failed_attempts: nat) -> RetryDecision
    recommends
        failed_attempts >= 1,
{
    if failed_attempts < p.max_attempts {
        RetryDecision::RetryAfter { delay_ms: spec_delay(p, (failed_attempts - 1) as nat) as u64 }
    } else {
        RetryDecision::GiveUp
    }
}

/// Once the configured number of attempts has been spent, the policy
/// gives up: no run makes more than `max_attempts` attempts.
pub proof fn lemma_attempts_bounded(p: RetryPolicy, failed_attempts: nat)
    requires
        failed_attempts >= p.max_attempts,
    ensures
        spec_retry_decision(p, failed_attempts) == RetryDecision::GiveUp,
{
}

/// The running state of one retried operation: the policy and the number
/// of attempts already made and failed.
#[derive(Clone, Copy, Debug, PartialEq, Eq, Structural)]
pub struct RetryState {
    pub policy: RetryPolicy,
    pub attempts_made: u64,
}

impl RetryState {
    /// The policy is well formed and no more attempts were made than it
    /// allows.
    pub open spec fn wf(self) -> bool {
        self.policy.wf() && self.attempts_made <= self.policy.max_attempts
    }

    /// A fresh run under the given policy, before its first attempt.
    pub fn new(policy: RetryPolicy) -> (r: RetryState)
        requires
            policy.wf(),
        ensures
            r.policy == policy,
            r.attempts_made == 0,
            r.wf(),
    {
        RetryState { policy, attempts_made: 0 }
    }

    /// Record a failed attempt and decide whether to retry: the attempt
    /// count grows by one, and the decision is exactly what
    /// `spec_retry_decision` gives for the new count.
    pub fn on_attempt_failed(&mut self) -> (d: RetryDecision)
        requires
            old(self).wf(),
            old(self).attempts_made < old(self).policy.max_attempts,
        ensures
            final(self).policy == old(self).policy,
            final(self).attempts_made == old(self).attempts_made + 1,
            final(self).wf(),
            d == spec_retry_decision(old(self).policy, final(self).attempts_made as nat),
    {
        self.attempts_made = self.attempts_made + 1;
        if self.attempts_made < self.policy.max_attempts {
            let delay = delay_for_attempt(&self.policy, self.attempts_made - 1);
            RetryDecision::RetryAfter { delay_ms: delay }
        } else {
            RetryDecision::GiveUp
        }
    }
}

} // verus!
