//! Retry policy of the RPC gateway adapter.
//!
//! A failed upstream call is retried only for the transient fault
//! classes, up to a fixed number of retries, with exponential
//! backoff: the ceiling doubles with each attempt, and doubles once
//! more for an explicit throttling signal, which asks for a longer
//! backoff than a plain outage. The host draws the actual delay
//! uniformly from [0, ceiling] (full jitter) and sleeps; the policy
//! itself decides, it never waits.

use vstd::prelude::*;
use crate::error::{spec_is_retryable, FetchError};

verus! {

/// What to do after a failed attempt: retry after a delay drawn
/// from [0, the given ceiling in milliseconds], or give up and
/// surface the failure.
#[derive(Clone, Copy, Debug, PartialEq, Eq, Structural)]
pub enum RetryDecision {
    RetryAfterAtMost(u64),
    GiveUp,
}

/// An explicit retry policy: how many retries a call gets and the
/// base backoff delay, fixed at process start.
#[derive(Clone, Copy, Debug)]
pub struct RetryPolicy {
    pub max_retries: u32,
    pub base_delay_ms: u64,
}

/// 2 to the power `n`.
pub open spec fn pow2(n: nat) -> int
    decreases n,
{
    if n == 0 {
        1
    } else {
        2 * pow2((n - 1) as nat)
    }
}

proof fn lemma_pow2_pos(n: nat)
    ensures
        pow2(n) >= 1,
    decreases n,
{
    if n > 0 {
        lemma_pow2_pos((n - 1) as nat);
    }
}

proof fn lemma_pow2_mono(a: nat, b: nat)
    requires
        a <= b,
    ensures
        1 <= pow2(a) <= pow2(b),
    decreases b,
{
    lemma_pow2_pos(a);
    if a < b {
        lemma_pow2_mono(a, (b - 1) as nat);
        lemma_pow2_pos((b - 1) as nat);
    }
}

fn pow2_exec(n: u32) -> (r: u64)
    requires
        n <= 16,
    ensures
        r == pow2(n as nat),
        1 <= r <= 65536,
{
    let mut r: u64 = 1;
    let mut k: u32 = 0;
    while k < n
        invariant
            k <= n <= 16,
            r == pow2(k as nat),
        decreases n - k,
    {
        proof {
            lemma_pow2_mono(k as nat, 15);
            assert(pow2(15) == 32768) by {
                reveal_with_fuel(pow2, 16);
            }
        }
        r = r * 2;
        k = k + 1;
    }
    proof {
        lemma_pow2_mono(n as nat, 16);
        assert(pow2(16) == 65536) by {
            reveal_with_fuel(pow2, 17);
        }
    }
    r
}

impl RetryPolicy {
    /// Policies stay within sane bounds: a handful of retries, a
    /// base delay of at most a minute, so no backoff ceiling can
    /// overflow.
    pub open spec fn wf(&self) -> bool {
        self.max_retries <= 16 && 1 <= self.base_delay_ms <= 60_000
    }

    /// The backoff ceiling for the retry after `attempts_made`
    /// failed attempts: the base delay doubled per earlier attempt,
    /// and doubled once more when the upstream signalled throttling.
    pub open spec fn spec_backoff_ceiling_ms(
        &self,
        err: FetchError,
        attempts_made: u32,
    ) -> int
        recommends
            attempts_made >= 1,
    {
        self.base_delay_ms * pow2((attempts_made - 1) as nat) * (
        if err == FetchError::RateLimited {
            2int
        } else {
            1int
        })
    }

    /// The adapter's standard policy: up to 2 retries, 100 ms base
    /// delay.
    pub fn standard() -> (r: RetryPolicy)
        ensures
            r.wf(),
            r.max_retries == 2,
            r.base_delay_ms == 100,
    {
        RetryPolicy { max_retries: 2, base_delay_ms: 100 }
    }

    /// Decide what follows a failed attempt. Retries are granted
    /// exactly to the transient fault classes while attempts remain;
    /// a format error or a definite absence is never retried.
    pub fn decide(&self, err: FetchError, attempts_made: u32) -> (r: RetryDecision)
        requires
            self.wf(),
            attempts_made >= 1,
        ensures
            (spec_is_retryable(err) && attempts_made <= self.max_retries) <==> (
            r matches RetryDecision::RetryAfterAtMost(_)),
            r matches RetryDecision::RetryAfterAtMost(c) ==> c
                == self.spec_backoff_ceiling_ms(err, attempts_made),
    {
        if err.is_retryable() && attempts_made <= self.max_retries {
            let p = pow2_exec(attempts_made - 1);
            proof {
                assert(self.base_delay_ms * p <= 60_000 * 65536) by (nonlinear_arith)
                    requires
                        self.base_delay_ms <= 60_000,
                        0 < p <= 65536,
                ;
            }
            let base_ceiling: u64 = self.base_delay_ms * p;
            let ceiling: u64 = if matches!(err, FetchError::RateLimited) {
                base_ceiling * 2
            } else {
                base_ceiling
            };
            RetryDecision::RetryAfterAtMost(ceiling)
        } else {
            RetryDecision::GiveUp
        }
    }
}

} // verus!
