//! Retry configuration: which responses are worth another attempt, when the
//! policy gives up, and how long each backoff pause lasts.
//!
//! The jitter that the exponential and fixed strategies add is handed in by
//! the caller, so every outcome of the random draw is covered by the
//! contracts.

use vstd::prelude::*;

verus! {

/// Statuses a retry strategy treats as transient: request timeout, too many
/// requests, and the retryable server errors.
pub open spec fn spec_is_retryable_status(status: u16) -> bool {
    status == 408 || status == 429 || status == 500 || status == 502 || status == 503
        || status == 504
}

/// Whether a response status is worth another attempt.
pub fn is_retryable_status(status: u16) -> (r: bool)
    ensures
        r == spec_is_retryable_status(status),
{
    status == 408 || status == 429 || status == 500 || status == 502 || status == 503
        || status == 504
}

/// How delays between attempts grow.
#[derive(Clone, Copy, PartialEq, Eq, Structural, Debug)]
pub enum RetryMode {
    /// Delays double with each attempt, up to a ceiling.
    Exponential,
    /// Every delay is the configured one.
    Fixed,
    /// Failures are never retried.
    Off,
}

/// The retry strategy's settings.
#[derive(Clone, Copy, PartialEq, Eq, Structural, Debug)]
pub struct RetryOptions {
    pub mode: RetryMode,
    /// The first delay, in milliseconds; later delays grow from it.
    pub initial_delay_ms: u64,
    /// How many retries may follow the first attempt.
    pub max_retries: u32,
    /// Total time budget across all attempts, in milliseconds.
    pub max_total_elapsed_ms: u64,
    /// Ceiling on a single exponential delay, in milliseconds.
    pub max_delay_ms: u64,
}

/// Two to the power `k`.
pub open spec fn pow2(k: nat) -> int
    decreases k,
{
    if k == 0 {
        1
    } else {
        2 * pow2((k - 1) as nat)
    }
}

impl RetryOptions {
    /// A usable configuration: delays are at least a millisecond long.
    pub open spec fn wf(self) -> bool {
        self.initial_delay_ms >= 1
    }

    /// The default strategy: exponential backoff from 200 ms, at most 8
    /// retries, a 30 s delay ceiling, and a minute of total budget.
    pub fn exponential() -> (r: Self)
        ensures
            r == (RetryOptions {
                mode: RetryMode::Exponential,
                initial_delay_ms: 200,
                max_retries: 8,
                max_total_elapsed_ms: 60000,
                max_delay_ms: 30000,
            }),
            r.wf(),
    {
        RetryOptions {
            mode: RetryMode::Exponential,
            initial_delay_ms: 200,
            max_retries: 8,
            max_total_elapsed_ms: 60000,
            max_delay_ms: 30000,
        }
    }

    /// Fixed pauses of 200 ms, at most 8 retries, a minute of total budget.
    pub fn fixed() -> (r: Self)
        ensures
            r == (RetryOptions {
                mode: RetryMode::Fixed,
                initial_delay_ms: 200,
                max_retries: 8,
                max_total_elapsed_ms: 60000,
                max_delay_ms: 30000,
            }),
            r.wf(),
    {
        RetryOptions {
            mode: RetryMode::Fixed,
            initial_delay_ms: 200,
            max_retries: 8,
            max_total_elapsed_ms: 60000,
            max_delay_ms: 30000,
        }
    }

    /// No retries at all.
    pub fn off() -> (r: Self)
        ensures
            r == (RetryOptions {
                mode: RetryMode::Off,
                initial_delay_ms: 1,
                max_retries: 0,
                max_total_elapsed_ms: 0,
                max_delay_ms: 1,
            }),
            r.wf(),
    {
        RetryOptions {
            mode: RetryMode::Off,
            initial_delay_ms: 1,
            max_retries: 0,
            max_total_elapsed_ms: 0,
            max_delay_ms: 1,
        }
    }

    /// When the strategy stops retrying: always for `Off`, otherwise once
    /// the count of retries already made or the elapsed-time budget is used
    /// up.
    pub open spec fn spec_is_expired(self, elapsed_ms: u64, retry_count: u64) -> bool {
        match self.mode {
            RetryMode::Off => true,
            _ => retry_count >= self.max_retries as u64 || elapsed_ms >= self.max_total_elapsed_ms,
        }
    }

    /// Whether another retry is still allowed, `retry_count` retries in.
    pub fn is_expired(&self, elapsed_ms: u64, retry_count: u64) -> (r: bool)
        ensures
            r == self.spec_is_expired(elapsed_ms, retry_count),
    {
        match self.mode {
            RetryMode::Off => true,
            _ => retry_count >= self.max_retries as u64 || elapsed_ms >= self.max_total_elapsed_ms,
        }
    }

    /// The delay before retry number `retry_count`, with the caller's jitter
    /// added: the initial delay doubled per retry and capped at the ceiling
    /// for `Exponential`, the initial delay itself for `Fixed`, and zero for
    /// `Off`. Sums that no delay can reach saturate at `u64::MAX`.
    pub open spec fn spec_sleep_ms(self, retry_count: nat, jitter: u8) -> int {
        match self.mode {
            RetryMode::Exponential => {
                let raw = self.initial_delay_ms * pow2(retry_count) + jitter;
                if raw <= self.max_delay_ms {
                    raw
                } else {
                    self.max_delay_ms as int
                }
            },
            RetryMode::Fixed => {
                let raw = self.initial_delay_ms + jitter as int;
                if raw <= u64::MAX {
                    raw
                } else {
                    u64::MAX as int
                }
            },
            RetryMode::Off => 0,
        }
    }

    /// The backoff pause before retry number `retry_count`.
    pub fn sleep_duration_ms(&self, retry_count: u64, jitter: u8) -> (d: u64)
        requires
            self.wf(),
        ensures
            d == self.spec_sleep_ms(retry_count as nat, jitter),
    {
        match self.mode {
            RetryMode::Exponential => {
                let mut base: u64 = self.initial_delay_ms;
                let mut k: u64 = 0;
                let mut saturated: bool = false;
                while k < retry_count
                    invariant
                        k <= retry_count,
                        self.initial_delay_ms >= 1,
                        !saturated ==> base == self.initial_delay_ms * pow2(k as nat),
                        saturated ==> base == u64::MAX && self.initial_delay_ms * pow2(k as nat)
                            > u64::MAX,
                    decreases retry_count - k,
                {
                    proof {
                        lemma_pow2_step(k as nat);
                        let p1 = pow2(k as nat);
                        let p2 = pow2((k + 1) as nat);
                        let d = self.initial_delay_ms as int;
                        assert(d * p2 == 2 * (d * p1)) by (nonlinear_arith)
                            requires
                                p2 == 2 * p1,
                        ;
                    }
                    if !saturated {
                        match base.checked_mul(2) {
                            Some(doubled) => {
                                base = doubled;
                            },
                            None => {
                                saturated = true;
                                base = u64::MAX;
                            },
                        }
                    }
                    k = k + 1;
                }
                let with_jitter: u64 = if base <= u64::MAX - (jitter as u64) {
                    base + (jitter as u64)
                } else {
                    u64::MAX
                };
                proof {
                    lemma_pow2_pos(retry_count as nat);
                }
                if with_jitter <= self.max_delay_ms {
                    with_jitter
                } else {
                    self.max_delay_ms
                }
            },
            RetryMode::Fixed => {
                if self.initial_delay_ms <= u64::MAX - (jitter as u64) {
                    self.initial_delay_ms + (jitter as u64)
                } else {
                    u64::MAX
                }
            },
            RetryMode::Off => 0,
        }
    }
}

proof fn lemma_pow2_step(k: nat)
    ensures
        pow2(k + 1) == 2 * pow2(k),
{
}

proof fn lemma_pow2_pos(k: nat)
    ensures
        pow2(k) >= 1,
    decreases k,
{
    if k > 0 {
        lemma_pow2_pos((k - 1) as nat);
    }
}

} // verus!
