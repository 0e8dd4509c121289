//! The backoff policy: how long a reconnect waits, and when retrying ends.

use vstd::prelude::*;

verus! {

/// The delay grows with the attempt number up to this multiple of the base
/// interval and stays there.
pub const BACKOFF_CAP: u32 = 5;

/// Consecutive failures that a manager tolerates unless told otherwise.
pub const DEFAULT_MAX_ATTEMPTS: u32 = 10;

/// Base interval of a manager that was given none, in milliseconds.
pub const DEFAULT_BASE_INTERVAL_MS: u32 = 5_000;

/// The multiple of the base interval that attempt number `attempt` waits for:
/// the attempt number itself, capped at [`BACKOFF_CAP`].
pub open spec fn backoff_multiple(attempt: nat) -> nat {
    if attempt <= BACKOFF_CAP as nat {
        attempt
    } else {
        BACKOFF_CAP as nat
    }
}

/// A linear ramp with a ceiling, and a bound on the number of attempts.
///
/// The base interval is a 32-bit count of milliseconds, so that every delay
/// fits in 64 bits.
#[derive(Clone, Copy, Debug, PartialEq, Eq, Structural)]
pub struct BackoffPolicy {
    pub max_attempts: u32,
    pub base_interval_ms: u32,
}

impl BackoffPolicy {
    /// The wait before attempt number `attempt`, in milliseconds.
    pub open spec fn delay_of(self, attempt: nat) -> nat {
        self.base_interval_ms as nat * backoff_multiple(attempt)
    }

    /// Whether a manager that has made `attempt` attempts must give up.
    pub open spec fn gives_up_at(self, attempt: nat) -> bool {
        attempt >= self.max_attempts as nat
    }

    pub fn new(max_attempts: u32, base_interval_ms: u32) -> (policy: BackoffPolicy)
        ensures
            policy.max_attempts == max_attempts,
            policy.base_interval_ms == base_interval_ms,
    {
        BackoffPolicy { max_attempts, base_interval_ms }
    }

    /// The wait before attempt number `attempt`, in milliseconds.
    pub fn delay(&self, attempt: u32) -> (delay_ms: u64)
        ensures
            delay_ms as nat == self.delay_of(attempt as nat),
    {
        let multiple: u32 = if attempt <= BACKOFF_CAP {
            attempt
        } else {
            BACKOFF_CAP
        };
        assert(self.base_interval_ms as nat * multiple as nat <= 0xffff_ffff * 5) by (nonlinear_arith)
            requires
                self.base_interval_ms <= 0xffff_ffff,
                multiple <= 5,
        ;
        self.base_interval_ms as u64 * multiple as u64
    }

    /// Whether a manager that has made `attempt` attempts must give up.
    pub fn exhausted(&self, attempt: u32) -> (done: bool)
        ensures
            done == self.gives_up_at(attempt as nat),
    {
        attempt >= self.max_attempts
    }
}

impl Default for BackoffPolicy {
    fn default() -> (policy: BackoffPolicy)
        ensures
            policy.max_attempts == DEFAULT_MAX_ATTEMPTS,
            policy.base_interval_ms == DEFAULT_BASE_INTERVAL_MS,
    {
        BackoffPolicy {
            max_attempts: DEFAULT_MAX_ATTEMPTS,
            base_interval_ms: DEFAULT_BASE_INTERVAL_MS,
        }
    }
}

} // verus!
