//! The constant-time strategy: one fixed delay, whatever the failure history —
//! a stateless fallback for tasks needing no nuanced policy.

use vstd::prelude::*;

use super::failures_recorded;
use super::BackoffStrategy;
use super::StrategyFactory;

verus! {

/// The default constant delay, in milliseconds (five seconds).
pub const DEFAULT_CONSTANT_BACKOFF_MILLIS: u64 = 5000;

/// Builds constant-time strategies with the configured fixed delay.
pub struct ContantTimeFactory {
    /// The fixed delay, in milliseconds.
    pub backoff: u64,
}

impl StrategyFactory for ContantTimeFactory {
    type Strategy = ConstantTimeBackoff;

    open spec fn creates(self, s: ConstantTimeBackoff) -> bool {
        s.spec_backoff() == self.backoff
    }

    fn create_strategy(&self) -> (s: ConstantTimeBackoff) {
        ConstantTimeBackoff { backoff: self.backoff }
    }
}

/// A strategy that always answers one fixed delay; recording a failure is a
/// no-op.
pub struct ConstantTimeBackoff {
    backoff: u64,
}

impl ConstantTimeBackoff {
    /// The fixed delay, in milliseconds.
    pub closed spec fn spec_backoff(self) -> u64 {
        self.backoff
    }
}

impl Default for ConstantTimeBackoff {
    /// The default constant-time strategy: a five-second delay.
    fn default() -> (r: Self)
        ensures
            r.spec_backoff() == DEFAULT_CONSTANT_BACKOFF_MILLIS,
    {
        ConstantTimeBackoff { backoff: DEFAULT_CONSTANT_BACKOFF_MILLIS }
    }
}

impl BackoffStrategy for ConstantTimeBackoff {
    /// Recording a failure leaves a constant-time strategy unchanged.
    open spec fn add_failure_rel(self, now: u64, post: Self) -> bool {
        post == self
    }

    /// The configured delay, whatever the time of the query.
    open spec fn backoff_spec_at(self, now: u64) -> u64 {
        self.spec_backoff()
    }

    fn add_failure(&mut self) {
        proof {
            assert(old(self).add_failure_rel(0u64, *self));
        }
    }

    fn next_backoff(&self) -> (d: u64) {
        proof {
            assert(self.backoff == self.backoff_spec_at(0u64));
        }
        self.backoff
    }
}

/// Constant-time law: recording any number of failures, at any times, leaves
/// a constant-time strategy — and so the delay it answers at any time —
/// unchanged.
pub proof fn lemma_constant_time_invariant(
    s0: ConstantTimeBackoff,
    nows: Seq<u64>,
    s1: ConstantTimeBackoff,
)
    requires
        failures_recorded(s0, nows, s1),
    ensures
        s1 == s0,
        forall|q: u64| s1.backoff_spec_at(q) == s0.backoff_spec_at(q),
{
    super::lemma_stateless_strategy_unchanged(s0, nows, s1);
}

} // verus!
