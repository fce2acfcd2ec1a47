//! The backoff-strategy abstraction: a strategy records failures and answers
//! the delay before the next retry; a factory builds one independent strategy
//! instance per supervised task.

use vstd::prelude::*;

pub mod constant_time;
pub mod threshold_buckets;

verus! {

/// Mutable per-task retry state. All delays and timestamps are in
/// milliseconds. Recording a failure and querying the backoff each read the
/// clock, so their contracts are stated relative to an unknown reading `now`:
/// `add_failure_rel` relates the state before and after recording one failure
/// at `now`, and `backoff_spec_at` gives the delay the strategy answers when
/// queried at `now`.
pub trait BackoffStrategy: Send + Sync + Sized + 'static {
    /// The state `post` is the state `self` after one failure recorded at
    /// time `now` (milliseconds).
    spec fn add_failure_rel(self, now: u64, post: Self) -> bool;

    /// The delay (milliseconds) before the next retry, when queried at time
    /// `now` (milliseconds).
    spec fn backoff_spec_at(self, now: u64) -> u64;

    /// Records one failure, at the moment of the call.
    fn add_failure(&mut self)
        ensures
            exists|now: u64| old(self).add_failure_rel(now, *final(self)),
    ;

    /// The delay (milliseconds) to wait before the next retry, for the
    /// moment of the call.
    fn next_backoff(&self) -> (d: u64)
        ensures
            exists|now: u64| d == self.backoff_spec_at(now),
    ;
}

/// Stateless configuration producing independent strategy instances, one per
/// supervised task. `creates` says which strategy values a call may build.
pub trait StrategyFactory: Send + Sync + Sized {
    type Strategy: BackoffStrategy;

    /// The strategy values this factory builds.
    spec fn creates(self, s: Self::Strategy) -> bool;

    /// Builds one independent strategy instance from this configuration.
    fn create_strategy(&self) -> (s: Self::Strategy)
        ensures
            self.creates(s),
    ;
}

/// A factory that builds the configured strategy type's default value.
pub struct DefaultStrategyFactory<S> {
    _strategy: core::marker::PhantomData<S>,
}

impl<S> DefaultStrategyFactory<S> {
    /// The single value of this zero-sized factory.
    pub closed spec fn spec_new() -> Self {
        DefaultStrategyFactory { _strategy: core::marker::PhantomData }
    }

    pub fn new() -> (r: Self)
        ensures
            r == Self::spec_new(),
    {
        Self::default()
    }
}

impl<S> Default for DefaultStrategyFactory<S> {
    fn default() -> (r: Self)
        ensures
            r == Self::spec_new(),
    {
        DefaultStrategyFactory { _strategy: core::marker::PhantomData }
    }
}

impl<S> StrategyFactory for DefaultStrategyFactory<S> where
    S: Default + BackoffStrategy + Send + Sync,
 {
    type Strategy = S;

    open spec fn creates(self, s: S) -> bool {
        S::default.ensures((), s)
    }

    fn create_strategy(&self) -> (s: S)
        ensures
            self.creates(s),
    {
        S::default()
    }
}

/// The state `s1` is the state `s0` after the failures recorded at the times
/// in `nows`, in order.
pub open spec fn failures_recorded<S: BackoffStrategy>(s0: S, nows: Seq<u64>, s1: S) -> bool
    decreases nows.len(),
{
    if nows.len() == 0 {
        s1 == s0
    } else {
        exists|mid: S|
            #![trigger s0.add_failure_rel(nows[0], mid)]
            s0.add_failure_rel(nows[0], mid) && failures_recorded(mid, nows.drop_first(), s1)
    }
}

/// A strategy whose failure recording never changes its state ends where it
/// began, whatever failures were recorded.
pub proof fn lemma_stateless_strategy_unchanged<S: BackoffStrategy>(s0: S, nows: Seq<u64>, s1: S)
    requires
        failures_recorded(s0, nows, s1),
        forall|a: S, now: u64, b: S| #[trigger] a.add_failure_rel(now, b) ==> b == a,
    ensures
        s1 == s0,
    decreases nows.len(),
{
    if nows.len() > 0 {
        let mid: S = choose|mid: S|
            #![trigger s0.add_failure_rel(nows[0], mid)]
            s0.add_failure_rel(nows[0], mid) && failures_recorded(mid, nows.drop_first(), s1);
        lemma_stateless_strategy_unchanged(mid, nows.drop_first(), s1);
    }
}

} // verus!
