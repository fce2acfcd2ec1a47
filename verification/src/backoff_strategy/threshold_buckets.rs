//! The threshold-buckets strategy: failures are timestamped and kept while
//! younger than a monitoring window; the delay is that of the last bucket
//! (in the supplied order) whose failure-count threshold the retained
//! failures meet.

use vstd::prelude::*;

use super::BackoffStrategy;
use super::StrategyFactory;

verus! {

/// Age (milliseconds) of a failure recorded at `t`, seen from `now`; a
/// timestamp in the future (a clock read that moved back) has age zero.
pub open spec fn age_of(t: u64, now: u64) -> u64 {
    if t <= now {
        (now - t) as u64
    } else {
        0u64
    }
}

/// A failure recorded at `t` still counts at `now` iff it is younger than
/// the monitoring window `period`.
pub open spec fn is_young(t: u64, now: u64, period: u64) -> bool {
    age_of(t, now) < period
}

/// The failure timestamps of `failures` still younger than the window at
/// `now`, in order.
pub open spec fn retained(failures: Seq<u64>, now: u64, period: u64) -> Seq<u64> {
    failures.filter(|t: u64| is_young(t, now, period))
}

/// The delay of the last bucket in `buckets` whose failure-count threshold is
/// met by `count` failures; zero if no threshold is met. With buckets sorted
/// ascending by threshold this is the delay of the highest met threshold.
pub open spec fn bucket_backoff(buckets: Seq<(usize, u64)>, count: nat) -> u64
    decreases buckets.len(),
{
    if buckets.len() == 0 {
        0u64
    } else if buckets.last().0 <= count {
        buckets.last().1
    } else {
        bucket_backoff(buckets.drop_last(), count)
    }
}

/// Builds threshold-buckets strategies from an ordered bucket list and a
/// monitoring-window duration.
pub struct ThresholdBucketsFactory {
    /// (failure-count threshold, delay in milliseconds) pairs, expected to be
    /// sorted ascending by threshold; the last met bucket wins.
    pub buckets: Vec<(usize, u64)>,
    /// The monitoring window, in milliseconds.
    pub monitoring_period: u64,
}

impl Default for ThresholdBucketsFactory {
    /// The default policy: buckets 1 -> 5s, 5 -> 10s, 10 -> 30s, within a
    /// 60-second window.
    fn default() -> (r: Self)
        ensures
            r.buckets@ == seq![(1usize, 5000u64), (5usize, 10000u64), (10usize, 30000u64)],
            r.monitoring_period == 60000u64,
    {
        let mut buckets: Vec<(usize, u64)> = Vec::new();
        buckets.push((1, 5000));
        buckets.push((5, 10000));
        buckets.push((10, 30000));
        proof {
            assert(buckets@ =~= seq![(1usize, 5000u64), (5usize, 10000u64), (10usize, 30000u64)]);
        }
        ThresholdBucketsFactory { buckets, monitoring_period: 60000 }
    }
}

impl StrategyFactory for ThresholdBucketsFactory {
    type Strategy = ThresholdBucketsBackoff;

    open spec fn creates(self, s: ThresholdBucketsBackoff) -> bool {
        &&& s.spec_buckets() == self.buckets@
        &&& s.spec_period() == self.monitoring_period
        &&& s.spec_failures() == Seq::<u64>::empty()
    }

    fn create_strategy(&self) -> (s: ThresholdBucketsBackoff) {
        let mut buckets: Vec<(usize, u64)> = Vec::new();
        let n: usize = self.buckets.len();
        let mut i: usize = 0;
        while i < n
            invariant
                i <= n,
                n == self.buckets@.len(),
                buckets@ == self.buckets@.take(i as int),
            decreases n - i,
        {
            buckets.push(self.buckets[i]);
            proof {
                assert(buckets@ =~= self.buckets@.take(i + 1));
            }
            i = i + 1;
        }
        proof {
            assert(buckets@ =~= self.buckets@);
        }
        ThresholdBucketsBackoff {
            buckets,
            monitoring_period: self.monitoring_period,
            failures: Vec::new(),
        }
    }
}

/// A strategy keyed on the number of recent failures within a sliding window.
pub struct ThresholdBucketsBackoff {
    buckets: Vec<(usize, u64)>,
    monitoring_period: u64,
    failures: Vec<u64>,
}

/// Relies on std::time::SystemTime::now, read as whole milliseconds since the
/// Unix epoch (zero if the clock stands before it). Nothing is assumed of the
/// value: it depends on the machine's clock.
#[verifier::external_body]
fn now_millis() -> u64 {
    match std::time::SystemTime::now().duration_since(std::time::UNIX_EPOCH) {
        Ok(d) => d.as_millis() as u64,
        Err(_) => 0,
    }
}

impl ThresholdBucketsBackoff {
    /// The configured (threshold, delay) pairs.
    pub closed spec fn spec_buckets(self) -> Seq<(usize, u64)> {
        self.buckets@
    }

    /// The monitoring window, in milliseconds.
    pub closed spec fn spec_period(self) -> u64 {
        self.monitoring_period
    }

    /// The recorded failure timestamps, in milliseconds.
    pub closed spec fn spec_failures(self) -> Seq<u64> {
        self.failures@
    }

    /// Drops every recorded failure older than the monitoring window at `now`.
    pub fn prune_failures(&mut self, now: u64)
        ensures
            final(self).spec_buckets() == old(self).spec_buckets(),
            final(self).spec_period() == old(self).spec_period(),
            final(self).spec_failures() == retained(
                old(self).spec_failures(),
                now,
                old(self).spec_period(),
            ),
    {
        broadcast use vstd::seq_lib::group_seq_lib_default;

        let ghost pred = |t: u64| is_young(t, now, self.monitoring_period);
        let mut kept: Vec<u64> = Vec::new();
        let n: usize = self.failures.len();
        let mut i: usize = 0;
        while i < n
            invariant
                i <= n,
                n == self.failures@.len(),
                kept@ == self.failures@.take(i as int).filter(pred),
                pred == (|t: u64| is_young(t, now, self.monitoring_period)),
            decreases n - i,
        {
            let t: u64 = self.failures[i];
            let age: u64 = if t <= now {
                now - t
            } else {
                0
            };
            if age < self.monitoring_period {
                kept.push(t);
            }
            proof {
                assert(self.failures@.take(i + 1) =~= self.failures@.take(i as int).push(
                    self.failures@[i as int],
                ));
                self.failures@.take(i as int).lemma_filter_push(self.failures@[i as int], pred);
            }
            i = i + 1;
        }
        proof {
            assert(self.failures@.take(n as int) =~= self.failures@);
        }
        self.failures = kept;
    }

    /// Appends a failure recorded at `now` and prunes entries older than the
    /// window.
    pub fn record_failure_at(&mut self, now: u64)
        ensures
            final(self).spec_buckets() == old(self).spec_buckets(),
            final(self).spec_period() == old(self).spec_period(),
            final(self).spec_failures() == retained(
                old(self).spec_failures().push(now),
                now,
                old(self).spec_period(),
            ),
    {
        self.failures.push(now);
        self.prune_failures(now);
    }

    /// The delay before the next retry, evaluated at `now`: that of the last
    /// bucket whose threshold the failures still young at `now` meet.
    pub fn backoff_at(&self, now: u64) -> (d: u64)
        ensures
            d == self.backoff_spec_at(now),
    {
        broadcast use vstd::seq_lib::group_seq_lib_default;

        let ghost pred = |t: u64| is_young(t, now, self.monitoring_period);
        let n: usize = self.failures.len();
        let mut young: usize = 0;
        let mut i: usize = 0;
        while i < n
            invariant
                i <= n,
                n == self.failures@.len(),
                young == retained(self.failures@.take(i as int), now, self.monitoring_period).len(),
                young <= i,
                pred == (|t: u64| is_young(t, now, self.monitoring_period)),
            decreases n - i,
        {
            let t: u64 = self.failures[i];
            let age: u64 = if t <= now {
                now - t
            } else {
                0
            };
            proof {
                assert(self.failures@.take(i + 1) =~= self.failures@.take(i as int).push(
                    self.failures@[i as int],
                ));
                self.failures@.take(i as int).lemma_filter_push(self.failures@[i as int], pred);
            }
            if age < self.monitoring_period {
                young = young + 1;
            }
            i = i + 1;
        }
        proof {
            assert(self.failures@.take(n as int) =~= self.failures@);
        }

        let ghost count = retained(self.failures@, now, self.monitoring_period).len();
        let m: usize = self.buckets.len();
        let mut backoff: u64 = 0;
        let mut j: usize = 0;
        while j < m
            invariant
                j <= m,
                m == self.buckets@.len(),
                young == count,
                backoff == bucket_backoff(self.buckets@.take(j as int), count),
            decreases m - j,
        {
            let (threshold, duration) = self.buckets[j];
            proof {
                assert(self.buckets@.take(j + 1).drop_last() =~= self.buckets@.take(j as int));
                assert(self.buckets@.take(j + 1).last() == self.buckets@[j as int]);
            }
            if threshold <= young {
                backoff = duration;
            }
            j = j + 1;
        }
        proof {
            assert(self.buckets@.take(m as int) =~= self.buckets@);
        }
        backoff
    }

    /// The number of recorded failure timestamps.
    pub fn failure_count(&self) -> (n: usize)
        ensures
            n == self.spec_failures().len(),
    {
        self.failures.len()
    }
}

impl BackoffStrategy for ThresholdBucketsBackoff {
    /// Recording a failure at `now` appends `now` and prunes entries older
    /// than the window; buckets and window are untouched.
    open spec fn add_failure_rel(self, now: u64, post: Self) -> bool {
        &&& post.spec_buckets() == self.spec_buckets()
        &&& post.spec_period() == self.spec_period()
        &&& post.spec_failures() == retained(
            self.spec_failures().push(now),
            now,
            self.spec_period(),
        )
    }

    /// The delay of the last bucket whose threshold is met by the failures
    /// still younger than the window at `now`.
    open spec fn backoff_spec_at(self, now: u64) -> u64 {
        bucket_backoff(
            self.spec_buckets(),
            retained(self.spec_failures(), now, self.spec_period()).len(),
        )
    }

    fn add_failure(&mut self) {
        let now: u64 = now_millis();
        self.record_failure_at(now);
        proof {
            assert(old(self).add_failure_rel(now, *self));
        }
    }

    fn next_backoff(&self) -> (d: u64) {
        let now: u64 = now_millis();
        let d: u64 = self.backoff_at(now);
        proof {
            assert(d == self.backoff_spec_at(now));
        }
        d
    }
}

/// Pruning law: the backoff answered at `now` depends only on the failures
/// still younger than the monitoring window at `now` — two strategies with
/// the same configuration whose retained failures agree answer the same
/// delay, whatever stale entries either still carries.
pub proof fn lemma_backoff_depends_only_on_young(
    a: ThresholdBucketsBackoff,
    b: ThresholdBucketsBackoff,
    now: u64,
)
    requires
        a.spec_buckets() == b.spec_buckets(),
        a.spec_period() == b.spec_period(),
        retained(a.spec_failures(), now, a.spec_period()) == retained(
            b.spec_failures(),
            now,
            b.spec_period(),
        ),
    ensures
        a.backoff_spec_at(now) == b.backoff_spec_at(now),
{
}

} // verus!

