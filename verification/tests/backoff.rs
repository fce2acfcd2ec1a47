use app_task::backoff_strategy::constant_time::ConstantTimeBackoff;
use app_task::backoff_strategy::constant_time::ContantTimeFactory;
use app_task::backoff_strategy::threshold_buckets::ThresholdBucketsBackoff;
use app_task::backoff_strategy::threshold_buckets::ThresholdBucketsFactory;
use app_task::backoff_strategy::BackoffStrategy;
use app_task::backoff_strategy::DefaultStrategyFactory;
use app_task::backoff_strategy::StrategyFactory;

#[test]
fn constant_time_default_is_five_seconds() {
    let strategy = ConstantTimeBackoff::default();
    assert_eq!(strategy.next_backoff(), 5000);
}

#[test]
fn constant_time_invariant_under_failures() {
    let mut strategy = ConstantTimeBackoff::default();
    strategy.add_failure();
    strategy.add_failure();
    strategy.add_failure();
    assert_eq!(strategy.next_backoff(), 5000);
}

#[test]
fn constant_time_factory_uses_configured_delay() {
    let factory = ContantTimeFactory { backoff: 2000 };
    let strategy = factory.create_strategy();
    assert_eq!(strategy.next_backoff(), 2000);
}

#[test]
fn default_strategy_factory_builds_default_value() {
    let factory: DefaultStrategyFactory<ConstantTimeBackoff> = DefaultStrategyFactory::new();
    let strategy = factory.create_strategy();
    assert_eq!(strategy.next_backoff(), 5000);
}

fn default_threshold_strategy() -> ThresholdBucketsBackoff {
    ThresholdBucketsFactory::default().create_strategy()
}

#[test]
fn threshold_no_failures_is_zero() {
    let strategy = default_threshold_strategy();
    assert_eq!(strategy.backoff_at(1000), 0);
}

#[test]
fn threshold_one_failure_is_five_seconds() {
    let mut strategy = default_threshold_strategy();
    strategy.record_failure_at(1000);
    assert_eq!(strategy.backoff_at(1000), 5000);
}

#[test]
fn threshold_five_failures_is_ten_seconds() {
    let mut strategy = default_threshold_strategy();
    for i in 0..5u64 {
        strategy.record_failure_at(1000 + i);
    }
    assert_eq!(strategy.failure_count(), 5);
    assert_eq!(strategy.backoff_at(1005), 10000);
}

#[test]
fn threshold_ten_failures_is_thirty_seconds() {
    let mut strategy = default_threshold_strategy();
    for i in 0..10u64 {
        strategy.record_failure_at(1000 + i);
    }
    assert_eq!(strategy.backoff_at(1009), 30000);
}

#[test]
fn threshold_failures_older_than_window_are_ignored() {
    let mut strategy = default_threshold_strategy();
    for i in 0..10u64 {
        strategy.record_failure_at(1000 + i);
    }
    // At 61009 the youngest failure (recorded at 1009) is exactly 60000 ms
    // old, so none is younger than the window.
    assert_eq!(strategy.backoff_at(61009), 0);
}

#[test]
fn threshold_recording_prunes_stale_failures() {
    let mut strategy = default_threshold_strategy();
    for i in 0..10u64 {
        strategy.record_failure_at(1000 + i);
    }
    strategy.record_failure_at(70000);
    assert_eq!(strategy.failure_count(), 1);
    assert_eq!(strategy.backoff_at(70000), 5000);
}

#[test]
fn threshold_future_timestamp_counts_as_age_zero() {
    let mut strategy = default_threshold_strategy();
    strategy.record_failure_at(5000);
    assert_eq!(strategy.backoff_at(1000), 5000);
}

#[test]
fn threshold_last_met_bucket_wins_in_supplied_order() {
    let factory = ThresholdBucketsFactory {
        buckets: vec![(5, 10000), (1, 5000)],
        monitoring_period: 60000,
    };
    let mut strategy = factory.create_strategy();
    for i in 0..5u64 {
        strategy.record_failure_at(1000 + i);
    }
    // Both thresholds are met; the later (1 -> 5s) bucket wins the scan.
    assert_eq!(strategy.backoff_at(1005), 5000);
}

#[test]
fn threshold_zero_window_retains_nothing() {
    let factory = ThresholdBucketsFactory { buckets: vec![(1, 5000)], monitoring_period: 0 };
    let mut strategy = factory.create_strategy();
    strategy.record_failure_at(1000);
    assert_eq!(strategy.failure_count(), 0);
    assert_eq!(strategy.backoff_at(1000), 0);
}

#[test]
fn threshold_real_clock_failure_is_counted() {
    let mut strategy = default_threshold_strategy();
    strategy.add_failure();
    assert_eq!(strategy.failure_count(), 1);
    assert_eq!(strategy.next_backoff(), 5000);
}

#[test]
fn strategies_from_one_factory_are_isolated() {
    let factory = ThresholdBucketsFactory::default();
    let mut first = factory.create_strategy();
    let second = factory.create_strategy();
    for i in 0..3u64 {
        first.record_failure_at(1000 + i);
    }
    assert_eq!(first.failure_count(), 3);
    assert_eq!(second.failure_count(), 0);
    assert_eq!(second.backoff_at(1003), 0);
}
