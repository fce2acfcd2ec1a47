use app_task::backoff_strategy::constant_time::ConstantTimeBackoff;
use app_task::backoff_strategy::threshold_buckets::ThresholdBucketsFactory;
use app_task::backoff_strategy::StrategyFactory;
use app_task::crash_reason;
use app_task::replay_supervision;
use app_task::supervision_step;
use app_task::LogRecord;
use app_task::SupervisionAction;
use app_task::TaskOutcome;
use app_task::TaskResolution;

#[test]
fn crash_reason_uses_textual_payload_verbatim() {
    let reason = crash_reason(Some("task blew up".to_string()));
    assert_eq!(reason, "task blew up");
}

#[test]
fn crash_reason_without_text_is_placeholder() {
    let reason = crash_reason(None);
    assert_eq!(reason, "unknown panic reason");
}

#[test]
fn step_success_finishes_without_touching_strategy() {
    let mut strategy = ConstantTimeBackoff::default();
    let action = supervision_step(&mut strategy, TaskOutcome::Success);
    assert!(matches!(action, SupervisionAction::Finish));
}

#[test]
fn step_failure_retries_after_strategy_delay() {
    let mut strategy = ConstantTimeBackoff::default();
    let action = supervision_step(&mut strategy, TaskOutcome::Failure("boom".to_string()));
    match action {
        SupervisionAction::RetryAfter(delay) => assert_eq!(delay, 5000),
        _ => panic!("a failure must be retried"),
    }
}

#[test]
fn step_crash_aborts_with_extracted_reason() {
    let mut strategy = ConstantTimeBackoff::default();
    let action = supervision_step(&mut strategy, TaskOutcome::Crash(Some("oops".to_string())));
    match action {
        SupervisionAction::AbortWithCrash(reason) => assert_eq!(reason, "oops"),
        _ => panic!("a crash must abort"),
    }
}

#[test]
fn fails_once_then_succeeds_logs_in_order() {
    let mut strategy = ConstantTimeBackoff::default();
    let outcomes = vec![TaskOutcome::Failure("boom".to_string()), TaskOutcome::Success];
    let trace = replay_supervision(&mut strategy, &outcomes);
    assert!(matches!(trace.resolution, TaskResolution::Succeeded));
    assert_eq!(trace.log.len(), 5);
    assert!(matches!(trace.log[0], LogRecord::AttemptStarted));
    match &trace.log[1] {
        LogRecord::TaskFailed(message) => assert_eq!(message, "boom"),
        _ => panic!("the first attempt must be logged as failed"),
    }
    match &trace.log[2] {
        LogRecord::SleptFor(delay) => assert_eq!(*delay, 5000),
        _ => panic!("the loop must sleep for the strategy's delay"),
    }
    assert!(matches!(trace.log[3], LogRecord::AttemptStarted));
    assert!(matches!(trace.log[4], LogRecord::TaskFinished));
}

#[test]
fn three_failures_then_success_applies_three_delays() {
    let mut strategy = ConstantTimeBackoff::default();
    let outcomes = vec![
        TaskOutcome::Failure("a".to_string()),
        TaskOutcome::Failure("b".to_string()),
        TaskOutcome::Failure("c".to_string()),
        TaskOutcome::Success,
    ];
    let trace = replay_supervision(&mut strategy, &outcomes);
    assert!(matches!(trace.resolution, TaskResolution::Succeeded));
    assert_eq!(trace.log.len(), 11);
    let failures = trace.log.iter().filter(|r| matches!(r, LogRecord::TaskFailed(_))).count();
    let sleeps = trace.log.iter().filter(|r| matches!(r, LogRecord::SleptFor(_))).count();
    assert_eq!(failures, 3);
    assert_eq!(sleeps, 3);
}

#[test]
fn crash_on_first_attempt_is_never_retried() {
    let mut strategy = ConstantTimeBackoff::default();
    let outcomes = vec![TaskOutcome::Crash(Some("oops".to_string()))];
    let trace = replay_supervision(&mut strategy, &outcomes);
    match &trace.resolution {
        TaskResolution::Crashed(reason) => assert_eq!(reason, "oops"),
        _ => panic!("a crash must surface through the handle"),
    }
    assert_eq!(trace.log.len(), 2);
    assert!(matches!(trace.log[0], LogRecord::AttemptStarted));
    match &trace.log[1] {
        LogRecord::TaskCrashed(reason) => assert_eq!(reason, "oops"),
        _ => panic!("the crash must be logged"),
    }
    let sleeps = trace.log.iter().filter(|r| matches!(r, LogRecord::SleptFor(_))).count();
    assert_eq!(sleeps, 0);
}

#[test]
fn crash_without_text_resolves_with_placeholder() {
    let mut strategy = ConstantTimeBackoff::default();
    let outcomes = vec![TaskOutcome::Crash(None)];
    let trace = replay_supervision(&mut strategy, &outcomes);
    match &trace.resolution {
        TaskResolution::Crashed(reason) => assert_eq!(reason, "unknown panic reason"),
        _ => panic!("a crash must surface through the handle"),
    }
}

#[test]
fn replay_stops_at_first_terminal_outcome() {
    let mut strategy = ConstantTimeBackoff::default();
    let outcomes = vec![
        TaskOutcome::Failure("a".to_string()),
        TaskOutcome::Success,
        TaskOutcome::Failure("never reached".to_string()),
    ];
    let trace = replay_supervision(&mut strategy, &outcomes);
    assert!(matches!(trace.resolution, TaskResolution::Succeeded));
    assert_eq!(trace.log.len(), 5);
}

#[test]
fn replay_with_threshold_strategy_escalates() {
    let factory = ThresholdBucketsFactory::default();
    let mut strategy = factory.create_strategy();
    let outcomes = vec![TaskOutcome::Failure("boom".to_string()), TaskOutcome::Success];
    let trace = replay_supervision(&mut strategy, &outcomes);
    assert!(matches!(trace.resolution, TaskResolution::Succeeded));
    match &trace.log[2] {
        LogRecord::SleptFor(delay) => assert_eq!(*delay, 5000),
        _ => panic!("one recent failure meets the first bucket"),
    }
}
