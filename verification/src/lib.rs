//! Supervised-task execution: run a fallible asynchronous operation until it
//! succeeds, recording failures and applying a pluggable backoff delay between
//! retries, while isolating the caller from crashes inside the task.
//!
//! The [`TaskRunner`] owns a shared context and a strategy factory. The
//! supervision loop itself awaits the task and sleeps between retries, so a
//! host runs it on its scheduler of choice; its decisions are here:
//! [`supervision_step`] maps one attempt's outcome to the next action, and
//! [`replay_supervision`] runs the whole decision loop over a pre-recorded
//! sequence of outcomes, yielding the log records and the final resolution
//! the loop produces.

use std::sync::Arc;

use vstd::prelude::*;

pub mod backoff_strategy;

use backoff_strategy::constant_time::ConstantTimeBackoff;
use backoff_strategy::BackoffStrategy;
use backoff_strategy::DefaultStrategyFactory;
use backoff_strategy::StrategyFactory;

verus! {

/// The reason reported for a crash whose payload carried no text.
pub open spec fn unknown_reason() -> Seq<char> {
    "unknown panic reason"@
}

/// True when `r` is the reason text extracted from the crash payload `p`:
/// a textual payload verbatim, otherwise the generic placeholder.
pub open spec fn reason_matches(p: Option<String>, r: Seq<char>) -> bool {
    match p {
        Some(s) => r == s@,
        None => r == unknown_reason(),
    }
}

/// Extracts the reason text from a crash payload: a textual payload is used
/// verbatim; any other payload yields a generic placeholder.
pub fn crash_reason(payload: Option<String>) -> (r: String)
    ensures
        reason_matches(payload, r@),
{
    match payload {
        Some(s) => s,
        None => "unknown panic reason".to_owned(),
    }
}

/// What one invocation of a supervised task came to: it returned successfully,
/// returned a recoverable error (its display text), or crashed (the textual
/// part of the crash payload, if it had one).
pub enum TaskOutcome {
    Success,
    Failure(String),
    Crash(Option<String>),
}

/// What the supervision loop does after one attempt: resolve the handle
/// successfully, sleep for a delay (milliseconds) and retry, or resolve the
/// handle with the crash reason, never retrying.
pub enum SupervisionAction {
    Finish,
    RetryAfter(u64),
    AbortWithCrash(String),
}

/// One structured log record of the supervision loop, in the order emitted:
/// an attempt starts; the task finished; the task failed (the error text);
/// the loop sleeps for a delay (milliseconds); the task crashed (the
/// extracted reason).
pub enum LogRecord {
    AttemptStarted,
    TaskFinished,
    TaskFailed(String),
    SleptFor(u64),
    TaskCrashed(String),
}

/// What a supervised task's handle resolves to: success, or the extracted
/// reason of a crash. Recoverable failures never surface here.
pub enum TaskResolution {
    Succeeded,
    Crashed(String),
}

/// Decides the supervision loop's next action from one attempt's outcome:
/// success finishes; a recoverable failure is recorded into the strategy and
/// answered with the strategy's delay; a crash aborts with the extracted
/// reason and records nothing.
pub fn supervision_step<S: BackoffStrategy>(strategy: &mut S, outcome: TaskOutcome) -> (a:
    SupervisionAction)
    ensures
        match outcome {
            TaskOutcome::Success => *final(strategy) == *old(strategy) && a
                == SupervisionAction::Finish,
            TaskOutcome::Failure(_) => exists|n1: u64, n2: u64|
                old(strategy).add_failure_rel(n1, *final(strategy)) && a
                    == SupervisionAction::RetryAfter(final(strategy).backoff_spec_at(n2)),
            TaskOutcome::Crash(p) => *final(strategy) == *old(strategy) && (a matches
                SupervisionAction::AbortWithCrash(r) && reason_matches(p, r@)),
        },
{
    match outcome {
        TaskOutcome::Success => SupervisionAction::Finish,
        TaskOutcome::Failure(_) => {
            strategy.add_failure();
            let d: u64 = strategy.next_backoff();
            proof {
                let n1: u64 = choose|n: u64| old(strategy).add_failure_rel(n, *strategy);
                let n2: u64 = choose|n: u64| d == strategy.backoff_spec_at(n);
                assert(old(strategy).add_failure_rel(n1, *strategy) && SupervisionAction::RetryAfter(
                    d,
                ) == SupervisionAction::RetryAfter(strategy.backoff_spec_at(n2)));
            }
            SupervisionAction::RetryAfter(d)
        },
        TaskOutcome::Crash(p) => SupervisionAction::AbortWithCrash(crash_reason(p)),
    }
}

/// True when the decision loop, started on strategy state `s0` and handed the
/// attempt outcomes of `outcomes` in order, may emit exactly the log records
/// `log` and resolve to `res`. One attempt is three records when it fails
/// (started, failed, slept) and two when it ends the task (started, then
/// finished or crashed); outcomes after the terminal one are never reached.
pub open spec fn supervision_trace_ok<S: BackoffStrategy>(
    s0: S,
    outcomes: Seq<TaskOutcome>,
    log: Seq<LogRecord>,
    res: TaskResolution,
) -> bool
    decreases outcomes.len(),
{
    if outcomes.len() == 0 {
        false
    } else {
        match outcomes[0] {
            TaskOutcome::Success => {
                &&& log.len() == 2
                &&& log[0] is AttemptStarted
                &&& log[1] is TaskFinished
                &&& res is Succeeded
            },
            TaskOutcome::Crash(p) => {
                &&& log.len() == 2
                &&& log[0] is AttemptStarted
                &&& (log[1] matches LogRecord::TaskCrashed(r) && reason_matches(p, r@))
                &&& (res matches TaskResolution::Crashed(r) && reason_matches(p, r@))
            },
            TaskOutcome::Failure(m) => {
                &&& log.len() >= 3
                &&& log[0] is AttemptStarted
                &&& (log[1] matches LogRecord::TaskFailed(f) && f@ == m@)
                &&& exists|n1: u64, n2: u64, s1: S|
                    s0.add_failure_rel(n1, s1) && log[2] == LogRecord::SleptFor(
                        s1.backoff_spec_at(n2),
                    ) && supervision_trace_ok(s1, outcomes.drop_first(), log.skip(3), res)
            },
        }
    }
}

/// True when `outcomes` holds a terminal outcome — one that is not a
/// recoverable failure — so a loop fed from it ends.
pub open spec fn has_terminal(outcomes: Seq<TaskOutcome>) -> bool {
    exists|i: int| 0 <= i < outcomes.len() && !((#[trigger] outcomes[i]) is Failure)
}

/// The log records and final resolution of one supervised task.
pub struct SupervisionTrace {
    /// The structured log records, in emission order.
    pub log: Vec<LogRecord>,
    /// What the task's handle resolves to.
    pub resolution: TaskResolution,
}

/// Runs the supervision decision loop over the attempt outcomes recorded in
/// `outcomes` from position `start` on.
fn replay_from<S: BackoffStrategy>(
    strategy: &mut S,
    outcomes: &Vec<TaskOutcome>,
    start: usize,
) -> (t: SupervisionTrace)
    requires
        start < outcomes@.len(),
        has_terminal(outcomes@.skip(start as int)),
    ensures
        supervision_trace_ok(*old(strategy), outcomes@.skip(start as int), t.log@, t.resolution),
    decreases outcomes@.len() - start,
{
    let ghost script = outcomes@.skip(start as int);
    let mut log: Vec<LogRecord> = Vec::new();
    log.push(LogRecord::AttemptStarted);
    match &outcomes[start] {
        TaskOutcome::Success => {
            log.push(LogRecord::TaskFinished);
            SupervisionTrace { log, resolution: TaskResolution::Succeeded }
        },
        TaskOutcome::Crash(p) => {
            let reason = crash_reason(p.clone());
            let resolution = TaskResolution::Crashed(reason.clone());
            log.push(LogRecord::TaskCrashed(reason));
            SupervisionTrace { log, resolution }
        },
        TaskOutcome::Failure(m) => {
            let ghost pre = *strategy;
            strategy.add_failure();
            let ghost mid = *strategy;
            let d: u64 = strategy.next_backoff();
            log.push(LogRecord::TaskFailed(m.clone()));
            log.push(LogRecord::SleptFor(d));
            proof {
                assert(script[0] == outcomes@[start as int]);
                let j: int = choose|i: int|
                    0 <= i < script.len() && !((#[trigger] script[i]) is Failure);
                assert(script.skip(1)[j - 1] == script[j]);
                assert(has_terminal(outcomes@.skip(start + 1))) by {
                    assert(outcomes@.skip(start + 1) =~= script.skip(1));
                }
                vstd::std_specs::vec::axiom_spec_len(outcomes);
                assert(start + 1 < outcomes@.len());
            }
            let rest = replay_from(strategy, outcomes, start + 1);
            let mut full_log = log;
            let mut rest_log = rest.log;
            full_log.append(&mut rest_log);
            proof {
                let n1: u64 = choose|n: u64| pre.add_failure_rel(n, mid);
                let n2: u64 = choose|n: u64| d == mid.backoff_spec_at(n);
                assert(full_log@.skip(3) =~= rest.log@);
                assert(script.drop_first() =~= outcomes@.skip(start + 1));
                assert(pre.add_failure_rel(n1, mid) && full_log@[2] == LogRecord::SleptFor(
                    mid.backoff_spec_at(n2),
                ) && supervision_trace_ok(
                    mid,
                    script.drop_first(),
                    full_log@.skip(3),
                    rest.resolution,
                ));
            }
            SupervisionTrace { log: full_log, resolution: rest.resolution }
        },
    }
}

/// Runs the supervision decision loop over a pre-recorded sequence of attempt
/// outcomes: exactly what the loop decides and logs, less the awaiting and the
/// sleeping. The script must hold a terminal outcome (a success or a crash);
/// whatever follows the first terminal outcome is never reached.
pub fn replay_supervision<S: BackoffStrategy>(strategy: &mut S, outcomes: &Vec<TaskOutcome>) -> (t:
    SupervisionTrace)
    requires
        has_terminal(outcomes@),
    ensures
        supervision_trace_ok(*old(strategy), outcomes@, t.log@, t.resolution),
{
    proof {
        let j: int = choose|i: int|
            0 <= i < outcomes@.len() && !((#[trigger] outcomes@[i]) is Failure);
        assert(0 <= j < outcomes@.len());
        assert(outcomes@.skip(0) =~= outcomes@);
    }
    let t = replay_from(strategy, outcomes, 0);
    proof {
        assert(outcomes@.skip(0) =~= outcomes@);
    }
    t
}

/// Retry-termination law: under a script of `k` recoverable failures followed
/// by a success, the loop resolves successfully after exactly `k` recorded
/// failures and `k` applied delays — the log is `k` failed attempts of three
/// records each (started, failed, slept), then a started and a finished
/// record.
pub proof fn lemma_retry_termination<S: BackoffStrategy>(
    s0: S,
    outcomes: Seq<TaskOutcome>,
    log: Seq<LogRecord>,
    res: TaskResolution,
    k: int,
)
    requires
        0 <= k < outcomes.len(),
        forall|i: int| 0 <= i < k ==> (#[trigger] outcomes[i]) is Failure,
        outcomes[k] is Success,
        supervision_trace_ok(s0, outcomes, log, res),
    ensures
        res is Succeeded,
        log.len() == 3 * k + 2,
        forall|i: int|
            0 <= i < k ==> (#[trigger] log[3 * i]) is AttemptStarted && log[3 * i + 1] is TaskFailed
                && log[3 * i + 2] is SleptFor,
        log[3 * k] is AttemptStarted,
        log[3 * k + 1] is TaskFinished,
    decreases k,
{
    if k == 0 {
    } else {
        assert(outcomes[0] is Failure);
        let (n1, n2, s1): (u64, u64, S) = choose|n1: u64, n2: u64, s1: S|
            s0.add_failure_rel(n1, s1) && log[2] == LogRecord::SleptFor(s1.backoff_spec_at(n2))
                && supervision_trace_ok(s1, outcomes.drop_first(), log.skip(3), res);
        assert(forall|i: int|
            0 <= i < k - 1 ==> (#[trigger] outcomes.drop_first()[i]) == outcomes[i + 1]);
        lemma_retry_termination(s1, outcomes.drop_first(), log.skip(3), res, k - 1);
        assert forall|i: int| 0 <= i < k implies (#[trigger] log[3 * i]) is AttemptStarted && log[3
            * i + 1] is TaskFailed && log[3 * i + 2] is SleptFor by {
            if i > 0 {
                assert(log.skip(3)[3 * (i - 1)] == log[3 * i]);
                assert(log.skip(3)[3 * (i - 1) + 1] == log[3 * i + 1]);
                assert(log.skip(3)[3 * (i - 1) + 2] == log[3 * i + 2]);
            }
        }
        assert(log.skip(3)[3 * (k - 1)] == log[3 * k]);
        assert(log.skip(3)[3 * (k - 1) + 1] == log[3 * k + 1]);
    }
}

/// No-retry-after-crash law: a task that crashes on its first attempt
/// resolves with that crash's extracted reason after exactly one started and
/// one crashed record; no failure is recorded, and no backoff delay is
/// computed or slept.
pub proof fn lemma_no_retry_after_crash<S: BackoffStrategy>(
    s0: S,
    p: Option<String>,
    outcomes: Seq<TaskOutcome>,
    log: Seq<LogRecord>,
    res: TaskResolution,
)
    requires
        outcomes.len() > 0,
        outcomes[0] == TaskOutcome::Crash(p),
        supervision_trace_ok(s0, outcomes, log, res),
    ensures
        log.len() == 2,
        log[0] is AttemptStarted,
        (log[1] matches LogRecord::TaskCrashed(r) && reason_matches(p, r@)),
        (res matches TaskResolution::Crashed(r) && reason_matches(p, r@)),
        forall|i: int| 0 <= i < log.len() ==> !((#[trigger] log[i]) is SleptFor),
{
    assert forall|i: int| 0 <= i < log.len() implies !((#[trigger] log[i]) is SleptFor) by {
        assert(i == 0 || i == 1);
    }
}

/// Every slept delay in a trace of a strategy that recording never changes
/// and that answers the delay `k` at every time is `k`.
proof fn lemma_constant_delay_trace<S: BackoffStrategy>(
    s0: S,
    outcomes: Seq<TaskOutcome>,
    log: Seq<LogRecord>,
    res: TaskResolution,
    k: u64,
)
    requires
        supervision_trace_ok(s0, outcomes, log, res),
        forall|a: S, n: u64, b: S| #[trigger] a.add_failure_rel(n, b) ==> b == a,
        forall|n: u64| s0.backoff_spec_at(n) == k,
    ensures
        forall|i: int|
            0 <= i < log.len() ==> ((#[trigger] log[i]) is SleptFor ==> log[i]
                == LogRecord::SleptFor(k)),
    decreases outcomes.len(),
{
    if outcomes[0] is Failure {
        let (n1, n2, s1): (u64, u64, S) = choose|n1: u64, n2: u64, s1: S|
            s0.add_failure_rel(n1, s1) && log[2] == LogRecord::SleptFor(s1.backoff_spec_at(n2))
                && supervision_trace_ok(s1, outcomes.drop_first(), log.skip(3), res);
        assert(s1 == s0);
        lemma_constant_delay_trace(s1, outcomes.drop_first(), log.skip(3), res, k);
        assert forall|i: int| 0 <= i < log.len() && ((#[trigger] log[i]) is SleptFor) implies log[i]
            == LogRecord::SleptFor(k) by {
            if i >= 3 {
                assert(log.skip(3)[i - 3] == log[i]);
            }
        }
    }
}

/// Default-policy law: under a constant-time strategy, every delay the
/// supervision loop sleeps is the one configured backoff, however many
/// failures the trace records.
pub proof fn lemma_constant_time_trace_delays(
    s0: ConstantTimeBackoff,
    outcomes: Seq<TaskOutcome>,
    log: Seq<LogRecord>,
    res: TaskResolution,
)
    requires
        supervision_trace_ok(s0, outcomes, log, res),
    ensures
        forall|i: int|
            0 <= i < log.len() ==> ((#[trigger] log[i]) is SleptFor ==> log[i]
                == LogRecord::SleptFor(s0.spec_backoff())),
{
    lemma_constant_delay_trace(s0, outcomes, log, res, s0.spec_backoff());
}

/// Relies on std::sync::Arc::clone: the duplicate refers to the same shared
/// value.
#[verifier::external_body]
fn clone_context<T>(app: &Arc<T>) -> (r: Arc<T>)
    ensures
        r == *app,
{
    Arc::clone(app)
}

/// Owns the shared application context and a strategy factory, and configures
/// the supervision of every task spawned under it. Reconfiguration consumes
/// the runner and returns a new one: it never retroactively affects tasks
/// already spawned.
pub struct TaskRunner<T, SF = DefaultStrategyFactory<ConstantTimeBackoff>> {
    app: Arc<T>,
    backoff_strategy: SF,
}

impl<T, SF> TaskRunner<T, SF> {
    /// The shared context this runner duplicates for every spawned task.
    pub closed spec fn spec_context(&self) -> Arc<T> {
        self.app
    }

    /// The factory that builds one strategy instance per spawned task.
    pub closed spec fn spec_factory(&self) -> SF {
        self.backoff_strategy
    }
}

impl<T> TaskRunner<T> {
    /// A runner over the shared context `app`, with the default policy: a
    /// constant five-second backoff.
    pub fn new(app: Arc<T>) -> (r: Self)
        ensures
            r.spec_context() == app,
            r.spec_factory() == DefaultStrategyFactory::<ConstantTimeBackoff>::spec_new(),
    {
        TaskRunner { app, backoff_strategy: DefaultStrategyFactory::new() }
    }
}

impl<T, SF> TaskRunner<T, SF> where T: Send + Sync + 'static, SF: StrategyFactory {
    /// This runner, reconfigured to build the strategy type `NS` by its
    /// default value; the shared context is kept.
    pub fn with_default_strategy<NS>(self) -> (r: TaskRunner<T, DefaultStrategyFactory<NS>>) where
        NS: Default + BackoffStrategy

        ensures
            r.spec_context() == self.spec_context(),
            r.spec_factory() == DefaultStrategyFactory::<NS>::spec_new(),
    {
        TaskRunner { app: self.app, backoff_strategy: DefaultStrategyFactory::new() }
    }

    /// This runner, reconfigured with the given strategy factory; the shared
    /// context is kept.
    pub fn with_strategy<NSF>(self, backoff_strategy: NSF) -> (r: TaskRunner<T, NSF>)
        ensures
            r.spec_context() == self.spec_context(),
            r.spec_factory() == backoff_strategy,
    {
        TaskRunner { app: self.app, backoff_strategy }
    }

    /// A duplicate of the shared context, as handed to each task invocation.
    pub fn context(&self) -> (c: Arc<T>)
        ensures
            c == self.spec_context(),
    {
        clone_context(&self.app)
    }

    /// One independent strategy instance, as created for each newly spawned
    /// task; never shared between tasks.
    pub fn make_strategy(&self) -> (s: SF::Strategy)
        ensures
            self.spec_factory().creates(s),
    {
        self.backoff_strategy.create_strategy()
    }
}

} // verus!

