//! The results of service checks, how they are reported, and the decisions of the
//! loop that runs the checks.

use vstd::prelude::*;
use crate::status::{ServiceStatus, status_name, is_failure_status};
use crate::text::{push_str, uuid_string, uuid_text};
use crate::clock::now_millis;

verus! {

/// The end result of a service check. Times are in milliseconds since the Unix epoch.
#[derive(Clone, Debug)]
pub struct CheckResult {
    /// When the check finished
    pub timestamp: i64,
    /// How long it took, in milliseconds
    pub time_elapsed: i64,
    /// The result
    pub status: ServiceStatus,
    /// Any explanatory/returned text
    pub result_text: String,
}

impl Default for CheckResult {
    fn default() -> (r: Self)
        ensures
            r.time_elapsed == 0,
            r.status == ServiceStatus::Unknown,
            r.result_text@ == Seq::<char>::empty(),
    {
        CheckResult {
            timestamp: now_millis(),
            time_elapsed: 0,
            status: ServiceStatus::Unknown,
            result_text: String::new(),
        }
    }
}

/// The result of a check that started at `started` and finished at `finished`: it is
/// stamped with its start and took the time between the two.
pub fn timed_result(status: ServiceStatus, result_text: String, started: i64, finished: i64) -> (r: CheckResult)
    requires
        i64::MIN <= finished - started <= i64::MAX,
    ensures
        r.timestamp == started,
        r.time_elapsed == finished - started,
        r.status == status,
        r.result_text == result_text,
{
    CheckResult { timestamp: started, time_elapsed: finished - started, status, result_text }
}

/// How loudly a check result is logged.
#[derive(Clone, Copy, Debug, PartialEq, Eq, Structural)]
pub enum ReportLevel {
    /// Ordinary progress
    Info,
    /// Something went wrong or needs attention
    Warn,
}

/// What is recorded about a finished check in its tracing span and log line.
#[derive(Clone, Debug)]
pub struct CheckReport {
    /// The displayed status
    pub status: String,
    /// How long the check took, in milliseconds
    pub duration_ms: i64,
    /// Set when the span is marked as an error, with the description to give it
    pub error_description: Option<String>,
    /// The log level
    pub level: ReportLevel,
    /// The log message
    pub message: String,
    /// The check's own text
    pub result_text: String,
}

/// The log message for a status.
pub open spec fn report_message(s: ServiceStatus) -> Seq<char> {
    if is_failure_status(s) {
        "Service check failed"@
    } else if s == ServiceStatus::Warning {
        "Service check completed with a warning"@
    } else {
        "Service check completed"@
    }
}

/// What is recorded about a finished check: failures mark the span as an error with the
/// result text as its description and log a warning, warnings log a warning, and every
/// other status logs at info level.
pub fn record_check_result(result: &CheckResult) -> (r: CheckReport)
    ensures
        r.status@ == status_name(result.status),
        r.duration_ms == result.time_elapsed,
        is_failure_status(result.status) ==> (r.error_description matches Some(d) && d@
            == result.result_text@),
        !is_failure_status(result.status) ==> r.error_description is None,
        r.level == (if is_failure_status(result.status) || result.status == ServiceStatus::Warning {
            ReportLevel::Warn
        } else {
            ReportLevel::Info
        }),
        r.message@ == report_message(result.status),
        r.result_text@ == result.result_text@,
{
    let failed = result.status.is_failure();
    let (level, message, error_description) = if failed {
        (ReportLevel::Warn, "Service check failed", Some(result.result_text.clone()))
    } else if result.status == ServiceStatus::Warning {
        (ReportLevel::Warn, "Service check completed with a warning", None)
    } else {
        (ReportLevel::Info, "Service check completed", None)
    };
    CheckReport {
        status: result.status.to_string(),
        duration_ms: result.time_elapsed,
        error_description,
        level,
        message: String::from_str(message),
        result_text: result.result_text.clone(),
    }
}

/// The result of a check that could not be run, with status `Error`.
pub open spec fn error_result_ok(r: CheckResult, text: Seq<char>, elapsed: i64, now: i64) -> bool {
    &&& r.status == ServiceStatus::Error
    &&& r.time_elapsed == elapsed
    &&& r.timestamp == now
    &&& r.result_text@ == text
}

/// The result recorded when a service could not be turned into a runnable check.
pub fn conversion_failure_result(service_check_id: u128, error: &str, elapsed: i64, now: i64) -> (r:
    CheckResult)
    ensures
        error_result_ok(
            r,
            "Failed to convert service check "@ + uuid_text(service_check_id) + " to service: "@
                + error@,
            elapsed,
            now,
        ),
{
    let mut text = String::from_str("Failed to convert service check ");
    push_str(&mut text, uuid_string(service_check_id).as_str());
    push_str(&mut text, " to service: ");
    push_str(&mut text, error);
    CheckResult { timestamp: now, time_elapsed: elapsed, status: ServiceStatus::Error, result_text: text }
}

/// The result recorded when the host of a service check cannot be found.
pub fn missing_host_result(service_check_id: u128, elapsed: i64, now: i64) -> (r: CheckResult)
    ensures
        error_result_ok(
            r,
            "Failed to get host for service check: "@ + uuid_text(service_check_id),
            elapsed,
            now,
        ),
{
    let mut text = String::from_str("Failed to get host for service check: ");
    push_str(&mut text, uuid_string(service_check_id).as_str());
    CheckResult { timestamp: now, time_elapsed: elapsed, status: ServiceStatus::Error, result_text: text }
}

/// The result recorded when running a check returned an error.
pub fn run_error_result(error: &str, elapsed: i64, now: i64) -> (r: CheckResult)
    ensures
        error_result_ok(r, "Error: "@ + error@, elapsed, now),
{
    let mut text = String::from_str("Error: ");
    push_str(&mut text, error);
    CheckResult { timestamp: now, time_elapsed: elapsed, status: ServiceStatus::Error, result_text: text }
}

/// The backoff after a check was found and started, in milliseconds.
pub const DEFAULT_BACKOFF_MS: u64 = 50;
/// The longest the loop waits when there is nothing to do, in milliseconds.
pub const MAX_BACKOFF_MS: u64 = 1000;

/// The backoff after one more idle turn of the loop.
pub open spec fn next_backoff(b: int) -> int {
    if b + DEFAULT_BACKOFF_MS <= MAX_BACKOFF_MS {
        b + DEFAULT_BACKOFF_MS
    } else {
        MAX_BACKOFF_MS as int
    }
}

/// The backoff after `k` idle turns, starting from `b`.
pub open spec fn backoff_after_idles(b: int, k: nat) -> int
    decreases k,
{
    if k == 0 {
        b
    } else {
        next_backoff(backoff_after_idles(b, (k - 1) as nat))
    }
}

/// The state of the loop that runs service checks: how long it waits when idle, and how
/// many checks it runs at once.
pub struct CheckLoop {
    backoff_ms: u64,
    max_permits: usize,
}

impl CheckLoop {
    /// The current backoff in milliseconds.
    pub closed spec fn backoff(&self) -> int {
        self.backoff_ms as int
    }

    /// How many checks may run at once.
    pub closed spec fn permits(&self) -> int {
        self.max_permits as int
    }

    #[verifier::type_invariant]
    closed spec fn well_formed(&self) -> bool {
        &&& DEFAULT_BACKOFF_MS <= self.backoff_ms <= MAX_BACKOFF_MS
        &&& self.max_permits >= 1
    }

    /// A new loop state: at least one check may run, and the backoff starts at its default.
    pub fn new(max_concurrent_checks: usize) -> (r: Self)
        ensures
            r.backoff() == DEFAULT_BACKOFF_MS,
            r.permits() == (if max_concurrent_checks >= 1 {
                max_concurrent_checks as int
            } else {
                1
            }),
    {
        let max_permits = if max_concurrent_checks >= 1 {
            max_concurrent_checks
        } else {
            1
        };
        CheckLoop { backoff_ms: DEFAULT_BACKOFF_MS, max_permits }
    }

    /// How many checks may run at once.
    pub fn max_permits(&self) -> (r: usize)
        ensures
            r == self.permits(),
            r >= 1,
    {
        proof {
            use_type_invariant(self);
        }
        self.max_permits
    }

    /// The current backoff in milliseconds.
    pub fn backoff_ms(&self) -> (r: u64)
        ensures
            r == self.backoff(),
            DEFAULT_BACKOFF_MS <= r <= MAX_BACKOFF_MS,
    {
        proof {
            use_type_invariant(self);
        }
        self.backoff_ms
    }

    /// With `running` checks in flight, must the loop wait for one to finish before starting another?
    pub fn must_wait_for_slot(&self, running: usize) -> (r: bool)
        ensures
            r == (running >= self.permits()),
    {
        running >= self.max_permits
    }

    /// A check was found and started: the backoff goes back to its default.
    pub fn check_started(&mut self)
        ensures
            final(self).backoff() == DEFAULT_BACKOFF_MS,
            final(self).permits() == old(self).permits(),
    {
        proof {
            use_type_invariant(&*self);
        }
        self.backoff_ms = DEFAULT_BACKOFF_MS;
    }

    /// No check was due: the backoff grows by its default step up to its maximum, and the
    /// loop waits that long.
    pub fn idle(&mut self) -> (sleep_ms: u64)
        ensures
            final(self).backoff() == next_backoff(old(self).backoff()),
            final(self).permits() == old(self).permits(),
            sleep_ms == final(self).backoff(),
    {
        proof {
            use_type_invariant(&*self);
        }
        let next = if self.backoff_ms + DEFAULT_BACKOFF_MS <= MAX_BACKOFF_MS {
            self.backoff_ms + DEFAULT_BACKOFF_MS
        } else {
            MAX_BACKOFF_MS
        };
        self.backoff_ms = next;
        next
    }
}

/// An idle turn keeps the backoff between the default and the maximum, and never shrinks it.
pub proof fn idle_keeps_backoff_bounded(b: int)
    requires
        DEFAULT_BACKOFF_MS <= b <= MAX_BACKOFF_MS,
    ensures
        DEFAULT_BACKOFF_MS <= next_backoff(b) <= MAX_BACKOFF_MS,
        b <= next_backoff(b),
{
}

/// After `k` idle turns from a fresh start the loop waits `min(MAX, DEFAULT * (k + 1))`
/// milliseconds, so the wait never exceeds the maximum and reaches it after 19 idle turns.
pub proof fn idle_backoff_closed_form(k: nat)
    ensures
        backoff_after_idles(DEFAULT_BACKOFF_MS as int, k) == (if DEFAULT_BACKOFF_MS * (k + 1)
            <= MAX_BACKOFF_MS {
            DEFAULT_BACKOFF_MS * (k + 1)
        } else {
            MAX_BACKOFF_MS as int
        }),
    decreases k,
{
    if k > 0 {
        idle_backoff_closed_form((k - 1) as nat);
    }
}

/// How many checks are running after a run of the loop's events: `true` is a check
/// started, `false` one finished.
pub open spec fn running_after(events: Seq<bool>) -> int
    decreases events.len(),
{
    if events.len() == 0 {
        0
    } else {
        let before = running_after(events.drop_last());
        if events.last() {
            before + 1
        } else if before > 0 {
            before - 1
        } else {
            0
        }
    }
}

/// Did the loop start each check only when it did not have to wait for a slot, that is,
/// with fewer checks running than it has permits (see [`CheckLoop::must_wait_for_slot`])?
pub open spec fn starts_respect_slots(events: Seq<bool>, permits: int) -> bool {
    forall|i: int| 0 <= i < events.len() && #[trigger] events[i] ==> running_after(events.take(i)) < permits
}

/// A loop that starts checks only when a slot is free never runs more checks at once than
/// it has permits, at any point of its run.
pub proof fn running_checks_never_exceed_permits(events: Seq<bool>, permits: int, k: int)
    requires
        permits >= 1,
        starts_respect_slots(events, permits),
        0 <= k <= events.len(),
    ensures
        0 <= running_after(events.take(k)) <= permits,
    decreases k,
{
    if k > 0 {
        running_checks_never_exceed_permits(events, permits, k - 1);
        assert(events.take(k).drop_last() =~= events.take(k - 1));
        assert(events.take(k).last() == events[k - 1]);
        if events[k - 1] {
            assert(running_after(events.take(k - 1)) < permits);
        }
    }
}

/// How a supervised check task ended.
#[derive(Clone, Debug)]
pub enum TaskOutcome {
    /// The check ran and left this status
    Finished(ServiceStatus),
    /// Running the check failed with this error text
    Failed(String),
    /// The check task panicked
    Panicked,
}

/// What the supervisor does with a finished task.
#[derive(Clone, Debug)]
pub struct SupervisedResult {
    /// The status the task ended with
    pub status: ServiceStatus,
    /// Whether the service check must be set to `Error` in the database
    pub persist_error_status: bool,
    /// Whether the span is marked as an error
    pub span_error: bool,
    /// The description the span is given, if any
    pub span_description: Option<String>,
}

/// Decides what the supervisor records for a finished check task: a finished check keeps
/// its status and marks the span as an error when that status is a failure; a failed or
/// panicked task ends in `Error`, which is persisted.
pub fn supervise(outcome: TaskOutcome) -> (r: SupervisedResult)
    ensures
        match outcome {
            TaskOutcome::Finished(s) => {
                &&& r.status == s
                &&& !r.persist_error_status
                &&& r.span_error == is_failure_status(s)
                &&& r.span_description is None
            },
            TaskOutcome::Failed(e) => {
                &&& r.status == ServiceStatus::Error
                &&& r.persist_error_status
                &&& r.span_error
                &&& r.span_description matches Some(d) && d@ == e@
            },
            TaskOutcome::Panicked => {
                &&& r.status == ServiceStatus::Error
                &&& r.persist_error_status
                &&& r.span_error
                &&& r.span_description matches Some(d) && d@ == "service check task panicked"@
            },
        },
{
    match outcome {
        TaskOutcome::Finished(s) => SupervisedResult {
            status: s,
            persist_error_status: false,
            span_error: s.is_failure(),
            span_description: None,
        },
        TaskOutcome::Failed(e) => SupervisedResult {
            status: ServiceStatus::Error,
            persist_error_status: true,
            span_error: true,
            span_description: Some(e),
        },
        TaskOutcome::Panicked => SupervisedResult {
            status: ServiceStatus::Error,
            persist_error_status: true,
            span_error: true,
            span_description: Some(String::from_str("service check task panicked")),
        },
    }
}

} // verus!
