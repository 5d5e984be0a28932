//! When checks run: choosing the next check, cron schedules, jitter, and the clean-up rules
//! for stuck checks, old sessions and old history.

use vstd::prelude::*;
use crate::status::ServiceStatus;
use crate::errors::MaremmaError;
use rand::seq::IteratorRandom;
use crate::json::{JsonValue, lookup, as_text, get};

verus! {

/// A service check as the scheduler sees it: its status and when it is next due, in
/// milliseconds since the Unix epoch.
#[derive(Clone, Copy, Debug, PartialEq, Eq, Structural)]
pub struct CheckRow {
    /// The current status
    pub status: ServiceStatus,
    /// When the check is next due
    pub next_check: i64,
}

/// The groups of checks the scheduler looks at, in the order it looks at them.
#[derive(Clone, Copy, Debug, PartialEq, Eq, Structural)]
pub enum Tier {
    /// Checks marked urgent, due or not
    Urgent,
    /// Due checks that are pending
    PendingDue,
    /// Any due check that is neither disabled nor running
    AnyDue,
}

/// A check is due when it is neither disabled nor already running and its time has come.
pub open spec fn is_due(r: CheckRow, now: i64) -> bool {
    r.status != ServiceStatus::Disabled && r.status != ServiceStatus::Checking && r.next_check
        <= now
}

/// Does a check belong to a tier?
pub open spec fn in_tier(r: CheckRow, t: Tier, now: i64) -> bool {
    match t {
        Tier::Urgent => r.status == ServiceStatus::Urgent,
        Tier::PendingDue => is_due(r, now) && r.status == ServiceStatus::Pending,
        Tier::AnyDue => is_due(r, now),
    }
}

/// Does some check belong to a tier?
pub open spec fn tier_has(rows: Seq<CheckRow>, t: Tier, now: i64) -> bool {
    exists|i: int| 0 <= i < rows.len() && in_tier(rows[i], t, now)
}

/// Is `i` the check of the tier that is due first (the first such in `rows` on a tie)?
pub open spec fn earliest_in(rows: Seq<CheckRow>, t: Tier, now: i64, i: int) -> bool {
    &&& 0 <= i < rows.len()
    &&& in_tier(rows[i], t, now)
    &&& forall|j: int|
        0 <= j < rows.len() && in_tier(rows[j], t, now) ==> rows[i].next_check <= rows[j].next_check
            && (rows[j].next_check == rows[i].next_check ==> i <= j)
}

/// The next check to run: the earliest urgent check; failing that the earliest due pending
/// check; failing that the earliest due check; or none at all.
pub open spec fn is_next_check(rows: Seq<CheckRow>, now: i64, r: Option<int>) -> bool {
    if tier_has(rows, Tier::Urgent, now) {
        r matches Some(i) && earliest_in(rows, Tier::Urgent, now, i)
    } else if tier_has(rows, Tier::PendingDue, now) {
        r matches Some(i) && earliest_in(rows, Tier::PendingDue, now, i)
    } else if tier_has(rows, Tier::AnyDue, now) {
        r matches Some(i) && earliest_in(rows, Tier::AnyDue, now, i)
    } else {
        r is None
    }
}

fn in_tier_exec(r: &CheckRow, t: Tier, now: i64) -> (b: bool)
    ensures
        b == in_tier(*r, t, now),
{
    let due = r.status != ServiceStatus::Disabled && r.status != ServiceStatus::Checking
        && r.next_check <= now;
    match t {
        Tier::Urgent => r.status == ServiceStatus::Urgent,
        Tier::PendingDue => due && r.status == ServiceStatus::Pending,
        Tier::AnyDue => due,
    }
}

/// The check of a tier that is due first, the first one in `rows` on a tie.
pub fn earliest_in_tier(rows: &Vec<CheckRow>, t: Tier, now: i64) -> (r: Option<usize>)
    ensures
        r is None <==> !tier_has(rows@, t, now),
        r matches Some(i) ==> earliest_in(rows@, t, now, i as int),
{
    let mut best: Option<usize> = None;
    let mut i: usize = 0;
    while i < rows.len()
        invariant
            i <= rows@.len(),
            best is None <==> (forall|j: int| 0 <= j < i ==> !in_tier(rows@[j], t, now)),
            best matches Some(b) ==> b < i && in_tier(rows@[b as int], t, now) && (forall|j: int|
                0 <= j < i && in_tier(rows@[j], t, now) ==> rows@[b as int].next_check
                    <= rows@[j].next_check && (rows@[j].next_check == rows@[b as int].next_check
                    ==> b <= j)),
        decreases rows@.len() - i,
    {
        if in_tier_exec(&rows[i], t, now) {
            match best {
                None => {
                    best = Some(i);
                },
                Some(b) => {
                    if rows[i].next_check < rows[b].next_check {
                        best = Some(i);
                    }
                },
            }
        }
        i += 1;
    }
    proof {
        if best is None {
            assert forall|j: int| 0 <= j < rows@.len() implies !in_tier(rows@[j], t, now) by {}
        } else {
            let b = best->0;
            assert(0 <= b < rows@.len() && in_tier(rows@[b as int], t, now));
        }
    }
    best
}

/// Chooses the next check to run from the checks' statuses and due times.
pub fn select_next_check(rows: &Vec<CheckRow>, now: i64) -> (r: Option<usize>)
    ensures
        is_next_check(
            rows@,
            now,
            match r {
                Some(i) => Some(i as int),
                None => None,
            },
        ),
{
    match earliest_in_tier(rows, Tier::Urgent, now) {
        Some(i) => Some(i),
        None => match earliest_in_tier(rows, Tier::PendingDue, now) {
            Some(i) => Some(i),
            None => earliest_in_tier(rows, Tier::AnyDue, now),
        },
    }
}

/// The next check is never disabled or already running, and unless it is urgent it is due.
pub proof fn next_check_is_runnable(rows: Seq<CheckRow>, now: i64, i: int)
    requires
        is_next_check(rows, now, Some(i)),
    ensures
        0 <= i < rows.len(),
        rows[i].status != ServiceStatus::Disabled,
        rows[i].status != ServiceStatus::Checking,
        rows[i].status != ServiceStatus::Urgent ==> rows[i].next_check <= now,
{
}

/// An urgent check is always chosen before any other check.
pub proof fn urgent_checks_go_first(rows: Seq<CheckRow>, now: i64, i: int, j: int)
    requires
        is_next_check(rows, now, Some(i)),
        0 <= j < rows.len(),
        rows[j].status == ServiceStatus::Urgent,
    ensures
        rows[i].status == ServiceStatus::Urgent,
        rows[i].next_check <= rows[j].next_check,
{
}

/// Without urgent checks, a due pending check is chosen before any other due check.
pub proof fn due_pending_checks_go_next(rows: Seq<CheckRow>, now: i64, i: int, j: int)
    requires
        is_next_check(rows, now, Some(i)),
        forall|k: int| 0 <= k < rows.len() ==> rows[k].status != ServiceStatus::Urgent,
        0 <= j < rows.len(),
        rows[j].status == ServiceStatus::Pending,
        is_due(rows[j], now),
    ensures
        rows[i].status == ServiceStatus::Pending,
        rows[i].next_check <= rows[j].next_check,
{
    assert(in_tier(rows[j], Tier::PendingDue, now));
    if tier_has(rows, Tier::Urgent, now) {
        let k = choose|k: int| 0 <= k < rows.len() && in_tier(rows[k], Tier::Urgent, now);
        assert(rows[k].status == ServiceStatus::Urgent);
    }
}

/// Whenever some check is due or urgent, a check is chosen.
pub proof fn a_due_check_is_never_passed_over(rows: Seq<CheckRow>, now: i64, r: Option<int>, j: int)
    requires
        is_next_check(rows, now, r),
        0 <= j < rows.len(),
        is_due(rows[j], now) || rows[j].status == ServiceStatus::Urgent,
    ensures
        r is Some,
{
    if rows[j].status == ServiceStatus::Urgent {
        assert(in_tier(rows[j], Tier::Urgent, now));
    } else {
        assert(in_tier(rows[j], Tier::AnyDue, now));
    }
}

/// A check that is neither disabled nor running and whose time has come always gets a
/// turn, whatever its last result was: the scheduler then always picks some check.
pub proof fn due_checks_run_whatever_their_last_result(rows: Seq<CheckRow>, now: i64, r: Option<int>, j: int)
    requires
        is_next_check(rows, now, r),
        0 <= j < rows.len(),
        rows[j].status != ServiceStatus::Disabled,
        rows[j].status != ServiceStatus::Checking,
        rows[j].next_check <= now,
    ensures
        r is Some,
{
    assert(in_tier(rows[j], Tier::AnyDue, now));
}

/// The choice of the next check is determined by the checks alone.
pub proof fn next_check_is_unique(rows: Seq<CheckRow>, now: i64, a: Option<int>, b: Option<int>)
    requires
        is_next_check(rows, now, a),
        is_next_check(rows, now, b),
    ensures
        a == b,
{
}

/// How long, in milliseconds, a check may sit in `Checking` before updating the
/// configuration resets it to `Unknown`.
pub const CONFIG_UPDATE_RESET_MS: i64 = 5000;

/// After a configuration update, a check that has been running for more than five
/// seconds since its last check is reset to `Unknown`.
pub open spec fn status_after_config_update(status: ServiceStatus, last_check: i64, now: i64) -> ServiceStatus {
    if status == ServiceStatus::Checking && last_check + CONFIG_UPDATE_RESET_MS < now {
        ServiceStatus::Unknown
    } else {
        status
    }
}

/// Resetting after a configuration update a second time changes nothing more.
pub proof fn config_update_reset_is_idempotent(status: ServiceStatus, last_check: i64, now: i64)
    ensures
        status_after_config_update(status_after_config_update(status, last_check, now), last_check, now)
            == status_after_config_update(status, last_check, now),
{
}

/// The status a check keeps, or is reset to, when the configuration is loaded again.
pub fn reset_after_config_update(status: ServiceStatus, last_check: i64, now: i64) -> (r: ServiceStatus)
    ensures
        r == status_after_config_update(status, last_check, now),
{
    if status == ServiceStatus::Checking && (last_check as i128) + (CONFIG_UPDATE_RESET_MS as i128)
        < (now as i128) {
        ServiceStatus::Unknown
    } else {
        status
    }
}

/// The sweep for stuck checks puts a check back to `Pending` once it has been in
/// `Checking` without an update for the stuck time.
pub open spec fn status_after_stuck_sweep(status: ServiceStatus, last_updated: i64, now: i64) -> ServiceStatus {
    if status == ServiceStatus::Checking && last_updated < now - crate::constants::STUCK_CHECK_MINUTES
        * 60_000 {
        ServiceStatus::Pending
    } else {
        status
    }
}

/// The status a check has after the sweep for stuck checks.
pub fn sweep_stuck_check(status: ServiceStatus, last_updated: i64, now: i64) -> (r: ServiceStatus)
    ensures
        r == status_after_stuck_sweep(status, last_updated, now),
{
    let window: i128 = (crate::constants::STUCK_CHECK_MINUTES as i128) * 60_000;
    if status == ServiceStatus::Checking && (last_updated as i128) < (now as i128) - window {
        ServiceStatus::Pending
    } else {
        status
    }
}

/// A session is cleaned up once it has been expired for longer than the expiry window.
pub fn session_is_stale(expiry: i64, now: i64) -> (r: bool)
    ensures
        r == (expiry < now - crate::constants::SESSION_EXPIRY_WINDOW_HOURS * 3_600_000),
{
    let window: i128 = (crate::constants::SESSION_EXPIRY_WINDOW_HOURS as i128) * 3_600_000;
    (expiry as i128) < (now as i128) - window
}

/// Pruning history is refused for a cut-off time in the future.
pub fn check_prune_time(after_time: i64, now: i64) -> (r: Result<(), MaremmaError>)
    ensures
        after_time > now <==> r is Err,
        r matches Err(e) ==> e is DateIsInTheFuture,
{
    if after_time > now {
        return Err(MaremmaError::DateIsInTheFuture);
    }
    Ok(())
}

/// The history entries of a check to delete so that only its newest `leave_remaining`
/// remain: given the entries' IDs newest first, all but the first `leave_remaining` of
/// them. Exactly `min(count, leave_remaining)` entries are left.
pub fn history_to_delete(ids_newest_first: &Vec<u128>, leave_remaining: u64) -> (r: Vec<u128>)
    ensures
        (leave_remaining as int) < ids_newest_first@.len() ==> r@ == ids_newest_first@.skip(leave_remaining as int),
        (leave_remaining as int) >= ids_newest_first@.len() ==> r@.len() == 0,
        ids_newest_first@.len() - r@.len() == if (leave_remaining as int) < ids_newest_first@.len() {
            leave_remaining as int
        } else {
            ids_newest_first@.len() as int
        },
{
    let mut out: Vec<u128> = Vec::new();
    if (leave_remaining as u128) >= (ids_newest_first.len() as u128) {
        return out;
    }
    let start = leave_remaining as usize;
    let mut i: usize = start;
    while i < ids_newest_first.len()
        invariant
            start == leave_remaining,
            start <= i <= ids_newest_first@.len(),
            out@ == ids_newest_first@.subrange(start as int, i as int),
        decreases ids_newest_first@.len() - i,
    {
        out.push(ids_newest_first[i]);
        proof {
            assert(out@ =~= ids_newest_first@.subrange(start as int, i + 1));
        }
        i += 1;
    }
    proof {
        assert(out@ =~= ids_newest_first@.skip(start as int));
    }
    out
}

/// Does a check with `count` history entries have more than the `target` it may keep?
/// The count is read as an unsigned number, as the database query's count is.
pub fn history_needs_trim(count: i64, target: u64) -> (r: bool)
    ensures
        count >= 0 ==> r == (count > target),
        count < 0 ==> r == (count + 0x1_0000_0000_0000_0000 > target),
{
    if count >= 0 {
        (count as u64) > target
    } else {
        let wrapped: i128 = (count as i128) + 0x1_0000_0000_0000_0000;
        wrapped > (target as i128)
    }
}

/// How long the shepherd sleeps after a round that took `elapsed_ms`: the rest of the
/// minute, or not at all when the round took a minute or more.
pub fn shepherd_sleep_ms(elapsed_ms: u64) -> (r: Option<u64>)
    ensures
        elapsed_ms < 60_000 ==> r == Some((60_000 - elapsed_ms) as u64),
        elapsed_ms >= 60_000 ==> r is None,
{
    if elapsed_ms < 60_000 {
        Some(60_000 - elapsed_ms)
    } else {
        None
    }
}

/// What `croner` makes of a cron pattern: its normalised pattern, or the error text.
pub uninterp spec fn cron_parse_result(pattern: Seq<char>) -> Result<Seq<char>, Seq<char>>;

/// Parses a cron pattern with `croner::Cron::new(..).parse()`. The result is the named
/// result of the pattern: the normalised pattern text (nicknames such as `@daily` spelled
/// out), or the error's text. Which patterns are accepted is left to croner.
#[verifier::external_body]
pub(crate) fn parse_cron(pattern: &str) -> (r: Result<String, String>)
    ensures
        match r {
            Ok(p) => cron_parse_result(pattern@) == Ok::<Seq<char>, Seq<char>>(p@),
            Err(e) => cron_parse_result(pattern@) == Err::<Seq<char>, Seq<char>>(e@),
        },
{
    match croner::Cron::new(pattern).parse() {
        Ok(cron) => Ok(cron.pattern.to_string()),
        Err(err) => Err(err.to_string()),
    }
}

/// The next time after `after_ms` that a cron pattern matches, in UTC, as `croner` finds it,
/// or the error's text.
pub uninterp spec fn cron_next_occurrence(pattern: Seq<char>, after_ms: int) -> Result<int, Seq<char>>;

/// Finds the next time strictly after `after_ms` (milliseconds since the Unix epoch, UTC)
/// that the cron pattern matches, with `croner`: the pattern is parsed and
/// `find_next_occurrence(.., false)` is asked. The time comes back in milliseconds; being a
/// `chrono` time it lies within chrono's range of years, well inside ±9·10^15 ms.
/// Which time is found is left to croner and named.
#[verifier::external_body]
pub(crate) fn next_cron_occurrence(pattern: &str, after_ms: i64) -> (r: Result<i64, String>)
    ensures
        match r {
            Ok(t) => cron_next_occurrence(pattern@, after_ms as int) == Ok::<int, Seq<char>>(
                t as int,
            ) && after_ms < t && -9_000_000_000_000_000 <= t <= 9_000_000_000_000_000,
            Err(e) => cron_next_occurrence(pattern@, after_ms as int) == Err::<int, Seq<char>>(e@),
        },
{
    let start = match chrono::DateTime::from_timestamp_millis(after_ms) {
        Some(start) => start,
        None => return Err(croner::errors::CronError::InvalidTime.to_string()),
    };
    match croner::Cron::new(pattern).parse() {
        Ok(cron) => match cron.find_next_occurrence(&start, false) {
            Ok(next) => Ok(next.timestamp_millis()),
            Err(err) => Err(err.to_string()),
        },
        Err(err) => Err(err.to_string()),
    }
}

/// A random number below `bound` (zero when `bound` is zero), from
/// `rand::seq::IteratorRandom::choose` over `0..bound` with the thread's generator.
#[verifier::external_body]
pub(crate) fn random_below(bound: u32) -> (r: u32)
    ensures
        bound == 0 ==> r == 0,
        bound > 0 ==> r < bound,
{
    (0..bound).choose(&mut rand::thread_rng()).unwrap_or(0)
}

/// Should a task on a cron schedule that last ran at `last_run` run at `now`? It should
/// once the pattern's next time after the last run has come.
pub fn cron_task_should_run(pattern: &str, last_run: i64, now: i64) -> (r: Result<bool, MaremmaError>)
    ensures
        match cron_next_occurrence(pattern@, last_run as int) {
            Ok(t) => r == Ok::<bool, MaremmaError>(t <= now),
            Err(e) => r matches Err(MaremmaError::CronParseError(m)) && m@ == e,
        },
{
    match next_cron_occurrence(pattern, last_run) {
        Ok(t) => Ok(t <= now),
        Err(e) => Err(MaremmaError::CronParseError(e)),
    }
}

/// The time a check is next due after a result: the pattern's next time after `now`,
/// pushed back by `jitter_seconds` seconds.
pub fn next_check_time(pattern: &str, now: i64, jitter_seconds: u32) -> (r: Result<i64, MaremmaError>)
    ensures
        match cron_next_occurrence(pattern@, now as int) {
            Ok(t) => r matches Ok(n) && t <= n && (jitter_seconds == 0 ==> n == t) && (
            jitter_seconds > 0 ==> n < t + jitter_seconds * 1000) && (n - t) % 1000 == 0,
            Err(e) => r matches Err(MaremmaError::CronParseError(m)) && m@ == e,
        },
{
    match next_cron_occurrence(pattern, now) {
        Ok(t) => {
            let j = random_below(jitter_seconds);
            let offset: i64 = (j as i64) * 1000;
            Ok(t + offset)
        },
        Err(e) => Err(MaremmaError::CronParseError(e)),
    }
}

} // verus!

verus! {

/// A cron schedule that `croner` has accepted, kept as its normalised pattern.
#[derive(Debug)]
pub struct CronSchedule {
    pattern: String,
}

impl View for CronSchedule {
    type V = Seq<char>;

    closed spec fn view(&self) -> Seq<char> {
        self.pattern@
    }
}

impl CronSchedule {
    /// Parses a cron pattern of five fields, such as `@hourly` or `0 0 * * *`. What is
    /// accepted, and the normalised pattern, are croner's; a refusal carries its text.
    pub fn parse(text: &str) -> (r: Result<CronSchedule, String>)
        ensures
            match cron_parse_result(text@) {
                Ok(p) => r matches Ok(c) && c@ == p,
                Err(e) => r matches Err(m) && m@ == e,
            },
    {
        match parse_cron(text) {
            Ok(p) => Ok(CronSchedule { pattern: p }),
            Err(e) => Err(e),
        }
    }

    /// The normalised pattern.
    pub fn pattern(&self) -> (r: &str)
        ensures
            r@ == self@,
    {
        self.pattern.as_str()
    }

    /// A copy of the schedule.
    pub fn duplicate(&self) -> (r: CronSchedule)
        ensures
            r@ == self@,
    {
        CronSchedule { pattern: self.pattern.clone() }
    }
}

/// How a field of a host's configuration overlays a cron schedule: a missing field keeps
/// the default; a string that croner accepts replaces it; a field that is not a string, or
/// a pattern croner refuses, is an error (`Err(true)` and `Err(false)`).
pub open spec fn overlay_cron(field: Option<JsonValue>, default: Seq<char>) -> Result<Seq<char>, bool> {
    match field {
        None => Ok(default),
        Some(v) => match as_text(v) {
            None => Err(true),
            Some(t) => match cron_parse_result(t) {
                Ok(p) => Ok(p),
                Err(_) => Err(false),
            },
        },
    }
}

/// A cron schedule overlaid by a field; see [`overlay_cron`]. A field that is not a string
/// gives `Generic("Failed to get cron_schedule")`, a refused pattern
/// `Generic("Failed to parse cron_schedule")`.
pub fn extract_cron(entries: &Vec<(String, JsonValue)>, key: &str, default: &CronSchedule) -> (r: Result<CronSchedule, MaremmaError>)
    ensures
        match overlay_cron(lookup(entries@, key@), default@) {
            Ok(p) => r matches Ok(c) && c@ == p,
            Err(true) => r matches Err(MaremmaError::Generic(m)) && m@ == "Failed to get cron_schedule"@,
            Err(false) => r matches Err(MaremmaError::Generic(m)) && m@ == "Failed to parse cron_schedule"@,
        },
{
    match get(entries, key) {
        None => Ok(default.duplicate()),
        Some(JsonValue::Str(s)) => match CronSchedule::parse(s.as_str()) {
            Ok(c) => Ok(c),
            Err(_) => Err(MaremmaError::Generic("Failed to parse cron_schedule".to_owned())),
        },
        Some(_) => Err(MaremmaError::Generic("Failed to get cron_schedule".to_owned())),
    }
}

} // verus!

verus! {

/// The modification times of the TLS certificate and key last seen, in milliseconds since
/// the Unix epoch.
#[derive(Clone, Copy, Debug, PartialEq, Eq, Structural)]
pub struct CertWatch {
    /// When the certificate file last changed
    pub cert_time: i64,
    /// When the key file last changed
    pub key_time: i64,
}

impl CertWatch {
    /// Takes in the files' current times and says whether the web server must reload: it
    /// must when either file changed. The current times are kept either way.
    pub fn observe(&mut self, cert_time: i64, key_time: i64) -> (reload: bool)
        ensures
            reload == (cert_time != old(self).cert_time || key_time != old(self).key_time),
            final(self).cert_time == cert_time,
            final(self).key_time == key_time,
    {
        let reload = cert_time != self.cert_time || key_time != self.key_time;
        self.cert_time = cert_time;
        self.key_time = key_time;
        reload
    }
}

} // verus!
