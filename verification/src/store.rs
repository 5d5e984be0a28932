//! The service checks and their history as the database actor keeps them: handing out the
//! next check to run, and recording what a check found.

use vstd::prelude::*;
use crate::check_loop::CheckResult;
use crate::errors::MaremmaError;
use crate::ids::new_uuid;
use crate::schedule::{CheckRow, is_next_check, select_next_check, next_check_time, cron_next_occurrence, next_check_is_runnable};
use crate::status::ServiceStatus;

verus! {

/// A stored service check. Times are in milliseconds since the Unix epoch.
#[derive(Clone, Copy, Debug, PartialEq, Eq, Structural)]
pub struct CheckRecord {
    /// The check's ID
    pub id: u128,
    /// The service's ID
    pub service_id: u128,
    /// The host's ID
    pub host_id: u128,
    /// The current status
    pub status: ServiceStatus,
    /// When the check last ran
    pub last_check: i64,
    /// When the check is next due
    pub next_check: i64,
    /// When the check last changed
    pub last_updated: i64,
}

/// A stored result of a check.
#[derive(Debug)]
pub struct HistoryEntry {
    /// The entry's ID
    pub id: u128,
    /// When it was stored
    pub timestamp: i64,
    /// The check it belongs to
    pub service_check_id: u128,
    /// The status the check found
    pub status: ServiceStatus,
    /// How long the check took, in milliseconds
    pub time_elapsed: i64,
    /// The check's text
    pub result_text: String,
}

/// The history entry for a result of the check `service_check_id`, stored at `now`, with a
/// fresh random ID.
pub fn history_entry(service_check_id: u128, result: &CheckResult, now: i64) -> (r: HistoryEntry)
    ensures
        r.service_check_id == service_check_id,
        r.status == result.status,
        r.timestamp == now,
        r.time_elapsed == result.time_elapsed,
        r.result_text@ == result.result_text@,
{
    HistoryEntry {
        id: new_uuid(),
        service_check_id,
        status: result.status,
        timestamp: now,
        time_elapsed: result.time_elapsed,
        result_text: result.result_text.clone(),
    }
}

/// The checks as the scheduler sees them.
pub open spec fn rows_of(records: Seq<CheckRecord>) -> Seq<CheckRow> {
    records.map_values(|r: CheckRecord| CheckRow { status: r.status, next_check: r.next_check })
}

/// The position of the first check with `id`, if any.
pub open spec fn position_of(records: Seq<CheckRecord>, id: u128) -> Option<int>
    decreases records.len(),
{
    if records.len() == 0 {
        None
    } else if records[0].id == id {
        Some(0)
    } else {
        match position_of(records.drop_first(), id) {
            Some(i) => Some(i + 1),
            None => None,
        }
    }
}

proof fn lemma_position_of(records: Seq<CheckRecord>, id: u128)
    ensures
        position_of(records, id) matches Some(i) ==> 0 <= i < records.len() && records[i].id == id
            && forall|j: int| 0 <= j < i ==> records[j].id != id,
        position_of(records, id) is None ==> forall|j: int| 0 <= j < records.len() ==> records[j].id != id,
    decreases records.len(),
{
    if records.len() > 0 && records[0].id != id {
        lemma_position_of(records.drop_first(), id);
        if let Some(i) = position_of(records.drop_first(), id) {
            assert forall|j: int| 0 <= j < i + 1 implies records[j].id != id by {
                if j > 0 {
                    assert(records[j] == records.drop_first()[j - 1]);
                }
            }
        } else {
            assert forall|j: int| 0 <= j < records.len() implies records[j].id != id by {
                if j > 0 {
                    assert(records[j] == records.drop_first()[j - 1]);
                }
            }
        }
    }
}

proof fn lemma_position_at(records: Seq<CheckRecord>, id: u128, i: int)
    requires
        0 <= i < records.len(),
        records[i].id == id,
        forall|j: int| 0 <= j < i ==> records[j].id != id,
    ensures
        position_of(records, id) == Some(i),
    decreases i,
{
    if i > 0 {
        lemma_position_at(records.drop_first(), id, i - 1);
    }
}

proof fn lemma_position_none(records: Seq<CheckRecord>, id: u128)
    requires
        forall|j: int| 0 <= j < records.len() ==> records[j].id != id,
    ensures
        position_of(records, id) is None,
    decreases records.len(),
{
    if records.len() > 0 {
        lemma_position_none(records.drop_first(), id);
    }
}

/// Do the checks all have different IDs?
pub open spec fn ids_distinct(records: Seq<CheckRecord>) -> bool {
    forall|i: int, j: int| 0 <= i < j < records.len() ==> records[i].id != records[j].id
}

proof fn lemma_update_keeps_ids(records: Seq<CheckRecord>, i: int, r: CheckRecord)
    requires
        ids_distinct(records),
        0 <= i < records.len(),
        r.id == records[i].id,
    ensures
        ids_distinct(records.update(i, r)),
{
    let u = records.update(i, r);
    assert forall|a: int, b: int| 0 <= a < b < u.len() implies u[a].id != u[b].id by {
        assert(u[a].id == records[a].id);
        assert(u[b].id == records[b].id);
    }
}

proof fn lemma_position_distinct(records: Seq<CheckRecord>, i: int)
    requires
        ids_distinct(records),
        0 <= i < records.len(),
    ensures
        position_of(records, records[i].id) == Some(i),
{
    lemma_position_at(records, records[i].id, i);
}

/// A check with its status set.
pub open spec fn with_status(r: CheckRecord, status: ServiceStatus) -> CheckRecord {
    CheckRecord { status, ..r }
}

/// The service checks and their results.
#[derive(Debug)]
pub struct CheckStore {
    records: Vec<CheckRecord>,
    history: Vec<HistoryEntry>,
}

impl CheckStore {
    #[verifier::type_invariant]
    closed spec fn well_formed(&self) -> bool {
        ids_distinct(self.records@)
    }

    /// The stored checks.
    pub closed spec fn checks(&self) -> Seq<CheckRecord> {
        self.records@
    }

    /// The number of stored results.
    pub closed spec fn history_len(&self) -> nat {
        self.history@.len()
    }

    /// The stored results.
    pub closed spec fn history_entries(&self) -> Seq<HistoryEntry> {
        self.history@
    }

    /// A store holding these checks and no results. Each check has an ID of its own.
    pub fn new(records: Vec<CheckRecord>) -> (r: Self)
        requires
            ids_distinct(records@),
        ensures
            ids_distinct(r.checks()),
            r.checks() == records@,
            r.history_len() == 0,
    {
        CheckStore { records, history: Vec::new() }
    }

    /// The stored checks.
    pub fn records(&self) -> (r: &Vec<CheckRecord>)
        ensures
            r@ == self.checks(),
    {
        &self.records
    }

    /// The stored results.
    pub fn history(&self) -> (r: &Vec<HistoryEntry>)
        ensures
            r@ == self.history_entries(),
    {
        &self.history
    }

    fn find(&self, id: u128) -> (r: Option<usize>)
        ensures
            r matches Some(i) ==> i < self.checks().len() && self.checks()[i as int].id == id,
            match position_of(self.checks(), id) {
                Some(i) => r == Some(i as usize),
                None => r is None,
            },
    {
        let mut i: usize = 0;
        while i < self.records.len()
            invariant
                i <= self.records@.len(),
                forall|j: int| 0 <= j < i ==> self.records@[j].id != id,
            decreases self.records@.len() - i,
        {
            if self.records[i].id == id {
                proof {
                    lemma_position_at(self.records@, id, i as int);
                }
                return Some(i);
            }
            i += 1;
        }
        proof {
            lemma_position_none(self.records@, id);
        }
        None
    }

    /// Sets the status of the check with `id`; says whether there was one.
    pub fn set_status(&mut self, id: u128, status: ServiceStatus) -> (found: bool)
        ensures
            found == position_of(old(self).checks(), id) is Some,
            match position_of(old(self).checks(), id) {
                Some(i) => final(self).checks() == old(self).checks().update(
                    i,
                    with_status(old(self).checks()[i], status),
                ),
                None => final(self).checks() == old(self).checks(),
            },
            final(self).history_entries() == old(self).history_entries(),
            ids_distinct(final(self).checks()),
    {
        proof {
            use_type_invariant(&*self);
            lemma_position_of(self.records@, id);
        }
        match self.find(id) {
            Some(i) => {
                let mut r = self.records[i];
                r.status = status;
                let mut records: Vec<CheckRecord> = Vec::new();
                std::mem::swap(&mut records, &mut self.records);
                records.set(i, r);
                self.records = records;
                proof {
                    lemma_update_keeps_ids(old(self).records@, i as int, r);
                    assert(self.records@ =~= old(self).records@.update(
                        i as int,
                        with_status(old(self).records@[i as int], status),
                    ));
                }
                true
            },
            None => false,
        }
    }

    /// Hands out the next check to run at `now` and marks it as checking; see
    /// [`is_next_check`] for which check that is.
    pub fn next_service_check(&mut self, now: i64) -> (r: Option<u128>)
        ensures
            exists|k: Option<int>| {
                &&& is_next_check(rows_of(old(self).checks()), now, k)
                &&& match k {
                    Some(i) => r == Some(old(self).checks()[i].id) && position_of(old(self).checks(), old(self).checks()[i].id) == Some(i)
                        && final(self).checks() == old(self).checks().update(i, with_status(old(self).checks()[i], ServiceStatus::Checking)),
                    None => r is None && final(self).checks() == old(self).checks(),
                }
            },
            final(self).history_entries() == old(self).history_entries(),
            ids_distinct(final(self).checks()),
    {
        proof {
            use_type_invariant(&*self);
        }
        let mut rows: Vec<CheckRow> = Vec::new();
        let mut i: usize = 0;
        while i < self.records.len()
            invariant
                i <= self.records@.len(),
                rows@ == rows_of(self.records@).take(i as int),
            decreases self.records@.len() - i,
        {
            rows.push(CheckRow { status: self.records[i].status, next_check: self.records[i].next_check });
            proof {
                assert(rows@ =~= rows_of(self.records@).take(i + 1));
            }
            i += 1;
        }
        proof {
            assert(rows@ =~= rows_of(self.records@));
        }
        let picked = select_next_check(&rows, now);
        match picked {
            Some(k) => {
                proof {
                    next_check_is_runnable(rows@, now, k as int);
                }
                let mut rec = self.records[k];
                rec.status = ServiceStatus::Checking;
                let id = rec.id;
                proof {
                    lemma_update_keeps_ids(self.records@, k as int, rec);
                    lemma_position_distinct(self.records@, k as int);
                }
                let mut records: Vec<CheckRecord> = Vec::new();
                std::mem::swap(&mut records, &mut self.records);
                records.set(k, rec);
                self.records = records;
                proof {
                    assert(self.records@ == old(self).records@.update(
                        k as int,
                        with_status(old(self).records@[k as int], ServiceStatus::Checking),
                    ));
                    assert(is_next_check(rows_of(old(self).checks()), now, Some(k as int)));
                }
                Some(id)
            },
            None => {
                proof {
                    assert(is_next_check(rows_of(old(self).checks()), now, None::<int>));
                }
                None
            },
        }
    }

    /// Puts a check that was handed out but could not be run back to pending.
    pub fn release(&mut self, id: u128) -> (found: bool)
        ensures
            found == position_of(old(self).checks(), id) is Some,
            match position_of(old(self).checks(), id) {
                Some(i) => final(self).checks() == old(self).checks().update(
                    i,
                    with_status(old(self).checks()[i], ServiceStatus::Pending),
                ),
                None => final(self).checks() == old(self).checks(),
            },
            final(self).history_entries() == old(self).history_entries(),
            ids_distinct(final(self).checks()),
    {
        self.set_status(id, ServiceStatus::Pending)
    }

    /// Prunes the history at `now`: every entry stored before `after_time` (of the check
    /// `service_check_id` only, where one is named) is removed, and how many were is
    /// returned. A time in the future is refused and nothing is removed.
    pub fn prune_history(&mut self, after_time: i64, service_check_id: Option<u128>, now: i64) -> (r: Result<u64, MaremmaError>)
        ensures
            after_time > now ==> r == Err::<u64, MaremmaError>(MaremmaError::DateIsInTheFuture)
                && final(self).history_entries() == old(self).history_entries(),
            after_time <= now ==> (r matches Ok(n) && final(self).history_entries() == history_left(
                old(self).history_entries(),
                after_time,
                service_check_id,
            ) && n == old(self).history_entries().len() - final(self).history_entries().len()),
            final(self).checks() == old(self).checks(),
    {
        proof {
            use_type_invariant(&*self);
        }
        if after_time > now {
            return Err(MaremmaError::DateIsInTheFuture);
        }
        let mut all: Vec<HistoryEntry> = Vec::new();
        std::mem::swap(&mut all, &mut self.history);
        let ghost orig = all@;
        let total = all.len();
        assert(orig.len() == total);
        let mut kept: Vec<HistoryEntry> = Vec::new();
        let mut i: usize = 0;
        while all.len() > 0
            invariant
                orig.len() <= usize::MAX,
                i + all@.len() == orig.len(),
                all@ == orig.skip(i as int),
                kept@ == history_left(orig.take(i as int), after_time, service_check_id),
            decreases all@.len(),
        {
            let e = all.remove(0);
            proof {
                assert(orig.skip(i as int)[0] == orig[i as int]);
                assert(all@ =~= orig.skip(i + 1));
                assert(orig.take(i + 1).drop_last() =~= orig.take(i as int));
                assert(orig.take(i + 1).last() == orig[i as int]);
            }
            let gone = e.timestamp < after_time && match service_check_id {
                Some(id) => e.service_check_id == id,
                None => true,
            };
            if !gone {
                kept.push(e);
            }
            proof {
                assert(kept@ =~= history_left(orig.take(i + 1), after_time, service_check_id));
            }
            i += 1;
        }
        proof {
            assert(orig.take(i as int) =~= orig);
            lemma_history_left_len(orig, after_time, service_check_id);
        }
        let removed = (i - kept.len()) as u64;
        self.history = kept;
        Ok(removed)
    }

    /// Records a result of the check with `id` that ran at `last_check`, at `now`. The
    /// result is first added to the history, stored at `now`; then the check takes the
    /// result's status and the time it ran, is marked as changed at `now`, and is next due at the schedule's next time after `now`, put back by
    /// up to `jitter` whole seconds. A schedule croner refuses leaves the check as it was; a check
    /// that is not stored is not found.
    pub fn record_result(&mut self, id: u128, last_check: i64, result: &CheckResult, now: i64, pattern: &str, jitter: u32) -> (r: Result<(), MaremmaError>)
        ensures
            final(self).history_len() == old(self).history_len() + 1,
            final(self).history_entries().last().service_check_id == id,
            final(self).history_entries().last().status == result.status,
            final(self).history_entries().last().result_text@ == result.result_text@,
            final(self).history_entries().last().time_elapsed == result.time_elapsed,
            final(self).history_entries().last().timestamp == now,
            ids_distinct(final(self).checks()),
            final(self).history_entries().drop_last() == old(self).history_entries(),
            position_of(old(self).checks(), id) is None ==> r == Err::<(), MaremmaError>(
                MaremmaError::ServiceCheckNotFound(id),
            ) && final(self).checks() == old(self).checks(),
            position_of(old(self).checks(), id) is Some && cron_next_occurrence(pattern@, now as int) is Err
                ==> r is Err && final(self).checks() == old(self).checks(),
            match (position_of(old(self).checks(), id), cron_next_occurrence(pattern@, now as int)) {
                (Some(i), Ok(t)) => {
                    let n = final(self).checks()[i].next_check;
                    &&& r is Ok
                    &&& t <= n
                    &&& (jitter == 0 ==> n == t)
                    &&& (jitter > 0 ==> n < t + jitter * 1000)
                    &&& (n - t) % 1000 == 0
                    &&& final(self).checks() == old(self).checks().update(
                        i,
                        CheckRecord {
                            status: result.status,
                            last_check,
                            next_check: n,
                            last_updated: now,
                            ..old(self).checks()[i]
                        },
                    )
                },
                _ => true,
            },
    {
        proof {
            use_type_invariant(&*self);
            lemma_position_of(self.records@, id);
        }
        let entry = history_entry(id, result, now);
        let mut history: Vec<HistoryEntry> = Vec::new();
        std::mem::swap(&mut history, &mut self.history);
        history.push(entry);
        self.history = history;
        proof {
            assert(self.history@.drop_last() =~= old(self).history@);
        }
        let found = self.find(id);
        let i = match found {
            Some(i) => i,
            None => {
                return Err(MaremmaError::ServiceCheckNotFound(id));
            },
        };
        let next = match next_check_time(pattern, now, jitter) {
            Ok(n) => n,
            Err(e) => {
                return Err(e);
            },
        };
        let mut rec = self.records[i];
        rec.status = result.status;
        rec.last_check = last_check;
        rec.next_check = next;
        rec.last_updated = now;
        proof {
            lemma_update_keeps_ids(self.records@, i as int, rec);
        }
        let mut records: Vec<CheckRecord> = Vec::new();
        std::mem::swap(&mut records, &mut self.records);
        records.set(i, rec);
        self.records = records;
        proof {
            assert(self.records@ =~= old(self).records@.update(
                i as int,
                CheckRecord {
                    status: result.status,
                    last_check,
                    next_check: next,
                    last_updated: now,
                    ..old(self).records@[i as int]
                },
            ));
        }
        Ok(())
    }
}

/// Is a history entry one that pruning at `after_time` removes? It is when it was stored
/// before that time and, where a check is named, belongs to it.
pub open spec fn pruned_entry(e: HistoryEntry, after_time: i64, service_check_id: Option<u128>) -> bool {
    e.timestamp < after_time && match service_check_id {
        Some(id) => e.service_check_id == id,
        None => true,
    }
}

/// The history entries that pruning leaves, in order.
pub open spec fn history_left(entries: Seq<HistoryEntry>, after_time: i64, service_check_id: Option<u128>) -> Seq<HistoryEntry>
    decreases entries.len(),
{
    if entries.len() == 0 {
        Seq::empty()
    } else {
        history_left(entries.drop_last(), after_time, service_check_id) + if pruned_entry(
            entries.last(),
            after_time,
            service_check_id,
        ) {
            Seq::empty()
        } else {
            seq![entries.last()]
        }
    }
}

proof fn lemma_history_left_len(entries: Seq<HistoryEntry>, after_time: i64, service_check_id: Option<u128>)
    ensures
        history_left(entries, after_time, service_check_id).len() <= entries.len(),
    decreases entries.len(),
{
    if entries.len() > 0 {
        lemma_history_left_len(entries.drop_last(), after_time, service_check_id);
    }
}

/// Pruning the history leaves exactly the entries it does not remove: an entry is left if
/// and only if it was there and is not older than the time (or belongs to another check).
pub proof fn pruning_leaves_exactly_the_newer_entries(entries: Seq<HistoryEntry>, after_time: i64, service_check_id: Option<u128>, e: HistoryEntry)
    ensures
        history_left(entries, after_time, service_check_id).contains(e) <==> (entries.contains(e)
            && !pruned_entry(e, after_time, service_check_id)),
    decreases entries.len(),
{
    if entries.len() > 0 {
        let init = entries.drop_last();
        pruning_leaves_exactly_the_newer_entries(init, after_time, service_check_id, e);
        let left = history_left(entries, after_time, service_check_id);
        let before = history_left(init, after_time, service_check_id);
        let tail: Seq<HistoryEntry> = if pruned_entry(entries.last(), after_time, service_check_id) {
            Seq::empty()
        } else {
            seq![entries.last()]
        };
        assert(left == before + tail);
        if left.contains(e) {
            let k = choose|k: int| 0 <= k < left.len() && left[k] == e;
            if k < before.len() {
                assert(before[k] == e);
                let j = choose|j: int| 0 <= j < init.len() && init[j] == e;
                assert(entries[j] == e);
            } else {
                assert(entries[entries.len() - 1] == e);
            }
        }
        if entries.contains(e) && !pruned_entry(e, after_time, service_check_id) {
            let j = choose|j: int| 0 <= j < entries.len() && entries[j] == e;
            if j < entries.len() - 1 {
                assert(init[j] == e);
                let k = choose|k: int| 0 <= k < before.len() && before[k] == e;
                assert(left[k] == e);
            } else {
                assert(left[before.len() as int] == e);
            }
        }
    }
}

/// A check that was handed out is checking, so it is not handed out again, at any time,
/// until its result is recorded or it is released.
pub proof fn handed_out_check_is_not_handed_out_again(records: Seq<CheckRecord>, now: i64, i: int, later: i64, j: int)
    requires
        is_next_check(rows_of(records), now, Some(i)),
        is_next_check(
            rows_of(records.update(i, with_status(records[i], ServiceStatus::Checking))),
            later,
            Some(j),
        ),
    ensures
        j != i,
{
    next_check_is_runnable(rows_of(records), now, i);
    let after = records.update(i, with_status(records[i], ServiceStatus::Checking));
    next_check_is_runnable(rows_of(after), later, j);
    if j == i {
        assert(rows_of(after)[j].status == ServiceStatus::Checking);
    }
}

} // verus!
