//! Ping checks: how many pings to send, and what their replies mean.

use vstd::prelude::*;
use crate::errors::MaremmaError;
use crate::json::{
    JsonValue, lookup, text_or, overlay_text, overlay_number, opt_text, is_field_error,
    extract_string, extract_opt_text, extract_number,
};
use crate::schedule::{CronSchedule, overlay_cron, extract_cron};
use crate::services::http::{opt_num16, narrow16, widen16};
use crate::text::{push_str, push_decimal, nat_to_decimal};

verus! {

/// The number of pings sent where none is set
pub const DEFAULT_COUNT: u8 = 3;

/// A service that pings things
#[derive(Debug)]
pub struct PingService {
    /// Name of the service
    pub name: String,
    /// The cron schedule for this service
    pub cron_schedule: CronSchedule,
    /// Add random jitter in 0..n seconds to the check
    pub jitter: Option<u16>,
    /// Number of pings to check, defaults to 3
    pub count: Option<u8>,
    /// Optionally configure the address to ping
    pub address: Option<String>,
    /// Minimum successes required for the check to be considered successful, defaults to the same as count
    pub required_successful: Option<u8>,
}

/// The number of pings a check sends.
pub open spec fn ping_count(s: &PingService) -> int {
    match s.count {
        Some(c) => c as int,
        None => DEFAULT_COUNT as int,
    }
}

/// The number of replies a check needs: its setting, but never more than it sends.
pub open spec fn ping_required(s: &PingService) -> int {
    let r = match s.required_successful {
        Some(r) => r as int,
        None => ping_count(s),
    };
    if r > ping_count(s) {
        ping_count(s)
    } else {
        r
    }
}

/// What became of one ping.
#[derive(Debug)]
pub enum PingReply {
    /// A reply came, after this many nanoseconds
    Reply(u64),
    /// No reply came in time, with the pinger's message
    TimedOut(String),
    /// The ping failed for another reason, with the pinger's message
    Failed(String),
    /// The task running the ping failed, with its message
    TaskFailed(String),
}

/// The sum of the round-trip times of the replies among `replies`.
pub open spec fn total_nanos(replies: Seq<PingReply>) -> int
    decreases replies.len(),
{
    if replies.len() == 0 {
        0
    } else {
        total_nanos(replies.drop_last()) + match replies.last() {
            PingReply::Reply(n) => n as int,
            _ => 0,
        }
    }
}

/// The average round trip of the replies among `replies`, in nanoseconds; 0 where none
/// came.
pub open spec fn average_nanos(replies: Seq<PingReply>) -> int {
    if reply_count(replies) == 0 {
        0
    } else {
        total_nanos(replies) / reply_count(replies)
    }
}

/// Did a ping end in an error other than a time-out?
pub open spec fn is_error(r: PingReply) -> bool {
    r is Failed || r is TaskFailed
}

/// The first ping in `replies` that ended in an error other than a time-out, if any did.
pub open spec fn first_error(replies: Seq<PingReply>) -> Option<int> {
    if exists|i: int| 0 <= i < replies.len() && is_error(replies[i]) {
        Some(choose|i: int| 0 <= i < replies.len() && is_error(replies[i]) && forall|j: int|
            0 <= j < i ==> !is_error(replies[j]))
    } else {
        None
    }
}

/// The number of pings in `replies` that got a reply.
pub open spec fn reply_count(replies: Seq<PingReply>) -> int
    decreases replies.len(),
{
    if replies.len() == 0 {
        0
    } else {
        reply_count(replies.drop_last()) + if replies.last() is Reply {
            1int
        } else {
            0int
        }
    }
}

proof fn lemma_reply_count_bound(replies: Seq<PingReply>)
    ensures
        0 <= reply_count(replies) <= replies.len(),
    decreases replies.len(),
{
    if replies.len() > 0 {
        lemma_reply_count_bound(replies.drop_last());
    }
}

proof fn lemma_total_nanos_bound(replies: Seq<PingReply>)
    ensures
        0 <= total_nanos(replies) <= replies.len() * 0xffff_ffff_ffff_ffff,
    decreases replies.len(),
{
    if replies.len() > 0 {
        lemma_total_nanos_bound(replies.drop_last());
    }
}

impl PingService {
    /// Get the count field with the default
    pub fn get_count(&self) -> (r: u8)
        ensures
            r == ping_count(self),
    {
        match self.count {
            Some(c) => c,
            None => DEFAULT_COUNT,
        }
    }

    /// Get the minimum number of successes required for the check to be considered
    /// successful, but won't be larger than the count
    pub fn get_required_successful(&self) -> (r: u8)
        ensures
            r == ping_required(self),
            r <= self.get_count_spec(),
    {
        let count = self.get_count();
        let res = match self.required_successful {
            Some(r) => r,
            None => count,
        };
        if res > count {
            count
        } else {
            res
        }
    }

    /// The number of pings the check sends.
    pub open spec fn get_count_spec(&self) -> int {
        ping_count(self)
    }

    /// The address to ping: the check's own, or the host's name.
    pub fn target(&self, hostname: &str) -> (r: String)
        ensures
            r@ == match self.address {
                Some(a) => a@,
                None => hostname@,
            },
    {
        match &self.address {
            Some(a) => a.clone(),
            None => hostname.to_owned(),
        }
    }

    /// The check with a host's own settings laid over it. The fields are read in order:
    /// `name`, `address`, `cron_schedule`, `jitter`, `count`, `required_successful`; the
    /// first refused decides the error.
    pub fn overlay_host_config(&self, entries: &Vec<(String, JsonValue)>) -> (r: Result<PingService, MaremmaError>)
        ensures
            r is Ok <==> (overlay_text(lookup(entries@, "address"@), opt_text(self.address)) is Some
                && overlay_cron(lookup(entries@, "cron_schedule"@), self.cron_schedule@) is Ok
                && overlay_number(lookup(entries@, "jitter"@), opt_num16(self.jitter), 65535, false) is Some
                && overlay_number(lookup(entries@, "count"@), opt_num8(self.count), 255, false) is Some
                && overlay_number(lookup(entries@, "required_successful"@), opt_num8(self.required_successful), 255, false) is Some),
            r matches Err(x) ==> if overlay_text(lookup(entries@, "address"@), opt_text(self.address)) is None {
                is_field_error(x, "address"@)
            } else if overlay_cron(lookup(entries@, "cron_schedule"@), self.cron_schedule@) is Err {
                x is Generic
            } else if overlay_number(lookup(entries@, "jitter"@), opt_num16(self.jitter), 65535, false) is None {
                is_field_error(x, "jitter"@)
            } else if overlay_number(lookup(entries@, "count"@), opt_num8(self.count), 255, false) is None {
                is_field_error(x, "count"@)
            } else {
                is_field_error(x, "required_successful"@)
            },
            r matches Ok(c) ==> {
                &&& c.name@ == text_or(lookup(entries@, "name"@), self.name@)
                &&& Some(opt_text(c.address)) == overlay_text(lookup(entries@, "address"@), opt_text(self.address))
                &&& Ok::<Seq<char>, bool>(c.cron_schedule@) == overlay_cron(lookup(entries@, "cron_schedule"@), self.cron_schedule@)
                &&& Some(opt_num16(c.jitter)) == overlay_number(lookup(entries@, "jitter"@), opt_num16(self.jitter), 65535, false)
                &&& Some(opt_num8(c.count)) == overlay_number(lookup(entries@, "count"@), opt_num8(self.count), 255, false)
                &&& Some(opt_num8(c.required_successful)) == overlay_number(lookup(entries@, "required_successful"@), opt_num8(self.required_successful), 255, false)
            },
    {
        let name = extract_string(entries, "name", self.name.as_str());
        let address = extract_opt_text(entries, "address", &self.address)?;
        let cron_schedule = extract_cron(entries, "cron_schedule", &self.cron_schedule)?;
        let jitter = extract_number(entries, "jitter", widen16(self.jitter), 65535, false)?;
        let count = extract_number(entries, "count", widen8(self.count), 255, false)?;
        let required_successful = extract_number(
            entries,
            "required_successful",
            widen8(self.required_successful),
            255,
            false,
        )?;
        Ok(PingService {
            name,
            address,
            cron_schedule,
            jitter: narrow16(jitter),
            count: narrow8(count),
            required_successful: narrow8(required_successful),
        })
    }

    /// What the replies to the check's pings mean. The first ping that ended in an error
    /// other than a time-out fails the check with its message (a failed task's message is
    /// prefixed with `Running task failed: `). Otherwise the check is OK when at least the
    /// required number of pings got a reply, with the average round trip of the replies in
    /// whole milliseconds (0 where none came, as when none are required); if fewer did, it fails, reporting the replies as successes and
    /// the other pings as failures.
    pub fn ping_verdict(&self, host_name: &str, replies: &Vec<PingReply>) -> (r: Result<String, MaremmaError>)
        requires
            replies@.len() == ping_count(self),
        ensures
            match first_error(replies@) {
                Some(i) => match replies@[i] {
                    PingReply::Failed(m) => r matches Err(MaremmaError::Generic(t)) && t@ == m@,
                    PingReply::TaskFailed(m) => r matches Err(MaremmaError::Generic(t)) && t@
                        == "Running task failed: "@ + m@,
                    _ => false,
                },
                None => if reply_count(replies@) >= ping_required(self) {
                    r matches Ok(t) && t@ == "OK: Ping to "@ + host_name@ + " took "@ + nat_to_decimal(
                        (average_nanos(replies@) / 1_000_000) as nat,
                    ) + "ms on average"@
                } else {
                    r matches Err(MaremmaError::Generic(t)) && t@ == "CRITICAL: Ping failed: "@
                        + nat_to_decimal(reply_count(replies@) as nat) + " successful, "@ + nat_to_decimal(
                        (ping_count(self) - reply_count(replies@)) as nat,
                    ) + " failed"@
                },
            },
    {
        let mut total: u128 = 0;
        let mut successes: u8 = 0;
        let mut i: usize = 0;
        while i < replies.len()
            invariant
                i <= replies@.len(),
                replies@.len() <= 255,
                successes as int == reply_count(replies@.subrange(0, i as int)),
                successes <= i,
                forall|j: int| 0 <= j < i ==> !is_error(#[trigger] replies@[j]),
                total as int == total_nanos(replies@.subrange(0, i as int)),
            decreases replies@.len() - i,
        {
            proof {
                assert(replies@.subrange(0, i + 1).drop_last() =~= replies@.subrange(0, i as int));
                lemma_total_nanos_bound(replies@.subrange(0, i as int));
                assert(i * 0xffff_ffff_ffff_ffff <= 255 * 0xffff_ffff_ffff_ffff) by (nonlinear_arith)
                    requires
                        i <= 255,
                ;
            }
            match &replies[i] {
                PingReply::Reply(n) => {
                    total = total + (*n as u128);
                    successes = successes + 1;
                },
                PingReply::TimedOut(_) => {},
                PingReply::Failed(m) => {
                    proof {
                        assert(first_error(replies@) == Some(i as int)) by {
                            let k = choose|k: int| 0 <= k < replies@.len() && is_error(replies@[k])
                                && forall|j: int| 0 <= j < k ==> !is_error(replies@[j]);
                            assert(0 <= i < replies@.len() && is_error(replies@[i as int]));
                            if k < i {
                                assert(!is_error(replies@[k]));
                            } else if k > i {
                                assert(!is_error(replies@[i as int]));
                            }
                        }
                    }
                    return Err(MaremmaError::Generic(m.clone()));
                },
                PingReply::TaskFailed(m) => {
                    proof {
                        assert(first_error(replies@) == Some(i as int)) by {
                            let k = choose|k: int| 0 <= k < replies@.len() && is_error(replies@[k])
                                && forall|j: int| 0 <= j < k ==> !is_error(replies@[j]);
                            assert(0 <= i < replies@.len() && is_error(replies@[i as int]));
                            if k < i {
                                assert(!is_error(replies@[k]));
                            } else if k > i {
                                assert(!is_error(replies@[i as int]));
                            }
                        }
                    }
                    let mut t = String::new();
                    push_str(&mut t, "Running task failed: ");
                    push_str(&mut t, m.as_str());
                    return Err(MaremmaError::Generic(t));
                },
            }
            i += 1;
        }
        proof {
            assert(replies@.subrange(0, i as int) =~= replies@);
            assert(first_error(replies@) is None);
        }
        let required = self.get_required_successful();
        let count = self.get_count();
        if successes >= required {
            let average: u128 = if successes == 0 {
                0
            } else {
                total / (successes as u128)
            };
            let mut t = String::new();
            push_str(&mut t, "OK: Ping to ");
            push_str(&mut t, host_name);
            push_str(&mut t, " took ");
            push_decimal(&mut t, average / 1_000_000);
            push_str(&mut t, "ms on average");
            Ok(t)
        } else {
            let mut t = String::new();
            push_str(&mut t, "CRITICAL: Ping failed: ");
            push_decimal(&mut t, successes as u128);
            push_str(&mut t, " successful, ");
            push_decimal(&mut t, (count - successes) as u128);
            push_str(&mut t, " failed");
            Err(MaremmaError::Generic(t))
        }
    }
}

/// The view of an optional 8-bit number.
pub open spec fn opt_num8(o: Option<u8>) -> Option<int> {
    match o {
        Some(n) => Some(n as int),
        None => None,
    }
}

fn narrow8(o: Option<u64>) -> (r: Option<u8>)
    requires
        o matches Some(n) ==> n <= 255,
    ensures
        opt_num8(r) == crate::json::opt_num(o),
{
    match o {
        Some(n) => Some(n as u8),
        None => None,
    }
}

fn widen8(o: Option<u8>) -> (r: Option<u64>)
    ensures
        crate::json::opt_num(r) == opt_num8(o),
{
    match o {
        Some(n) => Some(n as u64),
        None => None,
    }
}

/// A check never needs more replies than it sends pings.
pub proof fn required_never_exceeds_count(s: &PingService)
    ensures
        0 <= ping_required(s) <= ping_count(s),
{
}

} // verus!
