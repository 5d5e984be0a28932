//! TLS checks: what the server's certificate chain means for the check.

use vstd::prelude::*;
use crate::errors::MaremmaError;
use crate::json::{
    JsonValue, lookup, text_or, overlay_number, overlay_required_number, opt_num, is_field_error,
    extract_string, extract_number, extract_required_number,
};
use crate::schedule::{CronSchedule, overlay_cron, extract_cron};
use crate::services::http::{opt_num16, narrow16, widen16};
use crate::status::ServiceStatus;
use crate::text::{
    push_str, push_signed_decimal, int_to_decimal, join, join_seq, views, starts_with, to_chars,
};

verus! {

/// The text before the peer state in the error a TLS handshake ends with
pub const UNEXPECTED_ERROR_PREFIX: &'static str = "unexpected error: ";

/// Default value for "expires in days" to trigger a critical alert
pub const DEFAULT_CRITICAL_DAYS: u16 = 0;

/// Default value for "expires in days" to trigger a warning alert
pub const DEFAULT_WARNING_DAYS: u16 = 1;

/// For when you want to check TLS things like certificate expiries etc
#[derive(Debug)]
pub struct TlsService {
    /// Name of the service
    pub name: String,
    /// Schedule to run the check on
    pub cron_schedule: CronSchedule,
    /// Port to connect to; never zero
    pub port: u16,
    /// Critical expiry in days, defaults to [DEFAULT_CRITICAL_DAYS] (0)
    pub expiry_critical: Option<u16>,
    /// Warning expiry in days, defaults to [DEFAULT_WARNING_DAYS] (1)
    pub expiry_warn: Option<u16>,
    /// Defaults to 10 seconds
    pub timeout: Option<u16>,
    /// Add random jitter in 0..n seconds to the check
    pub jitter: Option<u16>,
}

/// What the certificate check found of the server's chain. Times are in milliseconds
/// since the Unix epoch.
#[derive(Debug)]
pub struct TlsPeerState {
    /// Does the certificate's name match the server's?
    pub cert_name_matches: bool,
    /// When the server's own certificate expires
    pub end_cert_expiry: i64,
    /// Has an intermediate certificate expired?
    pub intermediate_expired: bool,
    /// Is an intermediate certificate untrusted?
    pub intermediate_untrusted: bool,
    /// The server's name, where known
    pub servername: Option<String>,
}

/// `a / b` rounded toward zero, as Rust's integer division rounds, for a positive `b`.
pub open spec fn div_toward_zero(a: int, b: int) -> int {
    if a >= 0 {
        a / b
    } else {
        -((-a) / b)
    }
}

/// The whole seconds until the certificate expires, rounded toward zero.
pub open spec fn expiry_secs(s: &TlsPeerState, now: i64) -> int {
    div_toward_zero(s.end_cert_expiry - now, 1000)
}

/// The whole days until the certificate expires, rounded toward zero.
pub open spec fn expiry_whole_days(s: &TlsPeerState, now: i64) -> int {
    div_toward_zero(expiry_secs(s, now), 86400)
}

fn div_toward_zero_exec(a: i128, b: i128) -> (r: i128)
    requires
        b > 0,
        -0x1_0000_0000_0000_0000_0000 <= a <= 0x1_0000_0000_0000_0000_0000,
    ensures
        r == div_toward_zero(a as int, b as int),
        a >= 0 ==> 0 <= r <= a,
        a < 0 ==> a <= r <= 0,
{
    if a >= 0 {
        proof {
            assert(a / b <= a) by (nonlinear_arith)
                requires
                    a >= 0,
                    b > 0,
            ;
        }
        a / b
    } else {
        let n: i128 = -a;
        proof {
            assert(n / b <= n) by (nonlinear_arith)
                requires
                    n >= 0,
                    b > 0,
            ;
        }
        -(n / b)
    }
}

impl TlsPeerState {
    /// A state for a certificate that expires at `end_cert_expiry`, with nothing else found
    /// yet: the name does not match and the intermediates are fine.
    pub fn new(end_cert_expiry: i64) -> (r: Self)
        ensures
            r.end_cert_expiry == end_cert_expiry,
            !r.cert_name_matches,
            !r.intermediate_expired,
            !r.intermediate_untrusted,
            r.servername is None,
    {
        TlsPeerState {
            end_cert_expiry,
            cert_name_matches: false,
            intermediate_expired: false,
            intermediate_untrusted: false,
            servername: None,
        }
    }

    /// Records that an intermediate certificate has expired.
    pub fn set_intermediate_expired(&mut self)
        ensures
            final(self).intermediate_expired,
            final(self).cert_name_matches == old(self).cert_name_matches,
            final(self).end_cert_expiry == old(self).end_cert_expiry,
            final(self).intermediate_untrusted == old(self).intermediate_untrusted,
            final(self).servername == old(self).servername,
    {
        self.intermediate_expired = true;
    }

    /// Records that an intermediate certificate is untrusted.
    pub fn set_intermediate_untrusted(&mut self)
        ensures
            final(self).intermediate_untrusted,
            final(self).cert_name_matches == old(self).cert_name_matches,
            final(self).end_cert_expiry == old(self).end_cert_expiry,
            final(self).intermediate_expired == old(self).intermediate_expired,
            final(self).servername == old(self).servername,
    {
        self.intermediate_untrusted = true;
    }

    /// The number of whole seconds until the certificate expires, at `now`.
    pub fn expiry_seconds(&self, now: i64) -> (r: i64)
        ensures
            r == expiry_secs(self, now),
    {
        let d: i128 = (self.end_cert_expiry as i128) - (now as i128);
        div_toward_zero_exec(d, 1000) as i64
    }

    /// The number of whole days until the certificate expires, at `now`.
    pub fn expiry_days(&self, now: i64) -> (r: i64)
        ensures
            r == expiry_whole_days(self, now),
    {
        let s = self.expiry_seconds(now);
        div_toward_zero_exec(s as i128, 86400) as i64
    }

    /// Has the certificate expired at `now`? It has once less than a whole second is left.
    pub fn cert_expired(&self, now: i64) -> (r: bool)
        ensures
            r == (expiry_secs(self, now) <= 0),
    {
        self.expiry_seconds(now) <= 0
    }
}

/// The findings of a TLS check, in the order they are reported.
pub open spec fn tls_findings(s: &TlsPeerState, now: i64, critical_secs: int, warn_secs: int) -> Seq<Seq<char>> {
    let secs = expiry_secs(s, now);
    let days = expiry_whole_days(s, now);
    let expiry_line = |limit: int|
        "Certificate expires in "@ + int_to_decimal(days) + " days or "@ + int_to_decimal(secs)
            + " seconds - min set to "@ + int_to_decimal(limit);
    (if secs <= 0 {
        seq!["Certificate expired "@ + int_to_decimal(-days) + " days ago"@]
    } else {
        seq![]
    }) + (if !s.cert_name_matches {
        seq!["Certificate name does not match"@]
    } else {
        seq![]
    }) + (if s.intermediate_expired {
        seq!["Intermediate certificate expired"@]
    } else {
        seq![]
    }) + (if s.intermediate_untrusted {
        seq!["Intermediate certificate untrusted"@]
    } else {
        seq![]
    }) + (if secs <= critical_secs {
        seq![expiry_line(critical_secs)]
    } else if secs <= warn_secs {
        seq![expiry_line(warn_secs)]
    } else {
        seq![]
    })
}

/// The status of a TLS check: a warning when the certificate expires within the warning
/// time but not the critical time (whatever else was found); otherwise critical when
/// anything was found, and OK when nothing was.
pub open spec fn tls_status(s: &TlsPeerState, now: i64, critical_secs: int, warn_secs: int) -> ServiceStatus {
    let secs = expiry_secs(s, now);
    if secs > critical_secs && secs <= warn_secs {
        ServiceStatus::Warning
    } else if secs <= 0 || !s.cert_name_matches || s.intermediate_expired || s.intermediate_untrusted
        || secs <= critical_secs {
        ServiceStatus::Critical
    } else {
        ServiceStatus::OK
    }
}

/// A TLS check is OK exactly when it found nothing to report.
pub proof fn tls_ok_exactly_when_nothing_found(s: &TlsPeerState, now: i64, critical_secs: int, warn_secs: int)
    ensures
        (tls_status(s, now, critical_secs, warn_secs) == ServiceStatus::OK) <==> tls_findings(
            s,
            now,
            critical_secs,
            warn_secs,
        ).len() == 0,
{
}

/// An expired certificate, a name that does not match, or an expired or untrusted
/// intermediate certificate makes the check critical, unless the certificate expires
/// within the warning time but not the critical time (which is a warning).
pub proof fn chain_problems_are_critical(s: &TlsPeerState, now: i64, critical_secs: int, warn_secs: int)
    requires
        expiry_secs(s, now) <= 0 || !s.cert_name_matches || s.intermediate_expired || s.intermediate_untrusted,
        !(critical_secs < expiry_secs(s, now) <= warn_secs),
    ensures
        tls_status(s, now, critical_secs, warn_secs) == ServiceStatus::Critical,
{
}

impl TlsService {
    /// The critical time, in seconds: the setting in days (0 unless set).
    pub open spec fn critical_secs(&self) -> int {
        (match self.expiry_critical {
            Some(d) => d as int,
            None => DEFAULT_CRITICAL_DAYS as int,
        }) * 86400
    }

    /// The warning time, in seconds: the setting in days (1 unless set).
    pub open spec fn warn_secs(&self) -> int {
        (match self.expiry_warn {
            Some(d) => d as int,
            None => DEFAULT_WARNING_DAYS as int,
        }) * 86400
    }

    /// What the server's chain means for the check at `now`: the status, and the findings
    /// joined by `, `.
    pub fn tls_verdict(&self, state: &TlsPeerState, now: i64) -> (r: (ServiceStatus, String))
        ensures
            r.0 == tls_status(state, now, self.critical_secs(), self.warn_secs()),
            r.1@ == join_seq(tls_findings(state, now, self.critical_secs(), self.warn_secs()), ", "@),
    {
        let critical: i64 = (match self.expiry_critical {
            Some(d) => d,
            None => DEFAULT_CRITICAL_DAYS,
        } as i64) * 86400;
        let warn: i64 = (match self.expiry_warn {
            Some(d) => d,
            None => DEFAULT_WARNING_DAYS,
        } as i64) * 86400;
        let secs = state.expiry_seconds(now);
        let days = state.expiry_days(now);
        let ghost findings = tls_findings(state, now, self.critical_secs(), self.warn_secs());
        let mut status = ServiceStatus::OK;
        let mut lines: Vec<String> = Vec::new();
        let ghost mut expected: Seq<Seq<char>> = Seq::empty();
        if state.cert_expired(now) {
            status = ServiceStatus::Critical;
            let mut t = String::new();
            push_str(&mut t, "Certificate expired ");
            push_signed_decimal(&mut t, -(days as i128));
            push_str(&mut t, " days ago");
            lines.push(t);
        }
        if !state.cert_name_matches {
            status = ServiceStatus::Critical;
            lines.push("Certificate name does not match".to_owned());
        }
        if state.intermediate_expired {
            status = ServiceStatus::Critical;
            lines.push("Intermediate certificate expired".to_owned());
        }
        if state.intermediate_untrusted {
            status = ServiceStatus::Critical;
            lines.push("Intermediate certificate untrusted".to_owned());
        }
        if secs <= critical || secs <= warn {
            let limit = if secs <= critical {
                critical
            } else {
                warn
            };
            if secs <= critical {
                status = ServiceStatus::Critical;
            } else {
                status = ServiceStatus::Warning;
            }
            let mut t = String::new();
            push_str(&mut t, "Certificate expires in ");
            push_signed_decimal(&mut t, days as i128);
            push_str(&mut t, " days or ");
            push_signed_decimal(&mut t, secs as i128);
            push_str(&mut t, " seconds - min set to ");
            push_signed_decimal(&mut t, limit as i128);
            lines.push(t);
        }
        proof {
            assert(views(lines@) =~= findings);
        }
        let text = join(&lines, ", ");
        (status, text)
    }

    /// The check with a host's own settings laid over it. The fields are read in order:
    /// `name`, `cron_schedule`, `port`, `expiry_critical`, `expiry_warn`, `timeout`,
    /// `jitter`; the first refused decides the error.
    pub fn overlay_host_config(&self, entries: &Vec<(String, JsonValue)>) -> (r: Result<TlsService, MaremmaError>)
        ensures
            r is Ok <==> (overlay_cron(lookup(entries@, "cron_schedule"@), self.cron_schedule@) is Ok
                && overlay_required_number(lookup(entries@, "port"@), self.port as int, 65535, true) is Some
                && overlay_number(lookup(entries@, "expiry_critical"@), opt_num16(self.expiry_critical), 65535, false) is Some
                && overlay_number(lookup(entries@, "expiry_warn"@), opt_num16(self.expiry_warn), 65535, false) is Some
                && overlay_number(lookup(entries@, "timeout"@), opt_num16(self.timeout), 65535, false) is Some
                && overlay_number(lookup(entries@, "jitter"@), opt_num16(self.jitter), 65535, false) is Some),
            r matches Err(x) ==> if overlay_cron(lookup(entries@, "cron_schedule"@), self.cron_schedule@) is Err {
                x is Generic
            } else if overlay_required_number(lookup(entries@, "port"@), self.port as int, 65535, true) is None {
                is_field_error(x, "port"@)
            } else if overlay_number(lookup(entries@, "expiry_critical"@), opt_num16(self.expiry_critical), 65535, false) is None {
                is_field_error(x, "expiry_critical"@)
            } else if overlay_number(lookup(entries@, "expiry_warn"@), opt_num16(self.expiry_warn), 65535, false) is None {
                is_field_error(x, "expiry_warn"@)
            } else if overlay_number(lookup(entries@, "timeout"@), opt_num16(self.timeout), 65535, false) is None {
                is_field_error(x, "timeout"@)
            } else {
                is_field_error(x, "jitter"@)
            },
            r matches Ok(c) ==> {
                &&& c.name@ == text_or(lookup(entries@, "name"@), self.name@)
                &&& Ok::<Seq<char>, bool>(c.cron_schedule@) == overlay_cron(lookup(entries@, "cron_schedule"@), self.cron_schedule@)
                &&& Some(c.port as int) == overlay_required_number(lookup(entries@, "port"@), self.port as int, 65535, true)
                &&& Some(opt_num16(c.expiry_critical)) == overlay_number(lookup(entries@, "expiry_critical"@), opt_num16(self.expiry_critical), 65535, false)
                &&& Some(opt_num16(c.expiry_warn)) == overlay_number(lookup(entries@, "expiry_warn"@), opt_num16(self.expiry_warn), 65535, false)
                &&& Some(opt_num16(c.timeout)) == overlay_number(lookup(entries@, "timeout"@), opt_num16(self.timeout), 65535, false)
                &&& Some(opt_num16(c.jitter)) == overlay_number(lookup(entries@, "jitter"@), opt_num16(self.jitter), 65535, false)
            },
    {
        let name = extract_string(entries, "name", self.name.as_str());
        let cron_schedule = extract_cron(entries, "cron_schedule", &self.cron_schedule)?;
        let port = extract_required_number(entries, "port", self.port as u64, 65535, true)?;
        let expiry_critical = extract_number(entries, "expiry_critical", widen16(self.expiry_critical), 65535, false)?;
        let expiry_warn = extract_number(entries, "expiry_warn", widen16(self.expiry_warn), 65535, false)?;
        let timeout = extract_number(entries, "timeout", widen16(self.timeout), 65535, false)?;
        let jitter = extract_number(entries, "jitter", widen16(self.jitter), 65535, false)?;
        Ok(TlsService {
            name,
            cron_schedule,
            port: port as u16,
            expiry_critical: narrow16(expiry_critical),
            expiry_warn: narrow16(expiry_warn),
            timeout: narrow16(timeout),
            jitter: narrow16(jitter),
        })
    }

    /// The address to connect to: the host's name and the check's port.
    pub fn target(&self, hostname: &str) -> (r: String)
        ensures
            r@ == hostname@ + ":"@ + int_to_decimal(self.port as int),
    {
        let mut t = String::new();
        push_str(&mut t, hostname);
        push_str(&mut t, ":");
        push_signed_decimal(&mut t, self.port as i128);
        t
    }
}

/// The peer state carried in the text of the error a TLS handshake ends with: what follows
/// [`UNEXPECTED_ERROR_PREFIX`], where the text starts with it.
pub fn peer_state_text(error_text: &str) -> (r: Option<String>)
    ensures
        "unexpected error: "@.is_prefix_of(error_text@) ==> (r matches Some(t) && t@ == error_text@.skip(
            "unexpected error: "@.len() as int,
        )),
        !"unexpected error: "@.is_prefix_of(error_text@) ==> r is None,
{
    if !starts_with(error_text, "unexpected error: ") {
        return None;
    }
    let c = to_chars(error_text);
    let n: usize = to_chars("unexpected error: ").len();
    let mut t = String::new();
    let mut i: usize = n;
    proof {
        assert(c@.subrange(n as int, n as int) =~= Seq::<char>::empty());
    }
    while i < c.len()
        invariant
            c@ == error_text@,
            n <= i <= c@.len(),
            t@ =~= c@.subrange(n as int, i as int),
        decreases c@.len() - i,
    {
        t.push(c[i]);
        i += 1;
        proof {
            assert(t@ =~= c@.subrange(n as int, i as int));
        }
    }
    Some(t)
}

} // verus!
