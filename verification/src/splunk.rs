//! The Splunk check: the search that asks whether a host has sent any events, the form it
//! is posted with, and what the answer means.

use vstd::prelude::*;
use crate::json::opt_text;
use crate::text::{trim, trim_text, to_chars, push_str, push_decimal, nat_to_decimal, join, join_seq, views, parse_unsigned, parse_unsigned_text};

verus! {

/// The Splunk management port where none is given
pub const DEFAULT_SPLUNK_PORT: u16 = 8089;

/// How long the search may take, in seconds, where no timeout is given
pub const DEFAULT_SEARCH_TIMEOUT_SECONDS: u64 = 30;

/// How many hours back the search looks where a look-back cannot be read as a number
pub const DEFAULT_LOOKBACK_HOURS: u64 = 24;

/// Each text in double quotes.
pub open spec fn quoted(items: Seq<Seq<char>>) -> Seq<Seq<char>> {
    items.map_values(|i: Seq<char>| "\""@ + i + "\""@)
}

/// The index part of the search: any index, internal ones included, where none is named.
pub open spec fn index_clause(indexes: Seq<Seq<char>>) -> Seq<char> {
    if indexes.len() == 0 {
        "index IN (_*, *)"@
    } else {
        "index IN ( "@ + join_seq(quoted(indexes), ","@) + " )"@
    }
}

/// The source type part of the search: any source type where none is named.
pub open spec fn sourcetype_clause(sourcetypes: Seq<Seq<char>>) -> Seq<char> {
    if sourcetypes.len() == 0 {
        "sourcetype=*"@
    } else {
        "sourcetype IN ( "@ + join_seq(quoted(sourcetypes), ","@) + " ) "@
    }
}

/// The search that counts a host's events in the chosen indexes and source types.
pub open spec fn search_text(host: Seq<char>, indexes: Seq<Seq<char>>, sourcetypes: Seq<Seq<char>>) -> Seq<char> {
    "| tstats count where host=\""@ + host + "\" "@ + index_clause(indexes) + " "@
        + sourcetype_clause(sourcetypes) + " by host | table count, host | search host=\""@ + host
        + "\""@
}

fn quote_all(items: &Vec<String>) -> (r: Vec<String>)
    ensures
        views(r@) == quoted(views(items@)),
{
    let mut out: Vec<String> = Vec::new();
    let mut i: usize = 0;
    while i < items.len()
        invariant
            i <= items@.len(),
            views(out@) == quoted(views(items@)).take(i as int),
        decreases items@.len() - i,
    {
        let mut q = String::from_str("\"");
        push_str(&mut q, items[i].as_str());
        push_str(&mut q, "\"");
        proof {
            assert(views(items@)[i as int] == items@[i as int]@);
            assert(q@ =~= "\""@ + items@[i as int]@ + "\""@);
            assert(views(out@.push(q)) =~= views(out@).push(q@));
            assert(quoted(views(items@)).take(i + 1) =~= quoted(views(items@)).take(i as int).push(q@));
        }
        out.push(q);
        i += 1;
    }
    proof {
        assert(quoted(views(items@)).take(i as int) =~= quoted(views(items@)));
    }
    out
}

/// Builds the search; see [`search_text`].
pub fn search_query(host: &str, indexes: &Vec<String>, sourcetypes: &Vec<String>) -> (r: String)
    ensures
        r@ == search_text(host@, views(indexes@), views(sourcetypes@)),
{
    let mut s = String::from_str("| tstats count where host=\"");
    push_str(&mut s, host);
    push_str(&mut s, "\" ");
    if indexes.len() == 0 {
        push_str(&mut s, "index IN (_*, *)");
    } else {
        push_str(&mut s, "index IN ( ");
        let list = join(&quote_all(indexes), ",");
        push_str(&mut s, list.as_str());
        push_str(&mut s, " )");
    }
    push_str(&mut s, " ");
    if sourcetypes.len() == 0 {
        push_str(&mut s, "sourcetype=*");
    } else {
        push_str(&mut s, "sourcetype IN ( ");
        let list = join(&quote_all(sourcetypes), ",");
        push_str(&mut s, list.as_str());
        push_str(&mut s, " ) ");
    }
    push_str(&mut s, " by host | table count, host | search host=\"");
    push_str(&mut s, host);
    push_str(&mut s, "\"");
    proof {
        assert(s@ =~= search_text(host@, views(indexes@), views(sourcetypes@)));
    }
    s
}

/// The address searches are posted to.
pub fn search_jobs_url(splunk_host: &str, port: Option<u16>) -> (r: String)
    ensures
        r@ == "https://"@ + splunk_host@ + ":"@ + nat_to_decimal(
            match port {
                Some(p) => p as nat,
                None => DEFAULT_SPLUNK_PORT as nat,
            },
        ) + "/services/search/jobs/"@,
{
    let p = match port {
        Some(p) => p,
        None => DEFAULT_SPLUNK_PORT,
    };
    let mut s = String::from_str("https://");
    push_str(&mut s, splunk_host);
    push_str(&mut s, ":");
    push_decimal(&mut s, p as u128);
    push_str(&mut s, "/services/search/jobs/");
    s
}

/// The search's time limit in seconds.
pub fn search_timeout(timeout: Option<u64>) -> (r: u64)
    ensures
        r == match timeout {
            Some(t) => t,
            None => DEFAULT_SEARCH_TIMEOUT_SECONDS,
        },
{
    match timeout {
        Some(t) => t,
        None => DEFAULT_SEARCH_TIMEOUT_SECONDS,
    }
}

/// How far back a search looks, and how the report says so.
#[derive(Debug)]
pub struct SearchWindow {
    /// The `earliest_time` the search is given, if any
    pub earliest_time: Option<String>,
    /// The words the report ends with
    pub message: String,
}

/// The hours a look-back stands for: its number, or the default where it is not one.
pub open spec fn lookback_hours(lookback: Seq<char>) -> nat {
    match parse_unsigned_text(lookback, u64::MAX as nat) {
        Some(n) => n,
        None => DEFAULT_LOOKBACK_HOURS as nat,
    }
}

/// The window of a search: an earliest time in Unix seconds wins; otherwise a look-back
/// of hours is searched from `-<hours>h`; otherwise the search is given no earliest time.
pub fn search_window(earliest: Option<u64>, lookback: Option<&str>) -> (r: SearchWindow)
    ensures
        match (earliest, lookback) {
            (Some(e), _) => r.earliest_time matches Some(t) && t@ == nat_to_decimal(e as nat)
                && r.message@ == "over "@ + nat_to_decimal(e as nat),
            (None, Some(l)) => r.earliest_time matches Some(t) && t@ == "-"@ + nat_to_decimal(
                lookback_hours(l@),
            ) + "h"@ && r.message@ == "over -"@ + l@ + " hours"@,
            (None, None) => r.earliest_time is None && r.message@ == Seq::<char>::empty(),
        },
{
    match earliest {
        Some(e) => {
            let mut t = String::new();
            push_decimal(&mut t, e as u128);
            let mut m = String::from_str("over ");
            push_decimal(&mut m, e as u128);
            SearchWindow { earliest_time: Some(t), message: m }
        },
        None => match lookback {
            Some(l) => {
                let hours = match parse_unsigned(l, u64::MAX) {
                    Some(n) => n,
                    None => DEFAULT_LOOKBACK_HOURS,
                };
                let mut t = String::from_str("-");
                push_decimal(&mut t, hours as u128);
                push_str(&mut t, "h");
                let mut m = String::from_str("over -");
                push_str(&mut m, l);
                push_str(&mut m, " hours");
                SearchWindow { earliest_time: Some(t), message: m }
            },
            None => SearchWindow { earliest_time: None, message: String::new() },
        },
    }
}

/// The views of a form's fields.
pub open spec fn field_views(v: Seq<(String, String)>) -> Seq<(Seq<char>, Seq<char>)> {
    v.map_values(|p: (String, String)| (p.0@, p.1@))
}

/// The fields a search is posted with: the search, JSON output, a one-shot run, then the
/// earliest and latest times where there are any.
pub open spec fn form_fields(search: Seq<char>, earliest: Option<Seq<char>>, latest: Option<Seq<char>>) -> Seq<(Seq<char>, Seq<char>)> {
    seq![("search"@, search), ("output_mode"@, "json"@), ("exec_mode"@, "oneshot"@)] + (match earliest {
        Some(e) => seq![("earliest_time"@, e)],
        None => Seq::empty(),
    }) + (match latest {
        Some(l) => seq![("latest_time"@, l)],
        None => Seq::empty(),
    })
}

/// Builds the form a search is posted with; see [`form_fields`].
pub fn search_form(search: String, earliest: Option<String>, latest: Option<String>) -> (r: Vec<(String, String)>)
    ensures
        field_views(r@) == form_fields(search@, opt_text(earliest), opt_text(latest)),
{
    let ghost (s0, e0, l0) = (search@, opt_text(earliest), opt_text(latest));
    let mut v: Vec<(String, String)> = Vec::new();
    v.push((String::from_str("search"), search));
    v.push((String::from_str("output_mode"), String::from_str("json")));
    v.push((String::from_str("exec_mode"), String::from_str("oneshot")));
    proof {
        assert(field_views(v@) =~= seq![("search"@, s0), ("output_mode"@, "json"@), ("exec_mode"@, "oneshot"@)]);
    }
    let ghost first = field_views(v@);
    if let Some(e) = earliest {
        v.push((String::from_str("earliest_time"), e));
    }
    proof {
        assert(field_views(v@) =~= first + match e0 {
            Some(e) => seq![("earliest_time"@, e)],
            None => Seq::<(Seq<char>, Seq<char>)>::empty(),
        });
    }
    let ghost second = field_views(v@);
    if let Some(l) = latest {
        v.push((String::from_str("latest_time"), l));
    }
    proof {
        assert(field_views(v@) =~= second + match l0 {
            Some(l) => seq![("latest_time"@, l)],
            None => Seq::<(Seq<char>, Seq<char>)>::empty(),
        });
    }
    v
}

/// How a search authenticates.
#[derive(Debug, PartialEq, Eq)]
pub enum SplunkAuth {
    /// With a user name and password
    Basic {
        /// The user name
        username: String,
        /// The password
        password: String,
    },
    /// With an authentication token
    Bearer(String),
    /// Without credentials
    Anonymous,
}

/// A user name with a password wins; otherwise a token; otherwise none.
pub fn splunk_auth(username: Option<String>, password: Option<String>, token: Option<String>) -> (r: SplunkAuth)
    ensures
        match (username, password, token) {
            (Some(u), Some(p), _) => r == (SplunkAuth::Basic { username: u, password: p }),
            (_, _, Some(t)) => r == SplunkAuth::Bearer(t),
            _ => r == SplunkAuth::Anonymous,
        },
{
    match (username, password, token) {
        (Some(u), Some(p), _) => SplunkAuth::Basic { username: u, password: p },
        (_, _, Some(t)) => SplunkAuth::Bearer(t),
        _ => SplunkAuth::Anonymous,
    }
}

/// How a response's status is taken: 401 means the credentials were refused, any other
/// status from 400 to 499 is a client error, and everything else goes on to be read.
#[derive(Debug, PartialEq, Eq, Clone, Copy, Structural)]
pub enum StatusClass {
    /// The credentials were refused
    Unauthorized,
    /// Some other client error
    ClientError,
    /// The body is read
    Proceed,
}

/// Classifies a response status; see [`StatusClass`].
pub fn status_class(status: u16) -> (r: StatusClass)
    ensures
        status == 401 ==> r == StatusClass::Unauthorized,
        status != 401 && 400 <= status <= 499 ==> r == StatusClass::ClientError,
        !(400 <= status <= 499) ==> r == StatusClass::Proceed,
{
    if status == 401 {
        StatusClass::Unauthorized
    } else if 400 <= status && status <= 499 {
        StatusClass::ClientError
    } else {
        StatusClass::Proceed
    }
}

/// What came of asking Splunk.
#[derive(Debug)]
pub enum SplunkAnswer {
    /// The request could not be sent; the error's description
    SendFailed(String),
    /// Splunk refused the credentials
    Unauthorized,
    /// Splunk answered with another client error
    ClientError {
        /// The status
        status: u16,
        /// The body
        body: String,
    },
    /// The body could not be read; the error's description
    BodyUnreadable(String),
    /// No line of the body was a search result
    NoResult,
    /// The first search result held no entries
    NoEntries,
    /// The first entry held no readable count; the error's description
    CountUnreadable(String),
    /// The host's event count
    Count(String),
}

/// The report of a Splunk check.
#[derive(Debug)]
pub struct SplunkReport {
    /// Whether the host was found (the check then exits with success)
    pub ok: bool,
    /// Whether the text goes to standard error rather than standard output
    pub to_stderr: bool,
    /// The text, with its line end where it has one
    pub text: String,
}

/// How the source types searched for are named in a report.
pub open spec fn sourcetype_note(sourcetypes: Seq<Seq<char>>) -> Seq<char> {
    if sourcetypes.len() == 0 {
        Seq::empty()
    } else {
        " sourcetype IN ("@ + join_seq(sourcetypes, ","@) + ")"@
    }
}

/// The report for each answer: only a count is a success.
pub open spec fn report_text(url: Seq<char>, host: Seq<char>, sourcetypes: Seq<Seq<char>>, window: Seq<char>, answer: SplunkAnswer) -> (bool, bool, Seq<char>) {
    match answer {
        SplunkAnswer::SendFailed(e) => (false, true, "CRITICAL: Failed to send request to splunk at "@ + url + ": "@ + e@),
        SplunkAnswer::Unauthorized => (false, false, "CRITICAL: Received 401 from Splunk, check your credentials"@),
        SplunkAnswer::ClientError { status, body } => (
            false,
            false,
            "CRITICAL: Received client error from Splunk: "@ + nat_to_decimal(status as nat) + " - body "@ + body@ + "\n"@,
        ),
        SplunkAnswer::BodyUnreadable(e) => (false, false, "CRITICAL: Failed to get response body from Splunk: "@ + e@),
        SplunkAnswer::NoResult => (false, true, "CRITICAL: Expected 1 result, got 0\n"@),
        SplunkAnswer::NoEntries => (false, false, "CRITICAL: No results found for host="@ + host + sourcetype_note(sourcetypes)),
        SplunkAnswer::CountUnreadable(e) => (false, false, "CRITICAL: Failed to parse count from result: "@ + e@),
        SplunkAnswer::Count(c) => (
            true,
            false,
            "OK: Found host="@ + host + " count="@ + c@ + " "@ + sourcetype_note(sourcetypes) + window,
        ),
    }
}

/// Reports an answer; see [`report_text`].
pub fn splunk_report(url: &str, host: &str, sourcetypes: &Vec<String>, window: &str, answer: SplunkAnswer) -> (r: SplunkReport)
    ensures
        (r.ok, r.to_stderr, r.text@) == report_text(url@, host@, views(sourcetypes@), window@, answer),
{
    let note = if sourcetypes.len() == 0 {
        String::new()
    } else {
        let mut n = String::from_str(" sourcetype IN (");
        let list = join(sourcetypes, ",");
        push_str(&mut n, list.as_str());
        push_str(&mut n, ")");
        n
    };
    assert(note@ =~= sourcetype_note(views(sourcetypes@)));
    match answer {
        SplunkAnswer::SendFailed(e) => {
            let mut t = String::from_str("CRITICAL: Failed to send request to splunk at ");
            push_str(&mut t, url);
            push_str(&mut t, ": ");
            push_str(&mut t, e.as_str());
            SplunkReport { ok: false, to_stderr: true, text: t }
        },
        SplunkAnswer::Unauthorized => SplunkReport {
            ok: false,
            to_stderr: false,
            text: String::from_str("CRITICAL: Received 401 from Splunk, check your credentials"),
        },
        SplunkAnswer::ClientError { status, body } => {
            let mut t = String::from_str("CRITICAL: Received client error from Splunk: ");
            push_decimal(&mut t, status as u128);
            push_str(&mut t, " - body ");
            push_str(&mut t, body.as_str());
            push_str(&mut t, "\n");
            SplunkReport { ok: false, to_stderr: false, text: t }
        },
        SplunkAnswer::BodyUnreadable(e) => {
            let mut t = String::from_str("CRITICAL: Failed to get response body from Splunk: ");
            push_str(&mut t, e.as_str());
            SplunkReport { ok: false, to_stderr: false, text: t }
        },
        SplunkAnswer::NoResult => SplunkReport {
            ok: false,
            to_stderr: true,
            text: String::from_str("CRITICAL: Expected 1 result, got 0\n"),
        },
        SplunkAnswer::NoEntries => {
            let mut t = String::from_str("CRITICAL: No results found for host=");
            push_str(&mut t, host);
            push_str(&mut t, note.as_str());
            SplunkReport { ok: false, to_stderr: false, text: t }
        },
        SplunkAnswer::CountUnreadable(e) => {
            let mut t = String::from_str("CRITICAL: Failed to parse count from result: ");
            push_str(&mut t, e.as_str());
            SplunkReport { ok: false, to_stderr: false, text: t }
        },
        SplunkAnswer::Count(c) => {
            let mut t = String::from_str("OK: Found host=");
            push_str(&mut t, host);
            push_str(&mut t, " count=");
            push_str(&mut t, c.as_str());
            push_str(&mut t, " ");
            push_str(&mut t, note.as_str());
            push_str(&mut t, window);
            SplunkReport { ok: true, to_stderr: false, text: t }
        },
    }
}

/// `done` with `t` added where `t` is not empty.
pub open spec fn push_nonempty(done: Seq<Seq<char>>, t: Seq<char>) -> Seq<Seq<char>> {
    if t.len() > 0 {
        done.push(t)
    } else {
        done
    }
}

/// The trimmed, non-empty lines of `s` read from the left, with `cur` the line begun so far
/// and `done` the lines kept so far.
pub open spec fn result_lines_from(s: Seq<char>, cur: Seq<char>, done: Seq<Seq<char>>) -> Seq<Seq<char>>
    decreases s.len(),
{
    if s.len() == 0 {
        push_nonempty(done, trim(cur))
    } else if s[0] == '\n' {
        result_lines_from(s.drop_first(), Seq::empty(), push_nonempty(done, trim(cur)))
    } else {
        result_lines_from(s.drop_first(), cur.push(s[0]), done)
    }
}

/// The lines of a response body that may hold a search result: each line as `str::lines`
/// splits them, trimmed, with the empty ones left out.
pub open spec fn result_lines(body: Seq<char>) -> Seq<Seq<char>> {
    result_lines_from(body, Seq::empty(), Seq::empty())
}

/// Splits a response body into the lines that may hold a search result; see
/// [`result_lines`].
pub fn search_result_lines(body: &str) -> (r: Vec<String>)
    ensures
        views(r@) == result_lines(body@),
{
    let c = to_chars(body);
    let mut done: Vec<String> = Vec::new();
    let mut cur: Vec<char> = Vec::new();
    let mut i: usize = 0;
    proof {
        assert(c@.skip(0) =~= c@);
        assert(views(done@) =~= Seq::<Seq<char>>::empty());
    }
    while i < c.len()
        invariant
            c@ == body@,
            i <= c@.len(),
            result_lines(body@) == result_lines_from(c@.skip(i as int), cur@, views(done@)),
        decreases c@.len() - i,
    {
        let ghost rest = c@.skip(i as int);
        assert(rest.drop_first() =~= c@.skip(i + 1));
        assert(rest[0] == c@[i as int]);
        if c[i] == '\n' {
            let t = trim_text(&cur);
            if !t.as_str().is_empty() {
                proof {
                    assert(views(done@.push(t)) =~= views(done@).push(t@));
                }
                done.push(t);
            }
            cur = Vec::new();
            proof {
                assert(cur@ =~= Seq::<char>::empty());
            }
        } else {
            cur.push(c[i]);
        }
        i += 1;
    }
    assert(c@.skip(i as int) =~= Seq::<char>::empty());
    let t = trim_text(&cur);
    if !t.as_str().is_empty() {
        proof {
            assert(views(done@.push(t)) =~= views(done@).push(t@));
        }
        done.push(t);
    }
    done
}

} // verus!
