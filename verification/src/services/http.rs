//! HTTP checks: the request to make, and what its response means.

use vstd::prelude::*;
use crate::errors::MaremmaError;
use crate::json::{
    JsonValue, lookup, as_unsigned, text_or, bool_or, overlay_text, overlay_number, overlay_flag,
    opt_text, opt_num, is_field_error, get, unsigned_value, field_error, extract_string,
    extract_bool, extract_opt_text, extract_number, extract_opt_bool, copy_opt_text,
};
use crate::schedule::{CronSchedule, overlay_cron, extract_cron};
use crate::status::ServiceStatus;
use crate::text::{
    ascii_lowercase, eq_ascii_lowercase, parse_unsigned_text, parse_unsigned, push_str,
    push_decimal, nat_to_decimal, contains_str, contains_seq,
};

verus! {

/// HTTP Methods
#[derive(Clone, Copy, Debug, PartialEq, Eq, Structural)]
pub enum HttpMethod {
    /// GET
    Get,
    /// POST
    Post,
    /// PUT
    Put,
    /// DELETE
    Delete,
    /// PATCH
    Patch,
    /// OPTIONS
    Options,
}

impl Default for HttpMethod {
    fn default() -> (r: Self)
        ensures
            r == HttpMethod::Get,
    {
        HttpMethod::Get
    }
}

/// The name of a method, in capitals.
pub open spec fn method_name(m: HttpMethod) -> Seq<char> {
    match m {
        HttpMethod::Get => "GET"@,
        HttpMethod::Post => "POST"@,
        HttpMethod::Put => "PUT"@,
        HttpMethod::Delete => "DELETE"@,
        HttpMethod::Patch => "PATCH"@,
        HttpMethod::Options => "OPTIONS"@,
    }
}

/// The method a text names in any case; any other text means GET. (Only ASCII letters
/// fold to the letters of these names, so folding ASCII capitals is enough.)
pub open spec fn method_of_text(s: Seq<char>) -> HttpMethod {
    let l = ascii_lowercase(s);
    if l == "get"@ {
        HttpMethod::Get
    } else if l == "post"@ {
        HttpMethod::Post
    } else if l == "put"@ {
        HttpMethod::Put
    } else if l == "delete"@ {
        HttpMethod::Delete
    } else if l == "patch"@ {
        HttpMethod::Patch
    } else if l == "options"@ {
        HttpMethod::Options
    } else {
        HttpMethod::Get
    }
}

/// The method a text names; see [`method_of_text`].
pub fn method_from_text(s: &str) -> (r: HttpMethod)
    ensures
        r == method_of_text(s@),
{
    if eq_ascii_lowercase(s, "get") {
        HttpMethod::Get
    } else if eq_ascii_lowercase(s, "post") {
        HttpMethod::Post
    } else if eq_ascii_lowercase(s, "put") {
        HttpMethod::Put
    } else if eq_ascii_lowercase(s, "delete") {
        HttpMethod::Delete
    } else if eq_ascii_lowercase(s, "patch") {
        HttpMethod::Patch
    } else if eq_ascii_lowercase(s, "options") {
        HttpMethod::Options
    } else {
        HttpMethod::Get
    }
}

impl HttpMethod {
    /// The method's name in capitals, such as `GET`.
    pub fn to_string(&self) -> (r: String)
        ensures
            r@ == method_name(*self),
    {
        match self {
            HttpMethod::Get => "GET".to_owned(),
            HttpMethod::Post => "POST".to_owned(),
            HttpMethod::Put => "PUT".to_owned(),
            HttpMethod::Delete => "DELETE".to_owned(),
            HttpMethod::Patch => "PATCH".to_owned(),
            HttpMethod::Options => "OPTIONS".to_owned(),
        }
    }
}

impl From<String> for HttpMethod {
    fn from(value: String) -> (r: Self) {
        method_from_text(value.as_str())
    }
}

impl vstd::std_specs::convert::FromSpecImpl<String> for HttpMethod {
    open spec fn obeys_from_spec() -> bool {
        true
    }

    open spec fn from_spec(v: String) -> HttpMethod {
        method_of_text(v@)
    }
}

/// Reading a method back from its name gives the same method.
pub proof fn method_name_round_trip(m: HttpMethod)
    ensures
        method_of_text(method_name(m)) == m,
{
    reveal_strlit("GET");
    reveal_strlit("POST");
    reveal_strlit("PUT");
    reveal_strlit("DELETE");
    reveal_strlit("PATCH");
    reveal_strlit("OPTIONS");
    reveal_strlit("get");
    reveal_strlit("post");
    reveal_strlit("put");
    reveal_strlit("delete");
    reveal_strlit("patch");
    reveal_strlit("options");
    match m {
        HttpMethod::Get => {
            assert(ascii_lowercase("GET"@) =~= "get"@);
        },
        HttpMethod::Post => {
            assert(ascii_lowercase("POST"@) =~= "post"@);
        },
        HttpMethod::Put => {
            assert(ascii_lowercase("PUT"@) =~= "put"@);
            assert("put"@[0] != "get"@[0]);
        },
        HttpMethod::Delete => {
            assert(ascii_lowercase("DELETE"@) =~= "delete"@);
        },
        HttpMethod::Patch => {
            assert(ascii_lowercase("PATCH"@) =~= "patch"@);
        },
        HttpMethod::Options => {
            assert(ascii_lowercase("OPTIONS"@) =~= "options"@);
        },
    }
}

/// How a field overlays the method: a missing field keeps the default, a string names
/// the method, anything else is refused (`None`).
pub open spec fn overlay_method(field: Option<JsonValue>, default: HttpMethod) -> Option<HttpMethod> {
    match field {
        None => Some(default),
        Some(JsonValue::Str(s)) => Some(method_of_text(s@)),
        Some(_) => None,
    }
}

/// The method overlaid by a field; see [`overlay_method`].
pub fn extract_method(entries: &Vec<(String, JsonValue)>, key: &str, default: HttpMethod) -> (r: Result<HttpMethod, MaremmaError>)
    ensures
        match overlay_method(lookup(entries@, key@), default) {
            Some(m) => r == Ok::<HttpMethod, MaremmaError>(m),
            None => r matches Err(e) && is_field_error(e, key@),
        },
{
    match get(entries, key) {
        None => Ok(default),
        Some(JsonValue::Str(s)) => Ok(method_from_text(s.as_str())),
        Some(_) => Err(field_error(key)),
    }
}

/// Default timeout for HTTP checks, in seconds
pub const DEFAULT_TIMEOUT: u64 = 10;

/// Whether TLS certificates are validated where the configuration leaves it unset: yes.
pub fn default_true() -> (r: bool)
    ensures
        r,
{
    true
}

/// The status code expected where none is set: 200.
pub fn default_expected_http_status() -> (r: u16)
    ensures
        r == 200,
{
    200
}

/// Is `code` a status code that `reqwest::StatusCode` accepts?
pub open spec fn status_code_in_range(code: u16) -> bool {
    100 <= code <= 999
}

/// Whether `reqwest::StatusCode::from_u16` accepts `code`; it accepts 100 to 999.
#[verifier::external_body]
fn status_code_accepted(code: u16) -> (r: bool)
    ensures
        r == status_code_in_range(code),
{
    reqwest::StatusCode::from_u16(code).is_ok()
}

/// How `reqwest::StatusCode` shows a status code: the number and its reason phrase.
pub uninterp spec fn status_code_display(code: u16) -> Seq<char>;

/// Shows a status code the way `reqwest::StatusCode`'s `Display` does; the text is named.
#[verifier::external_body]
fn status_code_text(code: u16) -> (r: String)
    requires
        status_code_in_range(code),
    ensures
        r@ == status_code_display(code),
{
    match reqwest::StatusCode::from_u16(code) {
        Ok(c) => c.to_string(),
        Err(_) => String::new(),
    }
}

/// An HTTP(s) service check
#[derive(Debug)]
pub struct HttpService {
    /// Name of the check
    pub name: String,
    /// Cron schedule for the service
    pub cron_schedule: CronSchedule,
    /// Defaults to GET
    pub http_method: HttpMethod,
    /// Defaults to nothing (ie, no additional path)
    pub http_uri: Option<String>,
    /// Expected status code, defaults to 200; never zero
    pub http_status: Option<u16>,
    /// Validate TLS, defaults to True
    pub validate_tls: bool,
    /// Connection timeout, defaults to 10 seconds ([DEFAULT_TIMEOUT])
    pub connect_timeout: Option<u64>,
    /// Port to connect to, defaults to 443 (https); never zero
    pub port: Option<u16>,
    /// Ensure the body has a certain string
    pub contains_string: Option<String>,
    /// CA cert file to use
    pub ca_file: Option<String>,
    /// Actually use HTTP, not HTTPS...
    pub use_http: Option<bool>,
    /// Add random jitter in 0..n seconds to the check
    pub jitter: Option<u16>,
}

/// The status code a check expects: its setting, or 200.
pub open spec fn expected_code(s: &HttpService) -> u16 {
    match s.http_status {
        Some(c) => c,
        None => 200,
    }
}

/// The text of the error for an expected status code that is out of range.
pub open spec fn invalid_expected_text(code: u16) -> Seq<char> {
    "Invalid status code "@ + nat_to_decimal(code as nat) + " in service check"@
}

/// How a field overlays the expected status code. A non-negative integer is cut to 16
/// bits and zero means none; a string is read as a number, and one that is not a
/// number from 1 to 65535 means none; anything else is refused (`None`).
pub open spec fn overlay_http_status(field: Option<JsonValue>, default: Option<u16>) -> Option<Option<u16>> {
    match field {
        None => Some(default),
        Some(v) => match as_unsigned(v) {
            Some(n) => Some(
                if n % 65536 == 0 {
                    None
                } else {
                    Some((n % 65536) as u16)
                },
            ),
            None => match v {
                JsonValue::Str(s) => Some(
                    match parse_unsigned_text(s@, 65535) {
                        Some(k) => if k == 0 {
                            None
                        } else {
                            Some(k as u16)
                        },
                        None => None,
                    },
                ),
                _ => None,
            },
        },
    }
}

/// Does overlaying the host configuration `e` onto the check `s` fail, and if so is `x`
/// the error it fails with? The fields are read in order: `http_status`, `cron_schedule`,
/// `http_method`, `http_uri`, `connect_timeout`, `port`, `contains_string`, `ca_file`,
/// `use_http`, `jitter`; the first that is refused decides the error.
pub open spec fn http_overlay_error(s: &HttpService, e: Seq<(String, JsonValue)>, x: MaremmaError) -> bool {
    if overlay_http_status(lookup(e, "http_status"@), s.http_status) is None {
        x matches MaremmaError::Configuration(m) && m@ == "Couldn't parse http_status as valid number"@
    } else if overlay_cron(lookup(e, "cron_schedule"@), s.cron_schedule@) is Err {
        x matches MaremmaError::Generic(m) && m@ == (if overlay_cron(
            lookup(e, "cron_schedule"@),
            s.cron_schedule@,
        ) == Err::<Seq<char>, bool>(true) {
            "Failed to get cron_schedule"@
        } else {
            "Failed to parse cron_schedule"@
        })
    } else if overlay_method(lookup(e, "http_method"@), s.http_method) is None {
        is_field_error(x, "http_method"@)
    } else if overlay_text(lookup(e, "http_uri"@), opt_text(s.http_uri)) is None {
        is_field_error(x, "http_uri"@)
    } else if overlay_number(lookup(e, "connect_timeout"@), opt_num(s.connect_timeout), u64::MAX as int, false) is None {
        is_field_error(x, "connect_timeout"@)
    } else if overlay_number(lookup(e, "port"@), opt_num16(s.port), 65535, true) is None {
        is_field_error(x, "port"@)
    } else if overlay_text(lookup(e, "contains_string"@), opt_text(s.contains_string)) is None {
        is_field_error(x, "contains_string"@)
    } else if overlay_text(lookup(e, "ca_file"@), opt_text(s.ca_file)) is None {
        is_field_error(x, "ca_file"@)
    } else if overlay_flag(lookup(e, "use_http"@), s.use_http) is None {
        is_field_error(x, "use_http"@)
    } else if overlay_number(lookup(e, "jitter"@), opt_num16(s.jitter), 65535, false) is None {
        is_field_error(x, "jitter"@)
    } else {
        false
    }
}

/// Does overlaying the host configuration `e` onto the check `s` succeed?
pub open spec fn http_overlay_ok(s: &HttpService, e: Seq<(String, JsonValue)>) -> bool {
    &&& overlay_http_status(lookup(e, "http_status"@), s.http_status) is Some
    &&& overlay_cron(lookup(e, "cron_schedule"@), s.cron_schedule@) is Ok
    &&& overlay_method(lookup(e, "http_method"@), s.http_method) is Some
    &&& overlay_text(lookup(e, "http_uri"@), opt_text(s.http_uri)) is Some
    &&& overlay_number(lookup(e, "connect_timeout"@), opt_num(s.connect_timeout), u64::MAX as int, false) is Some
    &&& overlay_number(lookup(e, "port"@), opt_num16(s.port), 65535, true) is Some
    &&& overlay_text(lookup(e, "contains_string"@), opt_text(s.contains_string)) is Some
    &&& overlay_text(lookup(e, "ca_file"@), opt_text(s.ca_file)) is Some
    &&& overlay_flag(lookup(e, "use_http"@), s.use_http) is Some
    &&& overlay_number(lookup(e, "jitter"@), opt_num16(s.jitter), 65535, false) is Some
}

/// The view of an optional 16-bit number.
pub open spec fn opt_num16(o: Option<u16>) -> Option<int> {
    match o {
        Some(n) => Some(n as int),
        None => None,
    }
}

pub(crate) fn narrow16(o: Option<u64>) -> (r: Option<u16>)
    requires
        o matches Some(n) ==> n <= 65535,
    ensures
        opt_num16(r) == opt_num(o),
{
    match o {
        Some(n) => Some(n as u16),
        None => None,
    }
}

pub(crate) fn widen16(o: Option<u16>) -> (r: Option<u64>)
    ensures
        opt_num(r) == opt_num16(o),
{
    match o {
        Some(n) => Some(n as u64),
        None => None,
    }
}

/// The expected status code overlaid by a field; see [`overlay_http_status`].
pub fn extract_http_status(entries: &Vec<(String, JsonValue)>, default: Option<u16>) -> (r: Result<Option<u16>, MaremmaError>)
    ensures
        match overlay_http_status(lookup(entries@, "http_status"@), default) {
            Some(o) => r == Ok::<Option<u16>, MaremmaError>(o),
            None => r matches Err(MaremmaError::Configuration(m)) && m@ == "Couldn't parse http_status as valid number"@,
        },
{
    match get(entries, "http_status") {
        None => Ok(default),
        Some(v) => match unsigned_value(v) {
            Some(n) => {
                let cut: u64 = n % 65536;
                if cut == 0 {
                    Ok(None)
                } else {
                    Ok(Some(cut as u16))
                }
            },
            None => match v {
                JsonValue::Str(s) => match parse_unsigned(s.as_str(), 65535) {
                    Some(k) => if k == 0 {
                        Ok(None)
                    } else {
                        Ok(Some(k as u16))
                    },
                    None => Ok(None),
                },
                _ => Err(
                    MaremmaError::Configuration(
                        "Couldn't parse http_status as valid number".to_owned(),
                    ),
                ),
            },
        },
    }
}

impl HttpService {
    /// The status code the check expects, refused where `reqwest::StatusCode` would not
    /// take it (outside 100 to 999).
    pub fn expected_status_code(&self) -> (r: Result<u16, MaremmaError>)
        ensures
            status_code_in_range(expected_code(self)) ==> r == Ok::<u16, MaremmaError>(
                expected_code(self),
            ),
            !status_code_in_range(expected_code(self)) ==> (r matches Err(MaremmaError::Generic(m))
                && m@ == invalid_expected_text(expected_code(self))),
    {
        let code = match self.http_status {
            Some(c) => c,
            None => default_expected_http_status(),
        };
        if status_code_accepted(code) {
            Ok(code)
        } else {
            let mut m = String::new();
            push_str(&mut m, "Invalid status code ");
            push_decimal(&mut m, code as u128);
            push_str(&mut m, " in service check");
            Err(MaremmaError::Generic(m))
        }
    }

    /// Checks the settings: an expected status code must be one `reqwest` accepts.
    pub fn validate(&self) -> (r: Result<(), MaremmaError>)
        ensures
            match self.http_status {
                Some(c) => if status_code_in_range(c) {
                    r is Ok
                } else {
                    r matches Err(MaremmaError::Configuration(m)) && m@ == "Invalid HTTP status code: "@
                        + nat_to_decimal(c as nat)
                },
                None => r is Ok,
            },
    {
        if let Some(c) = self.http_status {
            if !status_code_accepted(c) {
                let mut m = String::new();
                push_str(&mut m, "Invalid HTTP status code: ");
                push_decimal(&mut m, c as u128);
                return Err(MaremmaError::Configuration(m));
            }
        }
        Ok(())
    }

    /// The URL the check requests from `hostname`: `http` where `use_http` is set and
    /// `https` otherwise, the port where one is set, then the path.
    pub fn check_url(&self, hostname: &str) -> (r: String)
        ensures
            r@ == (if self.use_http == Some(true) {
                "http"@
            } else {
                "https"@
            }) + "://"@ + hostname@ + (match self.port {
                Some(p) => ":"@ + nat_to_decimal(p as nat),
                None => Seq::empty(),
            }) + (match self.http_uri {
                Some(u) => u@,
                None => Seq::empty(),
            }),
    {
        let mut url = String::new();
        if self.use_http == Some(true) {
            push_str(&mut url, "http");
        } else {
            push_str(&mut url, "https");
        }
        push_str(&mut url, "://");
        push_str(&mut url, hostname);
        if let Some(p) = self.port {
            push_str(&mut url, ":");
            push_decimal(&mut url, p as u128);
        }
        if let Some(u) = &self.http_uri {
            push_str(&mut url, u.as_str());
        }
        url
    }

    /// What a response with status code `received` means for this check. A body is
    /// read only where the check looks for a string in it. A status code other than the
    /// expected one is critical; so is a body without the string; otherwise the check is
    /// OK.
    pub fn response_verdict(&self, received: u16, body: Option<String>) -> (r: Result<(String, ServiceStatus), MaremmaError>)
        requires
            status_code_in_range(received),
            self.contains_string is Some ==> body is Some,
        ensures
            !status_code_in_range(expected_code(self)) ==> (r matches Err(MaremmaError::Generic(m))
                && m@ == invalid_expected_text(expected_code(self))),
            status_code_in_range(expected_code(self)) && received != expected_code(self) ==> (r
                matches Ok((t, st)) && st == ServiceStatus::Critical && t@ == "Expected status code "@
                + status_code_display(expected_code(self)) + ", got "@ + status_code_display(received)),
            status_code_in_range(expected_code(self)) && received == expected_code(self) ==> (
            match self.contains_string {
                Some(want) => if contains_seq(body->0@, want@) {
                    r matches Ok((t, st)) && st == ServiceStatus::OK && t@ == "OK"@
                } else {
                    r matches Ok((t, st)) && st == ServiceStatus::Critical && t@ == "Expected string '"@
                        + want@ + "' not found in body"@
                },
                None => r matches Ok((t, st)) && st == ServiceStatus::OK && t@ == "OK"@,
            }),
    {
        let expected = match self.expected_status_code() {
            Ok(c) => c,
            Err(e) => return Err(e),
        };
        if received != expected {
            let mut t = String::new();
            push_str(&mut t, "Expected status code ");
            let shown = status_code_text(expected);
            push_str(&mut t, shown.as_str());
            push_str(&mut t, ", got ");
            let got = status_code_text(received);
            push_str(&mut t, got.as_str());
            return Ok((t, ServiceStatus::Critical));
        }
        if let Some(want) = &self.contains_string {
            let b = match &body {
                Some(b) => b,
                None => return Ok(("OK".to_owned(), ServiceStatus::OK)),
            };
            if !contains_str(b.as_str(), want.as_str()) {
                let mut t = String::new();
                push_str(&mut t, "Expected string '");
                push_str(&mut t, want.as_str());
                push_str(&mut t, "' not found in body");
                return Ok((t, ServiceStatus::Critical));
            }
        }
        Ok(("OK".to_owned(), ServiceStatus::OK))
    }

    /// The check with a host's own settings laid over it. Each field of `entries` replaces
    /// the setting of the same name; see [`http_overlay_ok`] and [`http_overlay_error`] for
    /// what is refused, and the clauses below for what each setting becomes.
    pub fn overlay_host_config(&self, entries: &Vec<(String, JsonValue)>) -> (r: Result<HttpService, MaremmaError>)
        ensures
            r is Ok <==> http_overlay_ok(self, entries@),
            r matches Err(x) ==> http_overlay_error(self, entries@, x),
            r matches Ok(c) ==> {
                &&& c.name@ == text_or(lookup(entries@, "name"@), self.name@)
                &&& Some(c.http_status) == overlay_http_status(lookup(entries@, "http_status"@), self.http_status)
                &&& Ok::<Seq<char>, bool>(c.cron_schedule@) == overlay_cron(lookup(entries@, "cron_schedule"@), self.cron_schedule@)
                &&& Some(c.http_method) == overlay_method(lookup(entries@, "http_method"@), self.http_method)
                &&& Some(opt_text(c.http_uri)) == overlay_text(lookup(entries@, "http_uri"@), opt_text(self.http_uri))
                &&& c.validate_tls == bool_or(lookup(entries@, "validate_tls"@), self.validate_tls)
                &&& Some(opt_num(c.connect_timeout)) == overlay_number(lookup(entries@, "connect_timeout"@), opt_num(self.connect_timeout), u64::MAX as int, false)
                &&& Some(opt_num16(c.port)) == overlay_number(lookup(entries@, "port"@), opt_num16(self.port), 65535, true)
                &&& Some(opt_text(c.contains_string)) == overlay_text(lookup(entries@, "contains_string"@), opt_text(self.contains_string))
                &&& Some(opt_text(c.ca_file)) == overlay_text(lookup(entries@, "ca_file"@), opt_text(self.ca_file))
                &&& Some(c.use_http) == overlay_flag(lookup(entries@, "use_http"@), self.use_http)
                &&& Some(opt_num16(c.jitter)) == overlay_number(lookup(entries@, "jitter"@), opt_num16(self.jitter), 65535, false)
            },
    {
        let name = extract_string(entries, "name", self.name.as_str());
        let http_status = extract_http_status(entries, self.http_status)?;
        let cron_schedule = extract_cron(entries, "cron_schedule", &self.cron_schedule)?;
        let http_method = extract_method(entries, "http_method", self.http_method)?;
        let http_uri = extract_opt_text(entries, "http_uri", &self.http_uri)?;
        let validate_tls = extract_bool(entries, "validate_tls", self.validate_tls);
        let connect_timeout = extract_number(entries, "connect_timeout", self.connect_timeout, u64::MAX, false)?;
        let port = extract_number(entries, "port", widen16(self.port), 65535, true)?;
        let contains_string = extract_opt_text(entries, "contains_string", &self.contains_string)?;
        let ca_file = extract_opt_text(entries, "ca_file", &self.ca_file)?;
        let use_http = extract_opt_bool(entries, "use_http", self.use_http)?;
        let jitter = extract_number(entries, "jitter", widen16(self.jitter), 65535, false)?;
        Ok(HttpService {
            name,
            cron_schedule,
            http_method,
            http_uri,
            http_status,
            validate_tls,
            connect_timeout,
            port: narrow16(port),
            contains_string,
            ca_file,
            use_http,
            jitter: narrow16(jitter),
        })
    }
}

} // verus!

verus! {

/// A host without settings of its own leaves an HTTP check exactly as configured.
pub proof fn empty_host_config_keeps_http_check(s: &HttpService)
    ensures
        http_overlay_ok(s, Seq::empty()),
        text_or(lookup(Seq::empty(), "name"@), s.name@) == s.name@,
        overlay_http_status(lookup(Seq::empty(), "http_status"@), s.http_status) == Some(s.http_status),
        overlay_cron(lookup(Seq::empty(), "cron_schedule"@), s.cron_schedule@) == Ok::<Seq<char>, bool>(s.cron_schedule@),
        overlay_method(lookup(Seq::empty(), "http_method"@), s.http_method) == Some(s.http_method),
        overlay_text(lookup(Seq::empty(), "http_uri"@), opt_text(s.http_uri)) == Some(opt_text(s.http_uri)),
        bool_or(lookup(Seq::empty(), "validate_tls"@), s.validate_tls) == s.validate_tls,
        overlay_number(lookup(Seq::empty(), "connect_timeout"@), opt_num(s.connect_timeout), u64::MAX as int, false) == Some(opt_num(s.connect_timeout)),
        overlay_number(lookup(Seq::empty(), "port"@), opt_num16(s.port), 65535, true) == Some(opt_num16(s.port)),
        overlay_text(lookup(Seq::empty(), "contains_string"@), opt_text(s.contains_string)) == Some(opt_text(s.contains_string)),
        overlay_text(lookup(Seq::empty(), "ca_file"@), opt_text(s.ca_file)) == Some(opt_text(s.ca_file)),
        overlay_flag(lookup(Seq::empty(), "use_http"@), s.use_http) == Some(s.use_http),
        overlay_number(lookup(Seq::empty(), "jitter"@), opt_num16(s.jitter), 65535, false) == Some(opt_num16(s.jitter)),
{
}

/// A setting a host gives replaces the check's own: a host's string for the path, or its
/// integer from 1 to 65535 for the port, is what the check then uses.
pub proof fn host_setting_wins(s: &HttpService, e: Seq<(String, JsonValue)>, uri: String, port: u16)
    requires
        lookup(e, "http_uri"@) == Some(JsonValue::Str(uri)),
        lookup(e, "port"@) == Some(JsonValue::Number(crate::json::JsonNumber::PosInt(port as u64))),
        port != 0,
    ensures
        overlay_text(lookup(e, "http_uri"@), opt_text(s.http_uri)) == Some(Some(uri@)),
        overlay_number(lookup(e, "port"@), opt_num16(s.port), 65535, true) == Some(Some(port as int)),
{
}

} // verus!
