//! OpenTelemetry collector checks reached through the Kubernetes API proxy: the names and
//! paths they use.

use vstd::prelude::*;
use crate::text::{to_chars, push_str, push_decimal, nat_to_decimal, str_eq};
use crate::errors::MaremmaError;
use crate::status::ServiceStatus;

verus! {

/// The collector's health extension port where none is set
pub const DEFAULT_HEALTH_PORT: u16 = 13133;

/// The collector's metrics port where none is set
pub const DEFAULT_METRICS_PORT: u16 = 8888;

/// The health port where none is set: 13133.
pub fn default_health_port() -> (r: u16)
    ensures
        r == DEFAULT_HEALTH_PORT,
{
    DEFAULT_HEALTH_PORT
}

/// The metrics port where none is set: 8888.
pub fn default_metrics_port() -> (r: u16)
    ensures
        r == DEFAULT_METRICS_PORT,
{
    DEFAULT_METRICS_PORT
}

/// Is `c` a lowercase ASCII letter or a digit?
pub open spec fn is_lower_alnum(c: char) -> bool {
    ('a' <= c <= 'z') || ('0' <= c <= '9')
}

/// Is `s` a DNS label as Kubernetes names must be: one to 63 lowercase letters, digits
/// and hyphens, starting and ending with a letter or digit. (Every such text is ASCII,
/// so its length in characters is its length in bytes.)
pub open spec fn is_dns_label(s: Seq<char>) -> bool {
    &&& 0 < s.len() <= 63
    &&& forall|i: int| 0 <= i < s.len() ==> is_lower_alnum(#[trigger] s[i]) || s[i] == '-'
    &&& is_lower_alnum(s[0])
    &&& is_lower_alnum(s.last())
}

fn is_lower_alnum_exec(c: char) -> (r: bool)
    ensures
        r == is_lower_alnum(c),
{
    ('a' <= c && c <= 'z') || ('0' <= c && c <= '9')
}

/// Checks a namespace or service name; see [`is_dns_label`].
pub fn valid_dns_label(value: &str) -> (r: bool)
    ensures
        r == is_dns_label(value@),
{
    let c = to_chars(value);
    let n = c.len();
    if n == 0 || n > 63 {
        return false;
    }
    let mut i: usize = 0;
    while i < n
        invariant
            c@ == value@,
            n == c@.len(),
            i <= n,
            forall|j: int| 0 <= j < i ==> is_lower_alnum(#[trigger] c@[j]) || c@[j] == '-',
        decreases n - i,
    {
        if !(is_lower_alnum_exec(c[i]) || c[i] == '-') {
            return false;
        }
        i += 1;
    }
    is_lower_alnum_exec(c[0]) && is_lower_alnum_exec(c[n - 1])
}

/// The path through the Kubernetes API proxy to `path` on port `port` of a service.
pub fn proxy_path(namespace: &str, service_name: &str, port: u16, path: &str) -> (r: String)
    ensures
        r@ == "/api/v1/namespaces/"@ + namespace@ + "/services/http:"@ + service_name@ + ":"@
            + nat_to_decimal(port as nat) + "/proxy"@ + path@,
{
    let mut t = String::new();
    push_str(&mut t, "/api/v1/namespaces/");
    push_str(&mut t, namespace);
    push_str(&mut t, "/services/http:");
    push_str(&mut t, service_name);
    push_str(&mut t, ":");
    push_decimal(&mut t, port as u128);
    push_str(&mut t, "/proxy");
    push_str(&mut t, path);
    t
}


/// The first complaint about where a collector check points, if any: the namespace and
/// the service name must be DNS labels, and neither port may be zero.
pub open spec fn collector_target_error(
    namespace: Seq<char>,
    service_name: Seq<char>,
    health_port: u16,
    metrics_port: u16,
) -> Option<Seq<char>> {
    if !is_dns_label(namespace) {
        Some("namespace must be a valid Kubernetes DNS label"@)
    } else if !is_dns_label(service_name) {
        Some("service_name must be a valid Kubernetes DNS label"@)
    } else if health_port == 0 || metrics_port == 0 {
        Some("collector ports must be greater than zero"@)
    } else {
        None
    }
}

/// Checks the namespace, service name and ports of a collector check, in that order;
/// each refusal is a configuration error with the message of [`collector_target_error`].
pub fn validate_collector_target(
    namespace: &str,
    service_name: &str,
    health_port: u16,
    metrics_port: u16,
) -> (r: Result<(), MaremmaError>)
    ensures
        match collector_target_error(namespace@, service_name@, health_port, metrics_port) {
            None => r is Ok,
            Some(m) => r matches Err(MaremmaError::Configuration(e)) && e@ == m,
        },
{
    if !valid_dns_label(namespace) {
        return Err(MaremmaError::Configuration(
            String::from_str("namespace must be a valid Kubernetes DNS label"),
        ));
    }
    if !valid_dns_label(service_name) {
        return Err(MaremmaError::Configuration(
            String::from_str("service_name must be a valid Kubernetes DNS label"),
        ));
    }
    if health_port == 0 || metrics_port == 0 {
        return Err(MaremmaError::Configuration(
            String::from_str("collector ports must be greater than zero"),
        ));
    }
    Ok(())
}

/// The status a healthy collector reports.
pub open spec fn healthy_collector_status() -> Seq<char> {
    "Server available"@
}

/// What a collector's reported health status decides on its own: a collector that does
/// not report itself available is critical at once, with the status it gave; an available
/// one goes on to have its metrics read, which is `None` here.
pub fn collector_health_verdict(status: &str) -> (r: Option<(String, ServiceStatus)>)
    ensures
        status@ == healthy_collector_status() ==> r is None,
        status@ != healthy_collector_status() ==> (r matches Some((t, s)) && s
            == ServiceStatus::Critical && t@ == "CRITICAL: collector health status="@ + status@),
{
    if str_eq(status, "Server available") {
        None
    } else {
        let mut t = String::from_str("CRITICAL: collector health status=");
        push_str(&mut t, status);
        Some((t, ServiceStatus::Critical))
    }
}

} // verus!
