//! How the system represents hosts, and how a Kubernetes or SSH host is described.

use vstd::prelude::*;
use crate::errors::MaremmaError;
use crate::ids::new_uuid;
use crate::json::{
    JsonValue, lookup, as_unsigned, as_text, get, unsigned_value, overlay_text, overlay_required_number,
    opt_text,
};
use crate::text::{push_str, push_decimal, nat_to_decimal, views, str_eq};

verus! {

/// The kind of check to perform to ensure the host is up
#[derive(Clone, Copy, Debug, PartialEq, Eq, Structural)]
pub enum HostCheck {
    /// No checks done
    NoCheck,
    /// Checks by pinging the host
    Ping,
    /// Checks by trying to SSH to the host
    Ssh,
    /// Checks we can connect to the Kubernetes API
    Kubernetes,
}

impl Default for HostCheck {
    fn default() -> (r: Self)
        ensures
            r == HostCheck::Ping,
    {
        HostCheck::Ping
    }
}

/// How a host check is shown.
pub open spec fn host_check_label(c: HostCheck) -> Seq<char> {
    match c {
        HostCheck::NoCheck => "None"@,
        HostCheck::Ping => "Ping"@,
        HostCheck::Ssh => "SSH"@,
        HostCheck::Kubernetes => "Kubernetes"@,
    }
}

/// The one-letter code a host check is stored under.
pub open spec fn host_check_code(c: HostCheck) -> Seq<char> {
    match c {
        HostCheck::NoCheck => "n"@,
        HostCheck::Ping => "p"@,
        HostCheck::Ssh => "s"@,
        HostCheck::Kubernetes => "k"@,
    }
}

/// The host check a stored code stands for.
pub open spec fn host_check_of_code(s: Seq<char>) -> Option<HostCheck> {
    if s == "n"@ {
        Some(HostCheck::NoCheck)
    } else if s == "p"@ {
        Some(HostCheck::Ping)
    } else if s == "s"@ {
        Some(HostCheck::Ssh)
    } else if s == "k"@ {
        Some(HostCheck::Kubernetes)
    } else {
        None
    }
}

impl HostCheck {
    /// How the check is shown: `None`, `Ping`, `SSH` or `Kubernetes`.
    pub fn to_string(&self) -> (r: String)
        ensures
            r@ == host_check_label(*self),
    {
        match self {
            HostCheck::NoCheck => "None".to_owned(),
            HostCheck::Ping => "Ping".to_owned(),
            HostCheck::Ssh => "SSH".to_owned(),
            HostCheck::Kubernetes => "Kubernetes".to_owned(),
        }
    }

    /// The one-letter code the check is stored under.
    pub fn code(&self) -> (r: String)
        ensures
            r@ == host_check_code(*self),
    {
        match self {
            HostCheck::NoCheck => "n".to_owned(),
            HostCheck::Ping => "p".to_owned(),
            HostCheck::Ssh => "s".to_owned(),
            HostCheck::Kubernetes => "k".to_owned(),
        }
    }

    /// The check a stored code stands for, or `None` for any other text.
    pub fn from_code(s: &str) -> (r: Option<HostCheck>)
        ensures
            r == host_check_of_code(s@),
    {
        if str_eq(s, "n") {
            Some(HostCheck::NoCheck)
        } else if str_eq(s, "p") {
            Some(HostCheck::Ping)
        } else if str_eq(s, "s") {
            Some(HostCheck::Ssh)
        } else if str_eq(s, "k") {
            Some(HostCheck::Kubernetes)
        } else {
            None
        }
    }
}

/// Reading back the code a host check is stored under gives the same check.
pub proof fn host_check_code_round_trip(c: HostCheck)
    ensures
        host_check_of_code(host_check_code(c)) == Some(c),
{
    reveal_strlit("n");
    reveal_strlit("p");
    reveal_strlit("s");
    reveal_strlit("k");
    assert("p"@[0] != "n"@[0]);
    assert("s"@[0] != "n"@[0] && "s"@[0] != "p"@[0]);
    assert("k"@[0] != "n"@[0] && "k"@[0] != "p"@[0] && "k"@[0] != "s"@[0]);
}

/// A generic host
#[derive(Debug)]
pub struct Host {
    /// Internal ID
    pub id: Option<u128>,
    /// The kind of check
    pub check: HostCheck,
    /// The hostname
    pub hostname: Option<String>,
    /// Groups that this host is part of
    pub host_groups: Vec<String>,
    /// Extra configuration for services, the key matches the service name
    pub config: Vec<(String, JsonValue)>,
    /// Captures all the other config fields, if any
    pub extra: Vec<(String, JsonValue)>,
}

impl Host {
    /// Build a new host with a fresh random ID, in no groups and without configuration.
    pub fn new(hostname: String, check: HostCheck) -> (r: Self)
        ensures
            r.id is Some,
            r.hostname == Some(hostname),
            r.check == check,
            r.host_groups@.len() == 0,
            r.config@.len() == 0,
            r.extra@.len() == 0,
    {
        Host {
            hostname: Some(hostname),
            check,
            host_groups: Vec::new(),
            id: Some(new_uuid()),
            config: Vec::new(),
            extra: Vec::new(),
        }
    }
}

/// Copies a list of texts.
pub fn copy_texts(v: &Vec<String>) -> (r: Vec<String>)
    ensures
        views(r@) == views(v@),
{
    let mut out: Vec<String> = Vec::new();
    let mut i: usize = 0;
    while i < v.len()
        invariant
            i <= v@.len(),
            views(out@) == views(v@.take(i as int)),
        decreases v@.len() - i,
    {
        let s = v[i].clone();
        proof {
            assert(v@.take(i + 1) =~= v@.take(i as int).push(v@[i as int]));
            assert(views(out@.push(s)) =~= views(out@).push(s@));
            assert(views(v@.take(i as int).push(v@[i as int])) =~= views(v@.take(i as int)).push(
                v@[i as int]@,
            ));
        }
        out.push(s);
        i += 1;
    }
    proof {
        assert(v@.take(i as int) =~= v@);
    }
    out
}

/// The port of the Kubernetes API where none is set
pub const KUBE_PORT_DEFAULT: u16 = 6443;

/// The default port we'll try and connect to: 6443.
pub fn kube_port_default() -> (r: u16)
    ensures
        r == KUBE_PORT_DEFAULT,
        r != 0,
{
    KUBE_PORT_DEFAULT
}

/// A kubernetes host
#[derive(Debug)]
pub struct KubeHost {
    /// Target hostname
    pub hostname: String,
    /// Defaults to 6443; never zero
    pub api_port: u16,
    /// Use a specific cluster instead of just using the default
    pub kube_cluster: Option<String>,
    /// Groups that this host is part of
    pub host_groups: Vec<String>,
    /// CA certificate file for trusting the API
    pub ca_cert: Option<String>,
}

/// How a host's `api_port` setting gives the port of its Kubernetes API: missing means
/// 6443; a non-negative integer must be from 1 to 65535 (`Err(true)` otherwise); anything
/// else is refused (`Err(false)`).
pub open spec fn api_port_setting(field: Option<JsonValue>) -> Result<u16, bool> {
    match field {
        None => Ok(KUBE_PORT_DEFAULT),
        Some(v) => match as_unsigned(v) {
            Some(n) => if n == 0 || n > 65535 {
                Err(true)
            } else {
                Ok(n as u16)
            },
            None => Err(false),
        },
    }
}

impl KubeHost {
    /// Create a new KubeHost from a hostname
    pub fn from_hostname(hostname: &str) -> (r: Self)
        ensures
            r.hostname@ == hostname@,
            r.api_port == KUBE_PORT_DEFAULT,
            r.kube_cluster is None,
            r.host_groups@.len() == 0,
            r.ca_cert is None,
    {
        KubeHost {
            hostname: hostname.to_owned(),
            api_port: kube_port_default(),
            kube_cluster: None,
            host_groups: Vec::new(),
            ca_cert: None,
        }
    }

    /// Set the port for the API
    pub fn with_port(self, api_port: u16) -> (r: Self)
        requires
            api_port != 0,
        ensures
            r.api_port == api_port,
            r.hostname == self.hostname,
            r.kube_cluster == self.kube_cluster,
            r.host_groups == self.host_groups,
            r.ca_cert == self.ca_cert,
    {
        KubeHost { api_port, ..self }
    }

    /// Set the cluster to use from the configuration
    pub fn with_cluster(self, cluster: &str) -> (r: Self)
        ensures
            r.kube_cluster matches Some(c) && c@ == cluster@,
            r.hostname == self.hostname,
            r.api_port == self.api_port,
            r.host_groups == self.host_groups,
            r.ca_cert == self.ca_cert,
    {
        KubeHost { kube_cluster: Some(cluster.to_owned()), ..self }
    }

    /// Getter for the resulting API URL
    pub fn api_url(&self) -> (r: String)
        ensures
            r@ == "https://"@ + self.hostname@ + ":"@ + nat_to_decimal(self.api_port as nat),
    {
        let mut u = String::new();
        push_str(&mut u, "https://");
        push_str(&mut u, self.hostname.as_str());
        push_str(&mut u, ":");
        push_decimal(&mut u, self.api_port as u128);
        u
    }

    /// Describes a configured host as a Kubernetes host: its `api_port` setting, see
    /// [`api_port_setting`], its hostname, which it must have, and its groups.
    pub fn try_from_host(value: &Host) -> (r: Result<KubeHost, MaremmaError>)
        ensures
            api_port_setting(lookup(value.extra@, "api_port"@)) == Err::<u16, bool>(true) ==> (r
                matches Err(MaremmaError::Configuration(m)) && m@
                == "api_port must be somewhere between 1 and 65535"@),
            api_port_setting(lookup(value.extra@, "api_port"@)) == Err::<u16, bool>(false) ==> (r
                matches Err(MaremmaError::Configuration(m)) && m@ == "api_port must be a valid number"@),
            api_port_setting(lookup(value.extra@, "api_port"@)) is Ok && value.hostname is None ==> (r
                matches Err(MaremmaError::Configuration(m)) && m@ == "hostname is required"@),
            api_port_setting(lookup(value.extra@, "api_port"@)) is Ok && value.hostname
                is Some ==> (r matches Ok(k) && Ok::<u16, bool>(k.api_port) == api_port_setting(
                lookup(value.extra@, "api_port"@),
            ) && k.hostname@ == value.hostname->0@
                && k.kube_cluster is None && k.ca_cert is None && views(k.host_groups@) == views(
                value.host_groups@)),
    {
        let api_port: u16 = match get(&value.extra, "api_port") {
            Some(v) => match unsigned_value(v) {
                Some(n) => {
                    if n == 0 || n > 65535 {
                        return Err(
                            MaremmaError::Configuration(
                                "api_port must be somewhere between 1 and 65535".to_owned(),
                            ),
                        );
                    }
                    n as u16
                },
                None => {
                    return Err(
                        MaremmaError::Configuration("api_port must be a valid number".to_owned()),
                    );
                },
            },
            None => kube_port_default(),
        };
        let hostname = match &value.hostname {
            Some(h) => h.clone(),
            None => {
                return Err(MaremmaError::Configuration("hostname is required".to_owned()));
            },
        };
        Ok(KubeHost {
            hostname,
            api_port,
            kube_cluster: None,
            host_groups: copy_texts(&value.host_groups),
            ca_cert: None,
        })
    }

    /// Reads a Kubernetes host from its configuration: an object with named fields (see
    /// [`kube_host_settings`]), or a list of the fields in order (see [`kube_host_items`]).
    /// Anything else, or a field that is missing or of the wrong kind, is refused with a
    /// deserialization error.
    pub fn try_from_config(config: &JsonValue) -> (r: Result<KubeHost, MaremmaError>)
        ensures
            match (match config {
                JsonValue::Object(entries) => kube_host_settings(entries@),
                JsonValue::Array(items) => kube_host_items(items@),
                _ => None,
            }) {
                Some((h, p, k, g, c)) => r matches Ok(x) && x.hostname@ == h && x.api_port == p
                    && opt_text(x.kube_cluster) == k && views(x.host_groups@) == g && opt_text(x.ca_cert) == c,
                None => r matches Err(e) && e is Deserialization,
            },
    {
        let read = match config {
            JsonValue::Object(entries) => kube_host_from(
                get(entries, "hostname"),
                get(entries, "api_port"),
                get(entries, "kube_cluster"),
                get(entries, "host_groups"),
                get(entries, "ca_cert"),
            ),
            JsonValue::Array(items) => {
                let n = items.len();
                if n < 3 || n > 5 {
                    None
                } else {
                    kube_host_from(
                        item_at(items, 0),
                        item_at(items, 1),
                        item_at(items, 2),
                        item_at(items, 3),
                        item_at(items, 4),
                    )
                }
            },
            _ => None,
        };
        match read {
            Some(host) => Ok(host),
            None => Err(MaremmaError::Deserialization("Failed to read Kubernetes host configuration".to_owned())),
        }
    }
}

/// An optional reference to a JSON value, as the value.
pub open spec fn deref_opt(o: Option<&JsonValue>) -> Option<JsonValue> {
    match o {
        Some(v) => Some(*v),
        None => None,
    }
}

/// The item at `k` of a list, where there is one.
pub open spec fn item(items: Seq<JsonValue>, k: int) -> Option<JsonValue> {
    if 0 <= k < items.len() {
        Some(items[k])
    } else {
        None
    }
}

fn item_at(items: &Vec<JsonValue>, k: usize) -> (r: Option<&JsonValue>)
    ensures
        deref_opt(r) == item(items@, k as int),
{
    if k < items.len() {
        Some(&items[k])
    } else {
        None
    }
}

/// The settings of a Kubernetes host from its fields: its hostname, a string that must be
/// there; its API port, 6443 where missing, else an integer from 1 to 65535; its cluster
/// and CA certificate, each missing, `null` or a string; and its groups, none where
/// missing, else a list of strings.
pub open spec fn kube_host_fields(
    hostname: Option<JsonValue>,
    api_port: Option<JsonValue>,
    kube_cluster: Option<JsonValue>,
    host_groups: Option<JsonValue>,
    ca_cert: Option<JsonValue>,
) -> Option<(Seq<char>, int, Option<Seq<char>>, Seq<Seq<char>>, Option<Seq<char>>)> {
    match (
        hostname,
        overlay_required_number(api_port, KUBE_PORT_DEFAULT as int, 65535, true),
        overlay_text(kube_cluster, None),
        text_list_setting(host_groups),
        overlay_text(ca_cert, None),
    ) {
        (Some(JsonValue::Str(h)), Some(p), Some(k), Some(g), Some(c)) => Some((h@, p, k, g, c)),
        _ => None,
    }
}

/// A Kubernetes host written as an object: the fields `hostname`, `api_port`,
/// `kube_cluster`, `host_groups` and `ca_cert`; other fields are ignored.
pub open spec fn kube_host_settings(entries: Seq<(String, JsonValue)>) -> Option<(Seq<char>, int, Option<Seq<char>>, Seq<Seq<char>>, Option<Seq<char>>)> {
    kube_host_fields(
        lookup(entries, "hostname"@),
        lookup(entries, "api_port"@),
        lookup(entries, "kube_cluster"@),
        lookup(entries, "host_groups"@),
        lookup(entries, "ca_cert"@),
    )
}

/// A Kubernetes host written as a list of its fields in order: the hostname, the API port
/// and the cluster must be there; the groups and the CA certificate may be left off the end;
/// no more than these five may be given.
pub open spec fn kube_host_items(items: Seq<JsonValue>) -> Option<(Seq<char>, int, Option<Seq<char>>, Seq<Seq<char>>, Option<Seq<char>>)> {
    if 3 <= items.len() <= 5 {
        kube_host_fields(item(items, 0), item(items, 1), item(items, 2), item(items, 3), item(items, 4))
    } else {
        None
    }
}

fn kube_host_from(
    hostname: Option<&JsonValue>,
    api_port: Option<&JsonValue>,
    kube_cluster: Option<&JsonValue>,
    host_groups: Option<&JsonValue>,
    ca_cert: Option<&JsonValue>,
) -> (r: Option<KubeHost>)
    ensures
        match kube_host_fields(deref_opt(hostname), deref_opt(api_port), deref_opt(kube_cluster), deref_opt(host_groups), deref_opt(ca_cert)) {
            Some((h, p, k, g, c)) => r matches Some(x) && x.hostname@ == h && x.api_port == p
                && opt_text(x.kube_cluster) == k && views(x.host_groups@) == g && opt_text(x.ca_cert) == c,
            None => r is None,
        },
{
    let hostname = match hostname {
        Some(JsonValue::Str(h)) => h.clone(),
        _ => {
            return None;
        },
    };
    let port: u16 = match api_port {
        None => KUBE_PORT_DEFAULT,
        Some(v) => match unsigned_value(v) {
            Some(n) => if 1 <= n && n <= 65535 {
                n as u16
            } else {
                return None;
            },
            None => {
                return None;
            },
        },
    };
    let kube_cluster = match optional_text(kube_cluster) {
        Some(k) => k,
        None => {
            return None;
        },
    };
    let host_groups = match host_groups {
        None => {
            let v: Vec<String> = Vec::new();
            proof {
                assert(views(v@) =~= Seq::<Seq<char>>::empty());
            }
            v
        },
        Some(JsonValue::Array(items)) => match text_list(items) {
            Some(v) => v,
            None => {
                return None;
            },
        },
        Some(_) => {
            return None;
        },
    };
    let ca_cert = match optional_text(ca_cert) {
        Some(c) => c,
        None => {
            return None;
        },
    };
    Some(KubeHost { hostname, api_port: port, kube_cluster, host_groups, ca_cert })
}

fn optional_text(field: Option<&JsonValue>) -> (r: Option<Option<String>>)
    ensures
        match overlay_text(deref_opt(field), None) {
            Some(o) => r matches Some(x) && opt_text(x) == o,
            None => r is None,
        },
{
    match field {
        None => Some(None),
        Some(JsonValue::Null) => Some(None),
        Some(JsonValue::Str(s)) => Some(Some(s.clone())),
        Some(_) => None,
    }
}

/// The texts of a JSON list whose items are all strings.
pub open spec fn text_items(items: Seq<JsonValue>) -> Option<Seq<Seq<char>>>
    decreases items.len(),
{
    if items.len() == 0 {
        Some(Seq::empty())
    } else {
        match (text_items(items.drop_last()), as_text(items.last())) {
            (Some(a), Some(t)) => Some(a.push(t)),
            _ => None,
        }
    }
}

/// How a field gives a list of texts: missing gives none; a list of strings gives them;
/// anything else is refused (`None`).
pub open spec fn text_list_setting(field: Option<JsonValue>) -> Option<Seq<Seq<char>>> {
    match field {
        None => Some(Seq::empty()),
        Some(JsonValue::Array(items)) => text_items(items@),
        Some(_) => None,
    }
}

fn text_list(items: &Vec<JsonValue>) -> (r: Option<Vec<String>>)
    ensures
        match text_items(items@) {
            Some(t) => r matches Some(v) && views(v@) == t,
            None => r is None,
        },
{
    let mut out: Vec<String> = Vec::new();
    let mut i: usize = 0;
    while i < items.len()
        invariant
            i <= items@.len(),
            text_items(items@.take(i as int)) == Some(views(out@)),
        decreases items@.len() - i,
    {
        proof {
            assert(items@.take(i + 1).drop_last() =~= items@.take(i as int));
            assert(items@.take(i + 1).last() == items@[i as int]);
        }
        match &items[i] {
            JsonValue::Str(s) => {
                let t = s.clone();
                proof {
                    assert(views(out@.push(t)) =~= views(out@).push(t@));
                }
                out.push(t);
            },
            _ => {
                proof {
                    lemma_text_items_prefix(items@, i as int + 1);
                }
                return None;
            },
        }
        i += 1;
    }
    proof {
        assert(items@.take(i as int) =~= items@);
    }
    Some(out)
}

proof fn lemma_text_items_prefix(items: Seq<JsonValue>, k: int)
    requires
        0 <= k <= items.len(),
        text_items(items.take(k)) is None,
    ensures
        text_items(items) is None,
    decreases items.len() - k,
{
    if k < items.len() {
        assert(items.take(k + 1).drop_last() =~= items.take(k));
        lemma_text_items_prefix(items, k + 1);
    } else {
        assert(items.take(k) =~= items);
    }
}

/// Used as part of local-only service checks
#[derive(Debug)]
pub struct FakeHost {
    /// Services on this host
    pub services: Vec<String>,
}

impl Default for FakeHost {
    fn default() -> (r: Self)
        ensures
            r.services@.len() == 0,
    {
        FakeHost { services: Vec::new() }
    }
}

impl FakeHost {
    /// A fake host is made the same whatever its configuration: with no services.
    pub fn try_from_config(_config: &JsonValue) -> (r: Result<FakeHost, MaremmaError>)
        ensures
            r matches Ok(h) && h.services@.len() == 0,
    {
        Ok(FakeHost::default())
    }

    /// The Maremma host itself is always up.
    pub fn check_up(&self) -> (r: Result<bool, MaremmaError>)
        ensures
            r == Ok::<bool, MaremmaError>(true),
    {
        Ok(true)
    }
}

/// The default timeout
pub const DEFAULT_SSH_TIMEOUT_SECONDS: u16 = 30;

/// The default SSH port
pub const DEFAULT_SSH_PORT: u16 = 22;

/// The SSH port where none is set: 22.
pub fn default_ssh_port() -> (r: u16)
    ensures
        r == DEFAULT_SSH_PORT,
        r != 0,
{
    DEFAULT_SSH_PORT
}

/// The connection timeout where none is set: 30 seconds.
pub fn default_ssh_timeout_seconds() -> (r: u16)
    ensures
        r == DEFAULT_SSH_TIMEOUT_SECONDS,
{
    DEFAULT_SSH_TIMEOUT_SECONDS
}

/// An SSH-connected host
#[derive(Debug)]
pub struct SshHost {
    /// The hostname
    pub hostname: String,
    /// Defaults to [DEFAULT_SSH_PORT] (22); never zero
    pub port: Option<u16>,
    /// Defaults to [DEFAULT_SSH_TIMEOUT_SECONDS]
    pub timeout_seconds: u16,
    /// If you're not just connecting as "you"
    pub remote_user: Option<String>,
    /// Groups that this host is part of
    pub host_groups: Vec<String>,
    /// If this host is disabled
    pub disabled: bool,
    /// The last time we checked this host, in milliseconds since the Unix epoch
    pub last_check: Option<i64>,
}

impl SshHost {
    /// Create a new SshHost from a hostname; every other field takes its type's default,
    /// so the timeout is zero until set.
    pub fn from_hostname(hostname: &str) -> (r: Self)
        ensures
            r.hostname@ == hostname@,
            r.port is None,
            r.timeout_seconds == 0,
            r.remote_user is None,
            r.host_groups@.len() == 0,
            !r.disabled,
            r.last_check is None,
    {
        SshHost {
            hostname: hostname.to_owned(),
            port: None,
            timeout_seconds: 0,
            remote_user: None,
            host_groups: Vec::new(),
            disabled: false,
            last_check: None,
        }
    }

    /// Update the timeout
    pub fn with_timeout(self, timeout_seconds: u16) -> (r: Self)
        ensures
            r.timeout_seconds == timeout_seconds,
            r.hostname == self.hostname,
            r.port == self.port,
            r.remote_user == self.remote_user,
            r.host_groups == self.host_groups,
            r.disabled == self.disabled,
            r.last_check == self.last_check,
    {
        SshHost { timeout_seconds, ..self }
    }

    /// The address to connect to: the hostname and the port, or 22.
    pub fn connect_address(&self) -> (r: String)
        ensures
            r@ == self.hostname@ + ":"@ + nat_to_decimal(
                match self.port {
                    Some(p) => p as nat,
                    None => DEFAULT_SSH_PORT as nat,
                },
            ),
    {
        let mut t = String::new();
        push_str(&mut t, self.hostname.as_str());
        push_str(&mut t, ":");
        let p: u16 = match self.port {
            Some(p) => p,
            None => default_ssh_port(),
        };
        push_decimal(&mut t, p as u128);
        t
    }
}

} // verus!
