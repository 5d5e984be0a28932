//! Configuration: the defaults, the checks made when a configuration is loaded, and what
//! is read from it.

use vstd::prelude::*;
use crate::errors::MaremmaError;
use crate::host::{Host, HostCheck, FakeHost};
use crate::services::Service;
use crate::text::{push_str, push_decimal, nat_to_decimal, str_eq, views};

verus! {

/// The name of the host that local checks run on
pub const LOCAL_SERVICE_HOST_NAME: &'static str = "Maremma Local Checks";

/// Default location for the static resources
pub const WEB_SERVER_DEFAULT_STATIC_PATH: &'static str = "./static";

/// The database file where none is set: `maremma.sqlite`.
pub fn default_database_file() -> (r: String)
    ensures
        r@ == "maremma.sqlite"@,
{
    "maremma.sqlite".to_owned()
}

/// The listen address where none is set: `127.0.0.1`.
pub fn default_listen_address() -> (r: String)
    ensures
        r@ == "127.0.0.1"@,
{
    "127.0.0.1".to_owned()
}

/// The number of CPUs this process may use, from `num_cpus::get`. It depends on the
/// machine, so nothing is promised of it.
#[verifier::external_body]
fn cpu_count() -> (r: usize) {
    num_cpus::get()
}

/// How many checks may run at once on a machine with `cpus` CPUs: two fewer than the
/// CPUs, but at least one.
pub fn max_concurrent_for_cpus(cpus: usize) -> (r: usize)
    ensures
        r == (if cpus >= 3 {
            cpus - 2
        } else {
            1
        }),
        r >= 1,
{
    let spare = cpus.saturating_sub(2);
    if spare > 1 {
        spare
    } else {
        1
    }
}

/// How many checks may run at once on this machine; see [`max_concurrent_for_cpus`].
pub fn default_max_concurrent_checks() -> (r: usize)
    ensures
        r >= 1,
{
    max_concurrent_for_cpus(cpu_count())
}

/// The settings as read from the configuration file, before they are checked.
#[derive(Debug)]
pub struct ConfigurationParser {
    /// Path to the database file (or `:memory:` for in-memory)
    pub database_file: String,
    /// The path to the web server's static files
    pub static_path: Option<String>,
    /// The listen address, eg `0.0.0.0` or `127.0.0.1`
    pub listen_address: String,
    /// Defaults to 8888; never zero
    pub listen_port: Option<u16>,
    /// Target host configuration, by name
    pub hosts: Vec<(String, Host)>,
    /// Services to run locally
    pub local_services: FakeHost,
    /// Service configuration by name, each read as a service or refused with the reason
    pub services: Vec<(String, Result<Service, String>)>,
    /// The frontend URL ie `https://maremma.example.com` used for things like OIDC
    pub frontend_url: Option<String>,
    /// OIDC issuer (url)
    pub oidc_issuer: Option<String>,
    /// OIDC client_id
    pub oidc_client_id: Option<String>,
    /// OIDC client_secret
    pub oidc_client_secret: Option<String>,
    /// The path to the TLS certificate
    pub cert_file: String,
    /// The path to the TLS key
    pub cert_key: String,
    /// The maximum concurrent checks we'll run at one time
    pub max_concurrent_checks: usize,
}

/// The settings the environment may supply instead of the file: `MAREMMA_FRONTEND_URL`,
/// `MAREMMA_OIDC_ISSUER` and `MAREMMA_OIDC_CLIENT_ID`, `None` where unset.
#[derive(Debug)]
pub struct ConfigEnv {
    /// `MAREMMA_FRONTEND_URL`
    pub frontend_url: Option<String>,
    /// `MAREMMA_OIDC_ISSUER`
    pub oidc_issuer: Option<String>,
    /// `MAREMMA_OIDC_CLIENT_ID`
    pub oidc_client_id: Option<String>,
}

/// The result of parsing the configuration file
#[derive(Debug)]
pub struct Configuration {
    /// Path to the database file (or `:memory:` for in-memory)
    pub database_file: String,
    /// The path to the web server's static files
    pub static_path: Option<String>,
    /// The listen address, eg `0.0.0.0` or `127.0.0.1`
    pub listen_address: String,
    /// Defaults to 8888; never zero
    pub listen_port: Option<u16>,
    /// Host configuration, by name
    pub hosts: Vec<(String, Host)>,
    /// Services to run locally
    pub local_services: FakeHost,
    /// Service configuration, by name
    pub services: Vec<(String, Service)>,
    /// The frontend URL ie `https://maremma.example.com` used for things like OIDC
    pub frontend_url: String,
    /// OIDC issuer (url)
    pub oidc_issuer: String,
    /// OIDC client_id
    pub oidc_client_id: String,
    /// OIDC client_secret
    pub oidc_client_secret: Option<String>,
    /// the TLS certificate matter
    pub cert_file: String,
    /// the TLS certificate matter
    pub cert_key: String,
    /// The maximum concurrent checks we'll run at one time
    pub max_concurrent_checks: usize,
}

/// The first service that could not be read, if one could not.
pub open spec fn first_bad_service(services: Seq<(String, Result<Service, String>)>) -> Option<int> {
    if exists|i: int| 0 <= i < services.len() && services[i].1 is Err {
        Some(choose|i: int| 0 <= i < services.len() && services[i].1 is Err && forall|j: int|
            0 <= j < i ==> services[j].1 is Ok)
    } else {
        None
    }
}

/// Are the names of some named entries all different, as the keys of a map are?
pub open spec fn names_distinct<T>(entries: Seq<(String, T)>) -> bool {
    forall|i: int, j: int| 0 <= i < j < entries.len() ==> entries[i].0@ != entries[j].0@
}

/// A setting from the file, or else from the environment.
pub open spec fn file_or_env(file: Option<String>, env: Option<String>) -> Option<Seq<char>> {
    match file {
        Some(s) => Some(s@),
        None => match env {
            Some(s) => Some(s@),
            None => None,
        },
    }
}

fn take_setting(file: Option<String>, env: Option<String>) -> (r: Option<String>)
    ensures
        crate::json::opt_text(r) == file_or_env(file, env),
{
    match file {
        Some(s) => Some(s),
        None => env,
    }
}

impl ConfigurationParser {
    /// The static path whose existence is checked: the one set, or `./static`.
    pub fn static_path_to_check(&self) -> (r: String)
        ensures
            r@ == match self.static_path {
                Some(p) => p@,
                None => WEB_SERVER_DEFAULT_STATIC_PATH@,
            },
    {
        match &self.static_path {
            Some(p) => p.clone(),
            None => WEB_SERVER_DEFAULT_STATIC_PATH.to_owned(),
        }
    }

    /// Adds the host local checks run on when there are local services, replacing a host
    /// of the same name; it has no host check.
    pub fn add_local_services_host(&mut self)
        ensures
            old(self).local_services.services@.len() == 0 ==> final(self).hosts@ == old(self).hosts@,
            old(self).local_services.services@.len() > 0 ==> {
                &&& exists|i: int|
                    0 <= i < final(self).hosts@.len() && #[trigger] final(self).hosts@[i].0@
                        == LOCAL_SERVICE_HOST_NAME@ && final(self).hosts@[i].1.check == HostCheck::NoCheck
                        && (final(self).hosts@[i].1.hostname matches Some(h) && h@ == LOCAL_SERVICE_HOST_NAME@)
                &&& forall|i: int|
                    0 <= i < old(self).hosts@.len() && old(self).hosts@[i].0@ != LOCAL_SERVICE_HOST_NAME@
                        ==> final(self).hosts@.contains(#[trigger] old(self).hosts@[i])
            },
            final(self).local_services == old(self).local_services,
            names_distinct(old(self).hosts@) ==> names_distinct(final(self).hosts@),
    {
        if self.local_services.services.len() == 0 {
            return;
        }
        let host = Host::new(LOCAL_SERVICE_HOST_NAME.to_owned(), HostCheck::NoCheck);
        let ghost before = self.hosts@;
        let found = find_host(&self.hosts, LOCAL_SERVICE_HOST_NAME);
        let i: usize = match found {
            Some(i) => i,
            None => self.hosts.len(),
        };
        if i < self.hosts.len() {
            let _old = self.hosts.remove(i);
            self.hosts.insert(i, (LOCAL_SERVICE_HOST_NAME.to_owned(), host));
            proof {
                assert(self.hosts@[i as int].0@ == LOCAL_SERVICE_HOST_NAME@);
                assert forall|a: int| 0 <= a < self.hosts@.len() implies self.hosts@[a].0@ == before[a].0@ by {}
                assert forall|k: int|
                    0 <= k < before.len() && before[k].0@ != LOCAL_SERVICE_HOST_NAME@ implies self.hosts@.contains(
                    #[trigger] before[k],
                ) by {
                    assert(k != i);
                    assert(self.hosts@[k] == before[k]);
                }
            }
        } else {
            self.hosts.push((LOCAL_SERVICE_HOST_NAME.to_owned(), host));
            proof {
                let last = self.hosts@.len() - 1;
                assert(self.hosts@[last].0@ == LOCAL_SERVICE_HOST_NAME@);
                assert forall|a: int| 0 <= a < last implies self.hosts@[a] == before[a] by {}
                assert forall|k: int|
                    0 <= k < before.len() && before[k].0@ != LOCAL_SERVICE_HOST_NAME@ implies self.hosts@.contains(
                    #[trigger] before[k],
                ) by {
                    assert(self.hosts@[k] == before[k]);
                }
            }
        }
    }
}

fn find_host(hosts: &Vec<(String, Host)>, name: &str) -> (r: Option<usize>)
    ensures
        r matches Some(i) ==> i < hosts@.len() && hosts@[i as int].0@ == name@,
        r is None ==> forall|j: int| 0 <= j < hosts@.len() ==> hosts@[j].0@ != name@,
{
    let mut i: usize = 0;
    while i < hosts.len()
        invariant
            i <= hosts@.len(),
            forall|j: int| 0 <= j < i ==> hosts@[j].0@ != name@,
        decreases hosts@.len() - i,
    {
        if str_eq(hosts[i].0.as_str(), name) {
            return Some(i);
        }
        i += 1;
    }
    None
}

impl Configuration {
    /// Checks the settings read from the file and completes them. A service that could not
    /// be read is refused first (the first such, naming it); then a static path that does
    /// not exist (`static_path_exists` says whether the path of
    /// [`ConfigurationParser::static_path_to_check`] does); then a missing frontend URL, OIDC
    /// issuer or OIDC client ID, each taken from the file or else from the environment.
    pub fn try_from_parser(value: ConfigurationParser, env: ConfigEnv, static_path_exists: bool) -> (r: Result<Configuration, MaremmaError>)
        requires
            names_distinct(value.hosts@),
            names_distinct(value.services@),
        ensures
            first_bad_service(value.services@) matches Some(i) ==> (r matches Err(MaremmaError::Configuration(m))
                && m@ == "Failed to parse service "@ + value.services@[i].0@ + ": "@
                + value.services@[i].1->Err_0@),
            first_bad_service(value.services@) is None && !static_path_exists ==> (r matches Err(
                MaremmaError::Configuration(m),
            ) && m@ == "Static path does not exist"@),
            first_bad_service(value.services@) is None && static_path_exists && file_or_env(
                value.frontend_url,
                env.frontend_url,
            ) is None ==> (r matches Err(MaremmaError::Configuration(m)) && m@ == "Frontend URL not set"@),
            first_bad_service(value.services@) is None && static_path_exists && file_or_env(
                value.frontend_url,
                env.frontend_url,
            ) is Some && file_or_env(value.oidc_issuer, env.oidc_issuer) is None ==> (r matches Err(
                MaremmaError::Configuration(m),
            ) && m@ == "OIDC Issuer not set"@),
            first_bad_service(value.services@) is None && static_path_exists && file_or_env(
                value.frontend_url,
                env.frontend_url,
            ) is Some && file_or_env(value.oidc_issuer, env.oidc_issuer) is Some && file_or_env(
                value.oidc_client_id,
                env.oidc_client_id,
            ) is None ==> (r matches Err(MaremmaError::Configuration(m)) && m@ == "OIDC Client ID not set"@),
            first_bad_service(value.services@) is None && static_path_exists && file_or_env(
                value.frontend_url,
                env.frontend_url,
            ) is Some && file_or_env(value.oidc_issuer, env.oidc_issuer) is Some && file_or_env(
                value.oidc_client_id,
                env.oidc_client_id,
            ) is Some ==> r is Ok,
            r matches Ok(c) ==> {
                &&& names_distinct(c.hosts@)
                &&& names_distinct(c.services@)
                &&& first_bad_service(value.services@) is None
                &&& static_path_exists
                &&& Some(c.frontend_url@) == file_or_env(value.frontend_url, env.frontend_url)
                &&& Some(c.oidc_issuer@) == file_or_env(value.oidc_issuer, env.oidc_issuer)
                &&& Some(c.oidc_client_id@) == file_or_env(value.oidc_client_id, env.oidc_client_id)
                &&& c.services@.len() == value.services@.len()
                &&& forall|i: int|
                    0 <= i < c.services@.len() ==> #[trigger] c.services@[i].0 == value.services@[i].0
                        && value.services@[i].1 == Ok::<Service, String>(c.services@[i].1)
                &&& c.database_file == value.database_file
                &&& c.listen_address == value.listen_address
                &&& c.listen_port == value.listen_port
                &&& c.hosts == value.hosts
                &&& c.oidc_client_secret == value.oidc_client_secret
                &&& c.cert_file == value.cert_file
                &&& c.cert_key == value.cert_key
                &&& c.max_concurrent_checks == value.max_concurrent_checks
                &&& c.static_path matches Some(p) && p@ == match value.static_path {
                    Some(q) => q@,
                    None => WEB_SERVER_DEFAULT_STATIC_PATH@,
                }
            },
    {
        let static_path = value.static_path_to_check();
        let ConfigurationParser {
            database_file,
            static_path: _,
            listen_address,
            listen_port,
            hosts,
            local_services,
            mut services,
            frontend_url,
            oidc_issuer,
            oidc_client_id,
            oidc_client_secret,
            cert_file,
            cert_key,
            max_concurrent_checks,
        } = value;
        let ghost all = services@;
        let count = services.len();
        assert(all.len() == count);
        let mut parsed: Vec<(String, Service)> = Vec::new();
        let mut k: usize = 0;
        while services.len() > 0
            invariant
                all == value.services@,
                all.len() <= usize::MAX,
                k + services@.len() == all.len(),
                services@ == all.skip(k as int),
                parsed@.len() == k,
                forall|j: int| 0 <= j < k ==> all[j].1 is Ok,
                forall|j: int|
                    0 <= j < k ==> #[trigger] parsed@[j].0 == all[j].0 && all[j].1 == Ok::<
                        Service,
                        String,
                    >(parsed@[j].1),
            decreases services@.len(),
        {
            let ghost before_remove = services@;
            let (name, entry) = services.remove(0);
            proof {
                assert(all.skip(k as int)[0] == all[k as int]);
                assert(services@ =~= all.skip(k + 1));
                assert(name == all[k as int].0);
                assert(entry == all[k as int].1);
            }
            match entry {
                Ok(service) => {
                    let ghost before_push = parsed@;
                    parsed.push((name, service));
                    proof {
                        assert(parsed@[k as int] == (name, service));
                        assert forall|j: int| 0 <= j < k + 1 implies #[trigger] parsed@[j].0 == all[j].0
                            && all[j].1 == Ok::<Service, String>(parsed@[j].1) by {
                            if j < k {
                                assert(parsed@[j] == before_push[j]);
                            }
                        }
                    }
                    k += 1;
                },
                Err(e) => {
                    proof {
                        assert(first_bad_service(all) == Some(k as int)) by {
                            assert(all[k as int].1 is Err);
                            let c = choose|i: int| 0 <= i < all.len() && all[i].1 is Err && forall|j: int|
                                0 <= j < i ==> all[j].1 is Ok;
                            if c < k {
                            } else if c > k {
                                assert(all[k as int].1 is Ok);
                            }
                        }
                    }
                    let mut m = String::new();
                    push_str(&mut m, "Failed to parse service ");
                    push_str(&mut m, name.as_str());
                    push_str(&mut m, ": ");
                    push_str(&mut m, e.as_str());
                    return Err(MaremmaError::Configuration(m));
                },
            }
        }
        proof {
            assert(first_bad_service(all) is None);
        }
        if !static_path_exists {
            return Err(MaremmaError::Configuration("Static path does not exist".to_owned()));
        }
        let frontend_url = match take_setting(frontend_url, env.frontend_url) {
            Some(v) => v,
            None => {
                return Err(MaremmaError::Configuration("Frontend URL not set".to_owned()));
            },
        };
        let oidc_issuer = match take_setting(oidc_issuer, env.oidc_issuer) {
            Some(v) => v,
            None => {
                return Err(MaremmaError::Configuration("OIDC Issuer not set".to_owned()));
            },
        };
        let oidc_client_id = match take_setting(oidc_client_id, env.oidc_client_id) {
            Some(v) => v,
            None => {
                return Err(MaremmaError::Configuration("OIDC Client ID not set".to_owned()));
            },
        };
        Ok(Configuration {
            database_file,
            static_path: Some(static_path),
            listen_address,
            listen_port,
            hosts,
            local_services,
            services: parsed,
            frontend_url,
            oidc_issuer,
            oidc_client_id,
            oidc_client_secret,
            cert_file,
            cert_key,
            max_concurrent_checks,
        })
    }

    /// The listen address and port, as in `127.0.0.1:8888`; the port is 8888 unless set.
    pub fn listen_addr(&self) -> (r: String)
        ensures
            r@ == self.listen_address@ + ":"@ + nat_to_decimal(
                match self.listen_port {
                    Some(p) => p as nat,
                    None => crate::constants::WEB_SERVER_DEFAULT_PORT as nat,
                },
            ),
    {
        let mut t = String::new();
        push_str(&mut t, self.listen_address.as_str());
        push_str(&mut t, ":");
        let p: u16 = match self.listen_port {
            Some(p) => p,
            None => crate::constants::web_server_default_port(),
        };
        push_decimal(&mut t, p as u128);
        t
    }

    /// Every group named by a host or a service, each once.
    pub fn groups(&self) -> (r: Vec<String>)
        ensures
            views(r@).no_duplicates(),
            forall|g: Seq<char>| #[trigger] views(r@).contains(g) <==> config_group(self, g),
    {
        let mut out: Vec<String> = Vec::new();
        let mut i: usize = 0;
        while i < self.hosts.len()
            invariant
                i <= self.hosts@.len(),
                views(out@).no_duplicates(),
                forall|g: Seq<char>| #[trigger] views(out@).contains(g) <==> exists|a: int, b: int|
                    0 <= a < i && 0 <= b < self.hosts@[a].1.host_groups@.len() && #[trigger] self.hosts@[a].1.host_groups@[b]@ == g,
            decreases self.hosts@.len() - i,
        {
            let groups = &self.hosts[i].1.host_groups;
            let mut j: usize = 0;
            while j < groups.len()
                invariant
                    i < self.hosts@.len(),
                    groups == self.hosts@[i as int].1.host_groups,
                    j <= groups@.len(),
                    views(out@).no_duplicates(),
                    forall|g: Seq<char>| #[trigger] views(out@).contains(g) <==> (exists|a: int, b: int|
                        0 <= a < i && 0 <= b < self.hosts@[a].1.host_groups@.len() && #[trigger] self.hosts@[a].1.host_groups@[b]@ == g)
                        || (exists|b: int| 0 <= b < j && #[trigger] groups@[b]@ == g),
                decreases groups@.len() - j,
            {
                add_unique(&mut out, &groups[j]);
                proof {
                    assert forall|g: Seq<char>| #[trigger] views(out@).contains(g) <==> (exists|a: int, b: int|
                        0 <= a < i && 0 <= b < self.hosts@[a].1.host_groups@.len() && #[trigger] self.hosts@[a].1.host_groups@[b]@ == g)
                        || (exists|b: int| 0 <= b < j + 1 && #[trigger] groups@[b]@ == g) by {
                        if g == groups@[j as int]@ {
                            assert(groups@[j as int]@ == g);
                        }
                    }
                }
                j += 1;
            }
            proof {
                assert forall|g: Seq<char>| #[trigger] views(out@).contains(g) <==> exists|a: int, b: int|
                    0 <= a < i + 1 && 0 <= b < self.hosts@[a].1.host_groups@.len() && #[trigger] self.hosts@[a].1.host_groups@[b]@ == g by {
                    if exists|b: int| 0 <= b < j && #[trigger] groups@[b]@ == g {
                        let b = choose|b: int| 0 <= b < j && #[trigger] groups@[b]@ == g;
                        assert(self.hosts@[i as int].1.host_groups@[b]@ == g);
                    }
                    if exists|a: int, b: int|
                        0 <= a < i + 1 && 0 <= b < self.hosts@[a].1.host_groups@.len() && #[trigger] self.hosts@[a].1.host_groups@[b]@ == g {
                        let (a, b) = choose|a: int, b: int|
                            0 <= a < i + 1 && 0 <= b < self.hosts@[a].1.host_groups@.len() && #[trigger] self.hosts@[a].1.host_groups@[b]@ == g;
                        if a == i {
                            assert(groups@[b]@ == g);
                        }
                    }
                }
            }
            i += 1;
        }
        let mut s: usize = 0;
        while s < self.services.len()
            invariant
                i == self.hosts@.len(),
                s <= self.services@.len(),
                views(out@).no_duplicates(),
                forall|g: Seq<char>| #[trigger] views(out@).contains(g) <==> (exists|a: int, b: int|
                    0 <= a < i && 0 <= b < self.hosts@[a].1.host_groups@.len() && #[trigger] self.hosts@[a].1.host_groups@[b]@ == g)
                    || (exists|a: int, b: int|
                    0 <= a < s && 0 <= b < self.services@[a].1.host_groups@.len() && #[trigger] self.services@[a].1.host_groups@[b]@ == g),
            decreases self.services@.len() - s,
        {
            let groups = &self.services[s].1.host_groups;
            let mut j: usize = 0;
            while j < groups.len()
                invariant
                    i == self.hosts@.len(),
                    s < self.services@.len(),
                    groups == self.services@[s as int].1.host_groups,
                    j <= groups@.len(),
                    views(out@).no_duplicates(),
                    forall|g: Seq<char>| #[trigger] views(out@).contains(g) <==> (exists|a: int, b: int|
                        0 <= a < i && 0 <= b < self.hosts@[a].1.host_groups@.len() && #[trigger] self.hosts@[a].1.host_groups@[b]@ == g)
                        || (exists|a: int, b: int|
                        0 <= a < s && 0 <= b < self.services@[a].1.host_groups@.len() && #[trigger] self.services@[a].1.host_groups@[b]@ == g)
                        || (exists|b: int| 0 <= b < j && #[trigger] groups@[b]@ == g),
                decreases groups@.len() - j,
            {
                add_unique(&mut out, &groups[j]);
                proof {
                    assert forall|g: Seq<char>| #[trigger] views(out@).contains(g) <==> (exists|a: int, b: int|
                        0 <= a < i && 0 <= b < self.hosts@[a].1.host_groups@.len() && #[trigger] self.hosts@[a].1.host_groups@[b]@ == g)
                        || (exists|a: int, b: int|
                        0 <= a < s && 0 <= b < self.services@[a].1.host_groups@.len() && #[trigger] self.services@[a].1.host_groups@[b]@ == g)
                        || (exists|b: int| 0 <= b < j + 1 && #[trigger] groups@[b]@ == g) by {
                        if g == groups@[j as int]@ {
                            assert(groups@[j as int]@ == g);
                        }
                    }
                }
                j += 1;
            }
            proof {
                assert forall|g: Seq<char>| #[trigger] views(out@).contains(g) <==> (exists|a: int, b: int|
                    0 <= a < i && 0 <= b < self.hosts@[a].1.host_groups@.len() && #[trigger] self.hosts@[a].1.host_groups@[b]@ == g)
                    || (exists|a: int, b: int|
                    0 <= a < s + 1 && 0 <= b < self.services@[a].1.host_groups@.len() && #[trigger] self.services@[a].1.host_groups@[b]@ == g) by {
                    if exists|b: int| 0 <= b < j && #[trigger] groups@[b]@ == g {
                        let b = choose|b: int| 0 <= b < j && #[trigger] groups@[b]@ == g;
                        assert(self.services@[s as int].1.host_groups@[b]@ == g);
                    }
                    if exists|a: int, b: int|
                        0 <= a < s + 1 && 0 <= b < self.services@[a].1.host_groups@.len() && #[trigger] self.services@[a].1.host_groups@[b]@ == g {
                        let (a, b) = choose|a: int, b: int|
                            0 <= a < s + 1 && 0 <= b < self.services@[a].1.host_groups@.len() && #[trigger] self.services@[a].1.host_groups@[b]@ == g;
                        if a == s {
                            assert(groups@[b]@ == g);
                        }
                    }
                }
            }
            s += 1;
        }
        out
    }
}

/// Does a host or a service of the configuration name the group `g`?
pub open spec fn config_group(c: &Configuration, g: Seq<char>) -> bool {
    ||| exists|a: int, b: int|
        0 <= a < c.hosts@.len() && 0 <= b < c.hosts@[a].1.host_groups@.len() && #[trigger] c.hosts@[a].1.host_groups@[b]@ == g
    ||| exists|a: int, b: int|
        0 <= a < c.services@.len() && 0 <= b < c.services@[a].1.host_groups@.len() && #[trigger] c.services@[a].1.host_groups@[b]@ == g
}

fn add_unique(out: &mut Vec<String>, g: &String)
    requires
        views(old(out)@).no_duplicates(),
    ensures
        views(final(out)@).no_duplicates(),
        forall|x: Seq<char>| #[trigger] views(final(out)@).contains(x) <==> (views(old(out)@).contains(x) || x == g@),
{
    let mut i: usize = 0;
    while i < out.len()
        invariant
            i <= out@.len(),
            out@ == old(out)@,
            views(old(out)@).no_duplicates(),
            forall|j: int| 0 <= j < i ==> out@[j]@ != g@,
        decreases out@.len() - i,
    {
        if str_eq(out[i].as_str(), g.as_str()) {
            proof {
                assert(views(out@)[i as int] == g@);
            }
            return;
        }
        i += 1;
    }
    let ghost before = views(out@);
    let c = g.clone();
    out.push(c);
    proof {
        assert(views(out@) =~= before.push(g@));
        assert(!before.contains(g@)) by {
            if before.contains(g@) {
                let k = choose|k: int| 0 <= k < before.len() && before[k] == g@;
                assert(out@[k]@ == g@);
            }
        }
        assert forall|x: Seq<char>| #[trigger] views(out@).contains(x) <==> (before.contains(x) || x == g@) by {
            if views(out@).contains(x) {
                let k = choose|k: int| 0 <= k < views(out@).len() && views(out@)[k] == x;
                if k < before.len() {
                    assert(before[k] == x);
                }
            }
            if x == g@ {
                assert(views(out@)[before.len() as int] == x);
            }
            if before.contains(x) {
                let k = choose|k: int| 0 <= k < before.len() && before[k] == x;
                assert(views(out@)[k] == x);
            }
        }
    }
}

} // verus!
