//! The kinds of service check, and what each of them decides.

pub mod http;
pub mod cli;
pub mod ping;
pub mod ssh;
pub mod tls;
pub mod kubernetes;
pub mod check;

use vstd::prelude::*;
use crate::errors::MaremmaError;
use crate::json::{JsonValue, lookup, insert};
use crate::schedule::CronSchedule;
use crate::text::{str_eq, uuid_string, uuid_text};
use crate::services::cli::CliService;
use crate::services::http::{HttpService, status_code_in_range};
use crate::services::ping::PingService;
use crate::services::ssh::SshService;
use crate::services::tls::TlsService;

verus! {

/// The type of service
#[derive(Clone, Copy, Debug, PartialEq, Eq, Structural)]
pub enum ServiceType {
    /// CLI service
    Cli,
    /// SSH service
    Ssh,
    /// Ping service
    Ping,
    /// HTTP service
    Http,
    /// TLS service
    Tls,
}

/// How a service type is shown.
pub open spec fn service_type_label(t: ServiceType) -> Seq<char> {
    match t {
        ServiceType::Cli => "CLI"@,
        ServiceType::Ssh => "SSH"@,
        ServiceType::Ping => "Ping"@,
        ServiceType::Http => "HTTP"@,
        ServiceType::Tls => "TLS"@,
    }
}

/// How a service type is written in the configuration.
pub open spec fn service_type_key(t: ServiceType) -> Seq<char> {
    match t {
        ServiceType::Cli => "cli"@,
        ServiceType::Ssh => "ssh"@,
        ServiceType::Ping => "ping"@,
        ServiceType::Http => "http"@,
        ServiceType::Tls => "tls"@,
    }
}

/// The service type a configuration names, if it names one.
pub open spec fn service_type_of_key(s: Seq<char>) -> Option<ServiceType> {
    if s == "cli"@ {
        Some(ServiceType::Cli)
    } else if s == "ssh"@ {
        Some(ServiceType::Ssh)
    } else if s == "ping"@ {
        Some(ServiceType::Ping)
    } else if s == "http"@ {
        Some(ServiceType::Http)
    } else if s == "tls"@ {
        Some(ServiceType::Tls)
    } else {
        None
    }
}

impl ServiceType {
    /// How the service type is shown: `CLI`, `SSH`, `Ping`, `HTTP` or `TLS`.
    pub fn to_string(&self) -> (r: String)
        ensures
            r@ == service_type_label(*self),
    {
        match self {
            ServiceType::Cli => "CLI".to_owned(),
            ServiceType::Ssh => "SSH".to_owned(),
            ServiceType::Ping => "Ping".to_owned(),
            ServiceType::Http => "HTTP".to_owned(),
            ServiceType::Tls => "TLS".to_owned(),
        }
    }

    /// How the service type is written in the configuration: its name in lower case.
    pub fn config_key(&self) -> (r: String)
        ensures
            r@ == service_type_key(*self),
    {
        match self {
            ServiceType::Cli => "cli".to_owned(),
            ServiceType::Ssh => "ssh".to_owned(),
            ServiceType::Ping => "ping".to_owned(),
            ServiceType::Http => "http".to_owned(),
            ServiceType::Tls => "tls".to_owned(),
        }
    }

    /// The service type a configuration names, or `None` for any other text.
    pub fn from_config_key(s: &str) -> (r: Option<ServiceType>)
        ensures
            r == service_type_of_key(s@),
    {
        if str_eq(s, "cli") {
            Some(ServiceType::Cli)
        } else if str_eq(s, "ssh") {
            Some(ServiceType::Ssh)
        } else if str_eq(s, "ping") {
            Some(ServiceType::Ping)
        } else if str_eq(s, "http") {
            Some(ServiceType::Http)
        } else if str_eq(s, "tls") {
            Some(ServiceType::Tls)
        } else {
            None
        }
    }
}

/// Reading back the name a service type is written with gives the same service type.
pub proof fn service_type_key_round_trip(t: ServiceType)
    ensures
        service_type_of_key(service_type_key(t)) == Some(t),
{
    reveal_strlit("cli");
    reveal_strlit("ssh");
    reveal_strlit("ping");
    reveal_strlit("http");
    reveal_strlit("tls");
    assert("ssh"@[0] != "cli"@[0]);
    assert("http"@[0] != "ping"@[0]);
    assert("tls"@[0] != "cli"@[0] && "tls"@[0] != "ssh"@[0]);
}

/// The jitter of a check, in seconds: its setting, or none.
pub fn jitter_value(jitter: Option<u16>) -> (r: u32)
    ensures
        r == jitter_seconds(jitter),
{
    match jitter {
        Some(j) => j as u32,
        None => 0,
    }
}

/// Base service type
#[derive(Debug)]
pub struct Service {
    /// The internal ID of the service
    pub id: u128,
    /// This is pulled from the config file's key
    pub name: Option<String>,
    /// Description of the service
    pub description: Option<String>,
    /// Host groups to apply it to
    pub host_groups: Vec<String>,
    /// What kind of service it is
    pub service_type: ServiceType,
    /// Cron schedule for the service, eg `@hourly`, `* * * * * *` or `0 0 * * *`
    pub cron_schedule: CronSchedule,
    /// Catch-all for the other fields in the config
    pub extra_config: Vec<(String, JsonValue)>,
}

impl Service {
    /// Create a new Service object
    pub fn new(
        id: u128,
        name: Option<String>,
        description: Option<String>,
        host_groups: Vec<String>,
        service_type: ServiceType,
        cron_schedule: CronSchedule,
        extra_config: Vec<(String, JsonValue)>,
    ) -> (r: Self)
        ensures
            r.id == id,
            r.name == name,
            r.description == description,
            r.host_groups == host_groups,
            r.service_type == service_type,
            r.cron_schedule == cron_schedule,
            r.extra_config == extra_config,
    {
        Service { id, name, description, host_groups, service_type, cron_schedule, extra_config }
    }

    /// How the service is named in messages: its name, or its ID written out with hyphens.
    pub fn identifier(&self) -> (r: String)
        ensures
            r@ == match self.name {
                Some(n) => n@,
                None => uuid_text(self.id),
            },
    {
        match &self.name {
            Some(n) => n.clone(),
            None => uuid_string(self.id),
        }
    }
}

/// The settings of a service, by its type.
#[derive(Debug)]
pub enum ServiceConfig {
    /// A command run on the Maremma server
    Cli(CliService),
    /// A command run over SSH
    Ssh(SshService),
    /// Pings
    Ping(PingService),
    /// An HTTP request
    Http(HttpService),
    /// A TLS handshake
    Tls(TlsService),
}

impl ServiceConfig {
    /// The type of service the settings are for.
    pub fn service_type(&self) -> (r: ServiceType)
        ensures
            r == match self {
                ServiceConfig::Cli(_) => ServiceType::Cli,
                ServiceConfig::Ssh(_) => ServiceType::Ssh,
                ServiceConfig::Ping(_) => ServiceType::Ping,
                ServiceConfig::Http(_) => ServiceType::Http,
                ServiceConfig::Tls(_) => ServiceType::Tls,
            },
    {
        match self {
            ServiceConfig::Cli(_) => ServiceType::Cli,
            ServiceConfig::Ssh(_) => ServiceType::Ssh,
            ServiceConfig::Ping(_) => ServiceType::Ping,
            ServiceConfig::Http(_) => ServiceType::Http,
            ServiceConfig::Tls(_) => ServiceType::Tls,
        }
    }

    /// Checks the settings against the rules of their type: an SSH check needs a key or a
    /// password, an HTTP check's expected status code must be one `reqwest` accepts; the
    /// other types accept any settings.
    pub fn validate(&self) -> (r: Result<(), MaremmaError>)
        ensures
            match self {
                ServiceConfig::Ssh(s) => (r is Ok <==> (s.private_key is Some || s.password is Some)),
                ServiceConfig::Http(h) => (r is Ok <==> (h.http_status matches Some(c) ==> status_code_in_range(c))),
                _ => r is Ok,
            },
            r matches Err(e) ==> e is Configuration,
    {
        match self {
            ServiceConfig::Ssh(s) => s.validate(),
            ServiceConfig::Http(h) => h.validate(),
            _ => Ok(()),
        }
    }

    /// The jitter of the check, in seconds.
    pub fn jitter_value(&self) -> (r: u32)
        ensures
            r == match self {
                ServiceConfig::Cli(c) => jitter_seconds(c.jitter),
                ServiceConfig::Ssh(c) => jitter_seconds(c.jitter),
                ServiceConfig::Ping(c) => jitter_seconds(c.jitter),
                ServiceConfig::Http(c) => jitter_seconds(c.jitter),
                ServiceConfig::Tls(c) => jitter_seconds(c.jitter),
            },
    {
        match self {
            ServiceConfig::Cli(c) => jitter_value(c.jitter),
            ServiceConfig::Ssh(c) => jitter_value(c.jitter),
            ServiceConfig::Ping(c) => jitter_value(c.jitter),
            ServiceConfig::Http(c) => jitter_value(c.jitter),
            ServiceConfig::Tls(c) => jitter_value(c.jitter),
        }
    }
}

/// The jitter of a check, in seconds: its setting, or none.
pub open spec fn jitter_seconds(jitter: Option<u16>) -> u32 {
    match jitter {
        Some(j) => j as u32,
        None => 0,
    }
}

/// The settings of a one-shot check: the object given, named `oneshot` and scheduled
/// every minute. Anything but an object is refused.
pub fn oneshot_service_config(value: JsonValue) -> (r: Result<Vec<(String, JsonValue)>, MaremmaError>)
    ensures
        match value {
            JsonValue::Object(entries) => r matches Ok(e) && (lookup(e@, "name"@) matches Some(
                JsonValue::Str(n),
            ) && n@ == "oneshot"@) && (lookup(e@, "cron_schedule"@) matches Some(JsonValue::Str(c))
                && c@ == "* * * * *"@) && forall|k: Seq<char>|
                k != "name"@ && k != "cron_schedule"@ ==> #[trigger] lookup(e@, k) == lookup(entries@, k),
            _ => r matches Err(MaremmaError::Configuration(m)) && m@ == "Service config must be a map of key-value pairs"@,
        },
{
    match value {
        JsonValue::Object(mut entries) => {
            let ghost original = entries@;
            insert(&mut entries, "name", JsonValue::Str("oneshot".to_owned()));
            let ghost named = entries@;
            insert(&mut entries, "cron_schedule", JsonValue::Str("* * * * *".to_owned()));
            proof {
                reveal_strlit("name");
                reveal_strlit("cron_schedule");
                assert("name"@ != "cron_schedule"@) by {
                    assert("name"@.len() != "cron_schedule"@.len());
                }
                assert(lookup(entries@, "name"@) == lookup(named, "name"@));
            }
            Ok(entries)
        },
        _ => Err(
            MaremmaError::Configuration("Service config must be a map of key-value pairs".to_owned()),
        ),
    }
}

/// The schedule of a service stored with the pattern `pattern`; a pattern croner refuses
/// is a cron parse error with its text.
pub fn stored_schedule(pattern: &str) -> (r: Result<CronSchedule, MaremmaError>)
    ensures
        match crate::schedule::cron_parse_result(pattern@) {
            Ok(p) => r matches Ok(c) && c@ == p,
            Err(e) => r matches Err(MaremmaError::CronParseError(m)) && m@ == e,
        },
{
    match CronSchedule::parse(pattern) {
        Ok(c) => Ok(c),
        Err(e) => Err(MaremmaError::CronParseError(e)),
    }
}

} // verus!
