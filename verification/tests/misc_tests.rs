use maremma::actions::{pushover_outcome, pushover_step, Action, PushOver, PushoverPriority, PushoverStep};
use maremma::check_loop::{record_check_result, CheckLoop, CheckResult, ReportLevel};
use maremma::config::{
    default_database_file, default_listen_address, default_max_concurrent_checks, max_concurrent_for_cpus, ConfigEnv,
    Configuration, ConfigurationParser,
};
use maremma::db::{get_connect_string, FullServiceCheck, GroupToHosts, HostToGroups};
use maremma::discovery::{has_maremma_annotations, kept_addresses, namespace_ignored, service_ports};
use maremma::errors::MaremmaError;
use maremma::host::{FakeHost, Host, HostCheck};
use maremma::ids::{generate_service_check_id, oneshot_uuid};
use maremma::json::{get_host_config, JsonValue};
use maremma::logging::{logging_directives, otlp_tracing_enabled};
use maremma::otel::{
    collector_health_verdict, default_health_port, default_metrics_port, proxy_path, valid_dns_label,
    validate_collector_target,
};
use maremma::prune::{config_links, prune_plan};
use maremma::schedule::{select_next_check, CheckRow, next_check_time};
use maremma::services::ServiceType;
use maremma::status::ServiceStatus;
use maremma::store::{CheckRecord, CheckStore};
use maremma::text::uuid_string;

#[test]
fn otlp_tracing_is_disabled_without_an_endpoint() {
    assert!(!otlp_tracing_enabled(None, None));
    assert!(!otlp_tracing_enabled(Some(String::new()), None));
    assert!(otlp_tracing_enabled(None, Some("http://collector:4317".to_string())));
}

#[test]
fn test_oneshot_uuid() {
    let uuid = oneshot_uuid();
    assert_eq!(uuid_string(uuid), "2d2d2d20-6f6e-6520-7368-6f74202d2d2d");
}

#[test]
fn service_check_ids_are_hashes() {
    let a = generate_service_check_id(1, 2);
    let b = generate_service_check_id(1, 3);
    assert_eq!(a.len(), 64);
    assert_ne!(a, b);
    assert_eq!(a, generate_service_check_id(1, 2));
    assert!(a.chars().all(|c| c.is_ascii_hexdigit() && !c.is_ascii_uppercase()));
}

#[test]
fn logging_directives_list() {
    assert_eq!(
        logging_directives(false, false, None),
        "info,ssh::channel::local::channel=warn,h2=warn,tower_http::trace::on_request=warn,tower_http::trace::on_response=warn,tracing::span=warn,ssh=warn,sea_orm::driver::sqlx_sqlite=error,sqlx::query=warn"
    );
    assert!(logging_directives(true, true, Some("trace".to_string())).starts_with("trace,"));
}

#[test]
fn otel_names_and_paths() {
    assert_eq!(default_health_port(), 13133);
    assert_eq!(default_metrics_port(), 8888);
    assert!(valid_dns_label("otel-collector"));
    assert!(!valid_dns_label("-bad"));
    assert!(!valid_dns_label("Upper"));
    assert!(!valid_dns_label(""));
    assert!(!valid_dns_label(&"a".repeat(64)));
    assert_eq!(
        proxy_path("monitoring", "otel", 13133, "/"),
        "/api/v1/namespaces/monitoring/services/http:otel:13133/proxy/"
    );
}

#[test]
fn discovery_annotations_and_ports() {
    let ann = vec![("maremma.terminaloutcomes.com/check".to_string(), "ping".to_string())];
    assert!(has_maremma_annotations(Some(&ann)));
    assert!(!has_maremma_annotations(None));
    assert!(!has_maremma_annotations(Some(&vec![("other".to_string(), "x".to_string())])));
    let ignore = vec![("maremma.terminaloutcomes.com/ignore".to_string(), "true".to_string())];
    assert!(namespace_ignored(Some(&ignore)));
    assert!(!namespace_ignored(Some(&ann)));
    assert_eq!(
        kept_addresses(&vec!["".to_string(), "None".to_string(), "10.0.0.1".to_string()]),
        vec!["10.0.0.1".to_string()]
    );
    assert_eq!(service_ports(&vec![80, 0, 65536, -1]), vec![80, 65535]);
}

#[test]
fn pushover_rules() {
    let p: i8 = PushoverPriority::Emergency.into();
    assert_eq!(p, 2);
    let lowest: i8 = PushoverPriority::Lowest.into();
    assert_eq!(lowest, -2);
    let action = PushOver {
        token: "t".to_string(),
        user: "u".to_string(),
        device: None,
        title: None,
        message: Some("m".to_string()),
        run_states: vec![ServiceStatus::Critical],
        retry_count: 0,
    };
    assert!(action.sends_for(ServiceStatus::Critical));
    assert!(!action.sends_for(ServiceStatus::OK));
    assert_eq!(action.run_states(), vec![ServiceStatus::Critical]);
    let every = PushOver { run_states: Vec::new(), ..action_with_message() };
    for status in ServiceStatus::all() {
        assert!(every.sends_for(status));
    }
    assert_eq!(every.run_states(), ServiceStatus::all());
    assert_eq!(action.payload().message, Some("m".to_string()));
    assert_eq!(pushover_step(429), PushoverStep::ClientError);
    assert_eq!(pushover_step(503), PushoverStep::Retry(5));
    assert_eq!(pushover_step(200), PushoverStep::ReadBody);
    assert_eq!(pushover_outcome(Ok((1, Vec::new()))), Ok(()));
    assert_eq!(
        pushover_outcome(Ok((0, vec!["bad user".to_string()]))),
        Err(MaremmaError::Generic("Failed to send pushover message: \"bad user\"".to_string()))
    );
}

#[test]
fn config_defaults() {
    assert_eq!(default_database_file(), "maremma.sqlite");
    assert_eq!(default_listen_address(), "127.0.0.1");
    assert_eq!(max_concurrent_for_cpus(8), 6);
    assert_eq!(max_concurrent_for_cpus(2), 1);
    assert_eq!(max_concurrent_for_cpus(0), 1);
    assert_eq!(get_connect_string(":memory:"), "sqlite::memory:");
    assert_eq!(get_connect_string("m.db"), "sqlite://m.db?mode=rwc");
}

fn parser() -> ConfigurationParser {
    let mut host = Host::new("foo.bar".to_string(), HostCheck::Ping);
    host.host_groups = vec!["web".to_string(), "all".to_string()];
    ConfigurationParser {
        database_file: default_database_file(),
        static_path: None,
        listen_address: default_listen_address(),
        listen_port: None,
        hosts: vec![("foo.bar".to_string(), host)],
        local_services: FakeHost { services: Vec::new() },
        services: Vec::new(),
        frontend_url: Some("https://example.com".to_string()),
        oidc_issuer: Some("https://example.com".to_string()),
        oidc_client_id: Some("foo".to_string()),
        oidc_client_secret: Some("bar".to_string()),
        cert_file: String::new(),
        cert_key: String::new(),
        max_concurrent_checks: 1,
    }
}

fn no_env() -> ConfigEnv {
    ConfigEnv { frontend_url: None, oidc_issuer: None, oidc_client_id: None }
}

#[test]
fn test_config_new() {
    let config = Configuration::try_from_parser(parser(), no_env(), true).unwrap();
    assert_eq!(config.hosts.len(), 1);
    assert_eq!(config.listen_addr(), "127.0.0.1:8888");
    let mut groups = config.groups();
    groups.sort();
    assert_eq!(groups, vec!["all".to_string(), "web".to_string()]);
}

#[test]
fn test_config_static_missing() {
    let err = Configuration::try_from_parser(parser(), no_env(), false).unwrap_err();
    assert_eq!(err, MaremmaError::Configuration("Static path does not exist".to_string()));
}

#[test]
fn config_settings_fall_back_to_the_environment() {
    let mut p = parser();
    p.frontend_url = None;
    let err = Configuration::try_from_parser(p, no_env(), true).unwrap_err();
    assert_eq!(err, MaremmaError::Configuration("Frontend URL not set".to_string()));
    let mut p = parser();
    p.frontend_url = None;
    let env = ConfigEnv { frontend_url: Some("https://env".to_string()), oidc_issuer: None, oidc_client_id: None };
    assert_eq!(Configuration::try_from_parser(p, env, true).unwrap().frontend_url, "https://env");
    let mut p = parser();
    p.services = vec![("bad".to_string(), Err("missing field".to_string()))];
    assert_eq!(
        Configuration::try_from_parser(p, no_env(), true).unwrap_err(),
        MaremmaError::Configuration("Failed to parse service bad: missing field".to_string())
    );
}

#[test]
fn local_services_get_their_host() {
    let mut p = parser();
    p.local_services = FakeHost { services: vec!["local".to_string()] };
    p.add_local_services_host();
    assert_eq!(p.hosts.len(), 2);
    assert_eq!(p.hosts[1].0, "Maremma Local Checks");
    assert_eq!(p.hosts[1].1.check, HostCheck::NoCheck);
}

#[test]
fn host_config_parts() {
    let config = JsonValue::Object(vec![(
        "svc".to_string(),
        JsonValue::Object(vec![("port".to_string(), JsonValue::Null)]),
    )]);
    assert_eq!(get_host_config("svc", config, "h").unwrap().len(), 1);
    assert_eq!(get_host_config("other", JsonValue::Object(Vec::new()), "h").unwrap().len(), 0);
    assert_eq!(
        get_host_config("svc", JsonValue::Null, "h").unwrap_err(),
        MaremmaError::Configuration("Failed to parse config as map for host=h".to_string())
    );
    let bad = JsonValue::Object(vec![("svc".to_string(), JsonValue::Bool(true))]);
    assert_eq!(
        get_host_config("svc", bad, "h").unwrap_err(),
        MaremmaError::Configuration("Failed to parse svc config".to_string())
    );
}

#[test]
fn next_check_selection() {
    let rows = vec![
        CheckRow { status: ServiceStatus::OK, next_check: 10 },
        CheckRow { status: ServiceStatus::Pending, next_check: 50 },
        CheckRow { status: ServiceStatus::Urgent, next_check: 500 },
        CheckRow { status: ServiceStatus::Checking, next_check: 1 },
    ];
    assert_eq!(select_next_check(&rows, 100), Some(2));
    assert_eq!(select_next_check(&rows[..2].to_vec(), 100), Some(1));
    assert_eq!(select_next_check(&rows[..1].to_vec(), 100), Some(0));
    assert_eq!(select_next_check(&rows[..1].to_vec(), 5), None);
}

#[test]
fn store_hands_out_each_check_once() {
    let record = |id: u128, status: ServiceStatus, next: i64| CheckRecord {
        id,
        service_id: 7,
        host_id: 8,
        status,
        last_check: 0,
        next_check: next,
        last_updated: 0,
    };
    let mut store = CheckStore::new(vec![record(1, ServiceStatus::Pending, 0), record(2, ServiceStatus::OK, 0)]);
    assert_eq!(store.next_service_check(100), Some(1));
    assert_eq!(store.records()[0].status, ServiceStatus::Checking);
    assert_eq!(store.next_service_check(100), Some(2));
    assert_eq!(store.next_service_check(100), None);
    assert!(store.release(2));
    assert_eq!(store.next_service_check(100), Some(2));
    let result = CheckResult { timestamp: 0, time_elapsed: 12, status: ServiceStatus::Critical, result_text: "down".to_string() };
    assert_eq!(store.record_result(1, 90, &result, 100, "* * * * *", 0), Ok(()));
    assert_eq!(store.records()[0].status, ServiceStatus::Critical);
    assert_eq!(store.records()[0].last_check, 90);
    assert!(store.records()[0].next_check > 100);
    assert_eq!(store.history().len(), 1);
    assert_eq!(store.history()[0].result_text, "down");
    assert_eq!(store.records()[0].last_updated, 100);
    assert!(store.records()[0].last_updated > 0);
    assert_eq!(store.history()[0].timestamp, 100);
    assert_eq!(store.history()[0].time_elapsed, 12);
    assert_eq!(store.record_result(9, 90, &result, 100, "* * * * *", 0), Err(MaremmaError::ServiceCheckNotFound(9)));
}

#[test]
fn next_check_times() {
    let t = next_check_time("* * * * *", 1_700_000_000_000, 0).unwrap();
    assert_eq!(t, 1_700_000_040_000);
    let t = next_check_time("* * * * *", 1_700_000_000_000, 30).unwrap();
    assert!(t >= 1_700_000_040_000 && t < 1_700_000_070_000);
    assert!(matches!(next_check_time("bogus", 0, 0), Err(MaremmaError::CronParseError(_))));
}

#[test]
fn check_results_are_reported() {
    let result = CheckResult { timestamp: 0, time_elapsed: 3, status: ServiceStatus::Critical, result_text: "bad".to_string() };
    let report = record_check_result(&result);
    assert_eq!(report.level, ReportLevel::Warn);
    assert_eq!(report.error_description, Some("bad".to_string()));
    let mut l = CheckLoop::new(0);
    assert_eq!(l.max_permits(), 1);
    assert_eq!(l.idle(), 100);
}

#[test]
fn links_follow_rows() {
    let members = vec![(1u128, 10u128), (2, 10), (1, 11)];
    assert_eq!(HostToGroups::link(&members, 1), vec![10, 11]);
    assert_eq!(GroupToHosts::link(&members, 10), vec![1, 2]);
    let checks = vec![FullServiceCheck {
        id: 1,
        service_name: "s".to_string(),
        service_type: ServiceType::Ping,
        service_id: 5,
        host_id: 6,
        host_name: "h".to_string(),
        last_check: 0,
        next_check: 0,
        status: ServiceStatus::OK,
    }];
    assert_eq!(FullServiceCheck::get_by_service_id_query(&checks, 5), vec![0]);
    assert!(FullServiceCheck::get_by_service_id_query(&checks, 4).is_empty());
}

#[test]
fn prune_plan_drops_what_is_not_configured() {
    let config = Configuration::try_from_parser(parser(), no_env(), true).unwrap();
    let hosts = vec![("foo.bar".to_string(), 1u128), ("gone".to_string(), 2u128)];
    let groups = vec![("web".to_string(), 10u128), ("all".to_string(), 11u128), ("old".to_string(), 12u128)];
    let memberships = vec![(100u128, 1u128, 10u128), (101, 2, 10), (102, 1, 12)];
    let plan = prune_plan(&config, &hosts, &Vec::new(), &groups, &vec![(200, 1, 9)], &Vec::new(), &memberships).unwrap();
    assert_eq!(plan.hosts, vec![2]);
    assert_eq!(plan.groups, vec![12]);
    assert_eq!(plan.memberships, vec![101, 102]);
    assert_eq!(plan.checks, vec![200]);
    let err = prune_plan(&config, &Vec::new(), &Vec::new(), &groups, &Vec::new(), &Vec::new(), &Vec::new()).unwrap_err();
    assert_eq!(
        err,
        MaremmaError::Configuration("Host 'foo.bar' was not stored while reconciling configuration".to_string())
    );
}

#[test]
fn prune_plan_names_missing_groups_and_services() {
    let config = Configuration::try_from_parser(parser(), no_env(), true).unwrap();
    let hosts = vec![("foo.bar".to_string(), 1u128)];
    let err = prune_plan(&config, &hosts, &Vec::new(), &Vec::new(), &Vec::new(), &Vec::new(), &Vec::new()).unwrap_err();
    assert!(matches!(err, MaremmaError::HostGroupNotFoundByName(_)));
}

#[test]
fn test_default_max_concurrent_checks() {
    assert!(default_max_concurrent_checks() >= 1);
}

#[test]
fn collector_targets_are_validated() {
    assert!(validate_collector_target("clickstack", "clickstack-otel-collector", 13133, 8888).is_ok());
    match validate_collector_target("", "clickstack-otel-collector", 13133, 8888) {
        Err(MaremmaError::Configuration(m)) => {
            assert_eq!(m, "namespace must be a valid Kubernetes DNS label")
        }
        other => panic!("unexpected {other:?}"),
    }
    match validate_collector_target("clickstack", "Collector", 13133, 8888) {
        Err(MaremmaError::Configuration(m)) => {
            assert_eq!(m, "service_name must be a valid Kubernetes DNS label")
        }
        other => panic!("unexpected {other:?}"),
    }
    match validate_collector_target("clickstack", "clickstack-otel-collector", 0, 8888) {
        Err(MaremmaError::Configuration(m)) => {
            assert_eq!(m, "collector ports must be greater than zero")
        }
        other => panic!("unexpected {other:?}"),
    }
}

#[test]
fn unavailable_collectors_are_critical() {
    assert!(collector_health_verdict("Server available").is_none());
    let (text, status) = collector_health_verdict("Server not available").expect("a verdict");
    assert_eq!(text, "CRITICAL: collector health status=Server not available");
    assert_eq!(status, ServiceStatus::Critical);
}

#[test]
fn disabled_and_running_checks_are_never_chosen() {
    let rows = vec![
        CheckRow { status: ServiceStatus::Disabled, next_check: 0 },
        CheckRow { status: ServiceStatus::Checking, next_check: 0 },
    ];
    assert_eq!(select_next_check(&rows, 100), None);
    let rows = vec![
        CheckRow { status: ServiceStatus::Disabled, next_check: 0 },
        CheckRow { status: ServiceStatus::Warning, next_check: 90 },
        CheckRow { status: ServiceStatus::Critical, next_check: 80 },
    ];
    assert_eq!(select_next_check(&rows, 100), Some(2));
}

fn action_with_message() -> PushOver {
    PushOver {
        token: "t".to_string(),
        user: "u".to_string(),
        device: None,
        title: None,
        message: Some("m".to_string()),
        run_states: vec![ServiceStatus::Critical],
        retry_count: 0,
    }
}

#[test]
fn configuration_links_by_stored_id() {
    let config = Configuration::try_from_parser(parser(), no_env(), true).unwrap();
    let hosts = vec![("foo.bar".to_string(), 1u128)];
    let groups = vec![("web".to_string(), 10u128), ("all".to_string(), 11u128)];
    let links = config_links(&config, &hosts, &Vec::new(), &groups).unwrap();
    assert_eq!(links.members, vec![(1, 10), (1, 11)]);
    assert!(links.links.is_empty());
    let err = config_links(&config, &hosts, &Vec::new(), &groups[..1].to_vec()).unwrap_err();
    assert_eq!(err, MaremmaError::HostGroupNotFoundByName("all".to_string()));
}

#[test]
fn pruning_history_removes_older_entries() {
    let record = |id: u128| CheckRecord {
        id,
        service_id: 7,
        host_id: 8,
        status: ServiceStatus::Pending,
        last_check: 0,
        next_check: 0,
        last_updated: 0,
    };
    let mut store = CheckStore::new(vec![record(1), record(2)]);
    let result = CheckResult { timestamp: 0, time_elapsed: 1, status: ServiceStatus::OK, result_text: "ok".to_string() };
    assert_eq!(store.record_result(1, 90, &result, 100, "* * * * *", 0), Ok(()));
    assert_eq!(store.record_result(2, 90, &result, 120, "* * * * *", 0), Ok(()));
    assert_eq!(store.record_result(1, 190, &result, 200, "* * * * *", 0), Ok(()));
    assert_eq!(store.prune_history(1_000, None, 500), Err(MaremmaError::DateIsInTheFuture));
    assert_eq!(store.history().len(), 3);
    assert_eq!(store.prune_history(150, Some(2), 500), Ok(1));
    assert_eq!(store.history().len(), 2);
    assert_eq!(store.prune_history(150, Some(9), 500), Ok(0));
    assert_eq!(store.prune_history(150, None, 500), Ok(1));
    assert_eq!(store.history().len(), 1);
    assert_eq!(store.history()[0].timestamp, 200);
}
