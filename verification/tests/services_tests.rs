use maremma::errors::MaremmaError;
use maremma::json::{JsonNumber, JsonValue};
use maremma::schedule::CronSchedule;
use maremma::services::cli::{cli_result, CliService};
use maremma::services::http::{default_expected_http_status, HttpMethod, HttpService};
use maremma::services::kubernetes::{
    ContainerState, KubernetesCheck, KubernetesService, PodCondition, PodInfo,
};
use maremma::services::ping::{PingReply, PingService};
use maremma::services::ssh::{serialize_password, SshAuth, SshService};
use maremma::services::tls::{peer_state_text, TlsPeerState, TlsService};
use maremma::services::{oneshot_service_config, ServiceType};
use maremma::status::ServiceStatus;

fn cron(p: &str) -> CronSchedule {
    CronSchedule::parse(p).expect("cron pattern should parse")
}

fn entry(k: &str, v: JsonValue) -> (String, JsonValue) {
    (k.to_string(), v)
}

fn text(s: &str) -> JsonValue {
    JsonValue::Str(s.to_string())
}

fn num(n: u64) -> JsonValue {
    JsonValue::Number(JsonNumber::PosInt(n))
}

fn http_service() -> HttpService {
    HttpService {
        name: "test".to_string(),
        cron_schedule: cron("@hourly"),
        http_method: HttpMethod::Get,
        http_uri: None,
        http_status: None,
        validate_tls: false,
        connect_timeout: None,
        port: None,
        contains_string: None,
        ca_file: None,
        use_http: None,
        jitter: None,
    }
}

#[test]
fn test_http_method_display() {
    assert_eq!(HttpMethod::Get.to_string(), "GET");
    assert_eq!(HttpMethod::Post.to_string(), "POST");
    assert_eq!(HttpMethod::Put.to_string(), "PUT");
    assert_eq!(HttpMethod::Delete.to_string(), "DELETE");
    assert_eq!(HttpMethod::Patch.to_string(), "PATCH");
    assert_eq!(HttpMethod::Options.to_string(), "OPTIONS");
}

#[test]
fn test_from_str_http_method() {
    assert_eq!(HttpMethod::Get, "get".to_string().into());
    assert_eq!(HttpMethod::Post, "post".to_string().into());
    assert_eq!(HttpMethod::Put, "put".to_string().into());
    assert_eq!(HttpMethod::Delete, "delete".to_string().into());
    assert_eq!(HttpMethod::Patch, "patch".to_string().into());
    assert_eq!(HttpMethod::Options, "options".to_string().into());
    assert_eq!(HttpMethod::Get, "nonsense".to_string().into());
}

#[test]
fn http_method_names_read_back() {
    for m in [
        HttpMethod::Get,
        HttpMethod::Post,
        HttpMethod::Put,
        HttpMethod::Delete,
        HttpMethod::Patch,
        HttpMethod::Options,
    ] {
        assert_eq!(HttpMethod::from(m.to_string()), m);
    }
    assert_eq!(HttpMethod::from("PaTcH".to_string()), HttpMethod::Patch);
    assert_eq!(HttpMethod::default(), HttpMethod::Get);
}

#[test]
fn test_default_expected_http_status() {
    assert_eq!(200, default_expected_http_status());
}

#[test]
fn test_display_service_type() {
    assert_eq!(ServiceType::Cli.to_string(), "CLI");
    assert_eq!(ServiceType::Ssh.to_string(), "SSH");
    assert_eq!(ServiceType::Ping.to_string(), "Ping");
    assert_eq!(ServiceType::Http.to_string(), "HTTP");
    assert_eq!(ServiceType::Tls.to_string(), "TLS");
}

#[test]
fn service_type_keys_read_back() {
    for t in [ServiceType::Cli, ServiceType::Ssh, ServiceType::Ping, ServiceType::Http, ServiceType::Tls] {
        assert_eq!(ServiceType::from_config_key(&t.config_key()), Some(t));
    }
    assert_eq!(ServiceType::from_config_key("kubernetes"), None);
}

#[test]
fn test_overlay_host_config() {
    let service = http_service();
    let value = vec![
        entry("port", num(12345)),
        entry("http_uri", text("/asdfsafd")),
        entry("cron_schedule", text("@daily")),
        entry("ca_file", text("/dev/null")),
    ];
    let res = service.overlay_host_config(&value).expect("Failed to get partial");
    assert_ne!(service.http_uri, res.http_uri);
    assert_ne!(service.port, res.port);
    assert_ne!(service.cron_schedule.pattern(), res.cron_schedule.pattern());
    let cron_pattern = res.cron_schedule.pattern().to_string();
    assert!(cron_pattern == "@daily" || cron_pattern == "0 0 * * *", "got: {}", cron_pattern);
    assert_eq!(res.ca_file, Some("/dev/null".to_string()));
}

#[test]
fn empty_overlay_keeps_every_setting() {
    let service = http_service();
    let res = service.overlay_host_config(&Vec::new()).expect("empty overlay");
    assert_eq!(res.name, service.name);
    assert_eq!(res.port, service.port);
    assert_eq!(res.http_status, service.http_status);
    assert_eq!(res.cron_schedule.pattern(), service.cron_schedule.pattern());
}

#[test]
fn http_status_overlay_reads_numbers_and_text() {
    let service = http_service();
    let res = service.overlay_host_config(&vec![entry("http_status", num(404))]).unwrap();
    assert_eq!(res.http_status, Some(404));
    let res = service.overlay_host_config(&vec![entry("http_status", text("301"))]).unwrap();
    assert_eq!(res.http_status, Some(301));
    let res = service.overlay_host_config(&vec![entry("http_status", text("nope"))]).unwrap();
    assert_eq!(res.http_status, None);
    let res = service.overlay_host_config(&vec![entry("http_status", num(65536 + 200))]).unwrap();
    assert_eq!(res.http_status, Some(200));
    let err = service
        .overlay_host_config(&vec![entry("http_status", JsonValue::Bool(true))])
        .unwrap_err();
    assert_eq!(
        err,
        MaremmaError::Configuration("Couldn't parse http_status as valid number".to_string())
    );
}

#[test]
fn overlay_refuses_a_port_of_zero() {
    let service = http_service();
    let err = service.overlay_host_config(&vec![entry("port", num(0))]).unwrap_err();
    assert_eq!(
        err,
        MaremmaError::Deserialization("Failed to extract field port from host configuration".to_string())
    );
}

#[test]
fn overlay_refuses_a_cron_that_is_not_text() {
    let service = http_service();
    let err = service.overlay_host_config(&vec![entry("cron_schedule", num(5))]).unwrap_err();
    assert_eq!(err, MaremmaError::Generic("Failed to get cron_schedule".to_string()));
    let err = service
        .overlay_host_config(&vec![entry("cron_schedule", text("not a cron"))])
        .unwrap_err();
    assert_eq!(err, MaremmaError::Generic("Failed to parse cron_schedule".to_string()));
}

#[test]
fn http_validation_and_expected_code() {
    let mut service = http_service();
    assert_eq!(service.validate(), Ok(()));
    assert_eq!(service.expected_status_code(), Ok(200));
    service.http_status = Some(50);
    assert_eq!(
        service.validate(),
        Err(MaremmaError::Configuration("Invalid HTTP status code: 50".to_string()))
    );
    assert_eq!(
        service.expected_status_code(),
        Err(MaremmaError::Generic("Invalid status code 50 in service check".to_string()))
    );
}

#[test]
fn http_check_url() {
    let mut service = http_service();
    assert_eq!(service.check_url("example.com"), "https://example.com");
    service.use_http = Some(true);
    service.port = Some(8080);
    service.http_uri = Some("/health".to_string());
    assert_eq!(service.check_url("example.com"), "http://example.com:8080/health");
}

#[test]
fn http_response_verdicts() {
    let mut service = http_service();
    let (text, status) = service.response_verdict(200, None).unwrap();
    assert_eq!((text.as_str(), status), ("OK", ServiceStatus::OK));
    let (text, status) = service.response_verdict(404, None).unwrap();
    assert_eq!(status, ServiceStatus::Critical);
    assert_eq!(text, "Expected status code 200 OK, got 404 Not Found");
    service.contains_string = Some("Welcome".to_string());
    let (_, status) = service.response_verdict(200, Some("Welcome to nginx!".to_string())).unwrap();
    assert_eq!(status, ServiceStatus::OK);
    let (text, status) = service.response_verdict(200, Some("nothing".to_string())).unwrap();
    assert_eq!(status, ServiceStatus::Critical);
    assert_eq!(text, "Expected string 'Welcome' not found in body");
}

fn cli_service(command_line: &str, run_in_shell: bool) -> CliService {
    CliService {
        name: "test".to_string(),
        hostname: None,
        command_line: command_line.to_string(),
        run_in_shell,
        cron_schedule: cron("@hourly"),
        jitter: None,
    }
}

#[test]
fn cli_command_plans() {
    let plan = cli_service("ls -lah  #HOSTNAME#", false).command_plan("host1").unwrap();
    assert_eq!(plan.program, "ls");
    assert_eq!(plan.args, vec!["-lah".to_string(), "host1".to_string()]);
    assert!(!plan.in_shell);
    let plan = cli_service("printf '%s' '#HOSTNAME# quoted value'; exit 1", true)
        .command_plan("test_host_hostname")
        .unwrap();
    assert_eq!(plan.program, "/bin/sh");
    assert_eq!(
        plan.args,
        vec!["-c".to_string(), "printf '%s' 'test_host_hostname quoted value'; exit 1".to_string()]
    );
    let err = cli_service("   \t ", false).command_plan("h").unwrap_err();
    assert_eq!(err, MaremmaError::InvalidInput("No command specified".to_string()));
}

#[test]
fn cli_results() {
    let (status, text) = cli_result(Some(2), b"CRITICAL | value=7".to_vec(), b" diagnostic".to_vec());
    assert_eq!(status, ServiceStatus::Critical);
    assert_eq!(text, "CRITICAL | value=7 diagnostic");
    let (status, text) = cli_result(Some(1), b"a\\\\nb".to_vec(), Vec::new());
    assert_eq!(status, ServiceStatus::Warning);
    assert_eq!(text, "a b");
}

#[test]
fn cli_overlay() {
    let service = cli_service("ls", false);
    let res = service
        .overlay_host_config(&vec![entry("hostname", text("other")), entry("run_in_shell", JsonValue::Bool(true))])
        .unwrap();
    assert_eq!(res.hostname, Some("other".to_string()));
    assert!(res.run_in_shell);
    assert_eq!(res.command_line, "ls");
}

fn ping_service(count: Option<u8>, required: Option<u8>) -> PingService {
    PingService {
        name: "ping".to_string(),
        cron_schedule: cron("@hourly"),
        jitter: None,
        count,
        address: None,
        required_successful: required,
    }
}

#[test]
fn ping_counts() {
    assert_eq!(ping_service(None, None).get_count(), 3);
    assert_eq!(ping_service(None, None).get_required_successful(), 3);
    assert_eq!(ping_service(Some(2), Some(5)).get_required_successful(), 2);
    assert_eq!(ping_service(Some(5), Some(1)).get_required_successful(), 1);
    assert_eq!(ping_service(None, None).target("host"), "host");
}

#[test]
fn ping_verdicts() {
    let s = ping_service(Some(2), None);
    let ok = s
        .ping_verdict("box", &vec![PingReply::Reply(2_000_000), PingReply::Reply(4_000_000)])
        .unwrap();
    assert_eq!(ok, "OK: Ping to box took 3ms on average");
    let err = s
        .ping_verdict("box", &vec![PingReply::Reply(1), PingReply::Failed("timeout".to_string())])
        .unwrap_err();
    assert_eq!(err, MaremmaError::Generic("timeout".to_string()));
    // at least the required number of replies is enough
    let s = ping_service(Some(3), Some(2));
    let ok = s
        .ping_verdict("box", &vec![PingReply::Reply(1_000_000), PingReply::Reply(1_000_000), PingReply::Reply(4_000_000)])
        .unwrap();
    assert_eq!(ok, "OK: Ping to box took 2ms on average");
    let ok = s
        .ping_verdict(
            "box",
            &vec![PingReply::Reply(1_000_000), PingReply::TimedOut("timeout".to_string()), PingReply::Reply(3_000_000)],
        )
        .unwrap();
    assert_eq!(ok, "OK: Ping to box took 2ms on average");
    let err = s
        .ping_verdict(
            "box",
            &vec![
                PingReply::Reply(1),
                PingReply::TimedOut("timeout".to_string()),
                PingReply::TimedOut("timeout".to_string()),
            ],
        )
        .unwrap_err();
    assert_eq!(err, MaremmaError::Generic("CRITICAL: Ping failed: 1 successful, 2 failed".to_string()));
    let err = s
        .ping_verdict("box", &vec![PingReply::Reply(1), PingReply::TaskFailed("joined".to_string()), PingReply::Reply(1)])
        .unwrap_err();
    assert_eq!(err, MaremmaError::Generic("Running task failed: joined".to_string()));
    // none required and none came
    let s = ping_service(Some(2), Some(0));
    let ok = s
        .ping_verdict("box", &vec![PingReply::TimedOut("t".to_string()), PingReply::TimedOut("t".to_string())])
        .unwrap();
    assert_eq!(ok, "OK: Ping to box took 0ms on average");
}

fn ssh_service() -> SshService {
    SshService {
        name: "ssh".to_string(),
        command_line: "uptime".to_string(),
        port: None,
        cron_schedule: cron("@hourly"),
        username: "maremma".to_string(),
        private_key: None,
        password: None,
        exit_code: None,
        timeout: None,
        jitter: None,
    }
}

#[test]
fn test_serialize_password() {
    assert_eq!(serialize_password(&Some("hunter2".to_string())), Some("*******".to_string()));
    assert_eq!(serialize_password(&None), None);
}

#[test]
fn ssh_rules() {
    let mut s = ssh_service();
    assert_eq!(
        s.validate(),
        Err(MaremmaError::Configuration(
            "No SSH key or password provided, auth is going to fail!".to_string()
        ))
    );
    assert_eq!(s.auth(), SshAuth::Nothing);
    s.password = Some("pw".to_string());
    assert_eq!(s.validate(), Ok(()));
    assert_eq!(s.auth(), SshAuth::Password("pw".to_string()));
    s.private_key = Some("/key".to_string());
    assert_eq!(s.auth(), SshAuth::KeyFile("/key".to_string()));
    assert_eq!(s.target("example.com"), "example.com:22");
    s.port = Some(2222);
    assert_eq!(s.target("example.com"), "example.com:2222");
    let (status, text) = s.command_verdict(0, &b"fine".to_vec());
    assert_eq!((status, text.as_str()), (ServiceStatus::OK, "fine"));
    s.exit_code = Some(3);
    let (status, _) = s.command_verdict(0, &Vec::new());
    assert_eq!(status, ServiceStatus::Critical);
}

fn tls_service() -> TlsService {
    TlsService {
        name: "tls".to_string(),
        cron_schedule: cron("@hourly"),
        port: 443,
        expiry_critical: None,
        expiry_warn: None,
        timeout: None,
        jitter: None,
    }
}

#[test]
fn tls_peer_state_setters() {
    let mut state = TlsPeerState::new(1000);
    assert!(!state.cert_name_matches && !state.intermediate_expired && !state.intermediate_untrusted);
    state.set_intermediate_expired();
    assert!(state.intermediate_expired);
    state.set_intermediate_untrusted();
    assert!(state.intermediate_untrusted);
}

#[test]
fn tls_verdicts() {
    let day: i64 = 86_400_000;
    let now: i64 = 1_700_000_000_000;
    let service = tls_service();
    let mut good = TlsPeerState::new(now + 30 * day);
    good.cert_name_matches = true;
    let (status, text) = service.tls_verdict(&good, now);
    assert_eq!(status, ServiceStatus::OK);
    assert_eq!(text, "");
    let mut soon = TlsPeerState::new(now + day / 2);
    soon.cert_name_matches = true;
    let (status, text) = service.tls_verdict(&soon, now);
    assert_eq!(status, ServiceStatus::Warning);
    assert_eq!(text, "Certificate expires in 0 days or 43200 seconds - min set to 86400");
    let expired = TlsPeerState::new(now - 2 * day);
    let (status, text) = service.tls_verdict(&expired, now);
    assert_eq!(status, ServiceStatus::Critical);
    assert_eq!(
        text,
        "Certificate expired 2 days ago, Certificate name does not match, Certificate expires in -2 days or -172800 seconds - min set to 0"
    );
    assert!(expired.cert_expired(now));
    assert_eq!(expired.expiry_days(now), -2);
}

#[test]
fn tls_peer_state_text() {
    assert_eq!(peer_state_text("unexpected error: {\"a\":1}"), Some("{\"a\":1}".to_string()));
    assert_eq!(peer_state_text("other"), None);
    assert_eq!(tls_service().target("h"), "h:443");
}

fn pod(name: &str, namespace: &str, phase: Option<&str>) -> PodInfo {
    PodInfo {
        namespace: Some(namespace.to_string()),
        name: Some(name.to_string()),
        phase: phase.map(|p| p.to_string()),
        conditions: Vec::new(),
        containers: Vec::new(),
    }
}

fn ready_pod(name: &str, phase: &str, ready: bool, restarts: i32) -> PodInfo {
    let mut p = pod(name, "clickstack", Some(phase));
    p.conditions = vec![PodCondition {
        condition_type: "Ready".to_string(),
        status: if ready { "True" } else { "False" }.to_string(),
    }];
    p.containers = vec![ContainerState { name: "app".to_string(), ready, restart_count: restarts }];
    p
}

#[test]
fn filters_running_and_succeeded_pods() {
    let pods = vec![
        pod("running", "default", Some("Running")),
        pod("job", "jobs", Some("Succeeded")),
        pod("broken", "default", Some("CrashLoopBackOff")),
        pod("pending", "apps", Some("Pending")),
        pod("unknown", "apps", None),
    ];
    assert_eq!(
        maremma::services::kubernetes::unhealthy_pods(&pods),
        vec!["default/broken=CrashLoopBackOff", "apps/pending=Pending", "apps/unknown=Unknown"]
    );
}

#[test]
fn filters_unready_pods_and_ignores_old_restarts() {
    let pods = vec![
        ready_pod("ready", "Running", true, 3),
        ready_pod("unready", "Running", false, 2),
        ready_pod("completed", "Succeeded", false, 0),
        pod("pending", "clickstack", Some("Pending")),
        pod("failed", "clickstack", Some("Failed")),
    ];
    assert_eq!(
        maremma::services::kubernetes::unready_pods(&pods),
        vec![
            "clickstack/unready ready=false unready=[app] restarts=2",
            "clickstack/pending phase=Pending",
            "clickstack/failed phase=Failed",
        ]
    );
}

#[test]
fn kubernetes_verdicts() {
    let (text, status) = KubernetesService::api_verdict(Ok("v1.30.0".to_string()));
    assert_eq!((text.as_str(), status), ("OK: Kubernetes v1.30.0", ServiceStatus::OK));
    let (text, status) = KubernetesService::unhealthy_verdict(Ok(vec![pod("a", "ns", Some("Running"))]));
    assert_eq!((text.as_str(), status), ("OK: All pods are running or succeeded", ServiceStatus::OK));
    let (text, status) = KubernetesService::unready_verdict(Ok(vec![ready_pod("ready", "Running", true, 3)]));
    assert_eq!((text.as_str(), status), ("OK: 1 pods are ready or completed; restarts=3", ServiceStatus::OK));
    let (text, status) = KubernetesService::unhealthy_verdict(Err("boom".to_string()));
    assert_eq!((text.as_str(), status), ("CRITICAL: boom", ServiceStatus::Critical));
}

#[test]
fn parses_public_service_configuration() {
    let service = KubernetesService {
        name: "pods".to_string(),
        check: KubernetesCheck::default(),
        namespace: None,
        cron_schedule: cron("@hourly"),
        jitter: None,
    };
    let res = service
        .overlay_host_config(&vec![entry("check", text("unready_pods")), entry("namespace", text("apps"))])
        .unwrap();
    assert_eq!(res.check, KubernetesCheck::UnreadyPods);
    assert_eq!(res.namespace, Some("apps".to_string()));
    assert!(service.overlay_host_config(&vec![entry("check", text("kubernetes"))]).is_err());
}

#[test]
fn oneshot_config_is_named_and_scheduled() {
    let cfg = oneshot_service_config(JsonValue::Object(vec![entry("hostname", text("x"))])).unwrap();
    assert_eq!(cfg.len(), 3);
    assert!(oneshot_service_config(JsonValue::Null).is_err());
}
