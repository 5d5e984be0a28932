use maremma::db::{local_checks_to_add, LOCAL_HOST_ID};
use maremma::check_loop::{
    conversion_failure_result, missing_host_result, run_error_result, supervise, timed_result, CheckLoop,
    TaskOutcome,
};
use maremma::discovery::{discovered_ingress, discovered_pod, discovered_service, Protocol};
use maremma::errors::MaremmaError;
use maremma::json::{contains_key, JsonNumber, JsonValue};
use maremma::schedule::{
    history_needs_trim, history_to_delete, reset_after_config_update, session_is_stale,
    shepherd_sleep_ms, sweep_stuck_check, CertWatch,
};
use maremma::services::check::ServiceCheck;
use maremma::services::kubernetes::client_failure_result;
use maremma::services::ssh::SshService;
use maremma::services::stored_schedule;
use maremma::status::ServiceStatus;
use maremma::text::decimal_string;

const CHECK_ID: u128 = 0x0123_4567_89ab_cdef_0123_4567_89ab_cdef;

#[test]
fn results_of_checks_that_could_not_run() {
    let r = conversion_failure_result(CHECK_ID, "no such service", 12, 1_000);
    assert_eq!(r.status, ServiceStatus::Error);
    assert_eq!(r.time_elapsed, 12);
    assert_eq!(r.timestamp, 1_000);
    assert_eq!(
        r.result_text,
        "Failed to convert service check 01234567-89ab-cdef-0123-456789abcdef to service: no such service"
    );

    let r = missing_host_result(CHECK_ID, 3, 2_000);
    assert_eq!(r.status, ServiceStatus::Error);
    assert_eq!(
        r.result_text,
        "Failed to get host for service check: 01234567-89ab-cdef-0123-456789abcdef"
    );

    let r = run_error_result("Timeout", 5, 3_000);
    assert_eq!(r.status, ServiceStatus::Error);
    assert_eq!(r.result_text, "Error: Timeout");
    assert_eq!(r.time_elapsed, 5);
}

#[test]
fn supervisor_outcomes() {
    let r = supervise(TaskOutcome::Finished(ServiceStatus::OK));
    assert_eq!(r.status, ServiceStatus::OK);
    assert!(!r.persist_error_status);
    assert!(!r.span_error);
    assert_eq!(r.span_description, None);

    let r = supervise(TaskOutcome::Finished(ServiceStatus::Critical));
    assert_eq!(r.status, ServiceStatus::Critical);
    assert!(r.span_error);
    assert!(!r.persist_error_status);

    let r = supervise(TaskOutcome::Failed("database went away".to_string()));
    assert_eq!(r.status, ServiceStatus::Error);
    assert!(r.persist_error_status);
    assert_eq!(r.span_description, Some("database went away".to_string()));

    let r = supervise(TaskOutcome::Panicked);
    assert_eq!(r.status, ServiceStatus::Error);
    assert!(r.persist_error_status);
    assert_eq!(r.span_description, Some("service check task panicked".to_string()));
}

#[test]
fn the_loop_waits_for_a_free_slot() {
    let l = CheckLoop::new(2);
    assert!(!l.must_wait_for_slot(0));
    assert!(!l.must_wait_for_slot(1));
    assert!(l.must_wait_for_slot(2));
    let l = CheckLoop::new(0);
    assert_eq!(l.max_permits(), 1);
    assert!(l.must_wait_for_slot(1));
}

#[test]
fn checks_stuck_in_checking_are_reset() {
    // a configuration update resets checks that have been running for over five seconds
    assert_eq!(reset_after_config_update(ServiceStatus::Checking, 0, 5_001), ServiceStatus::Unknown);
    assert_eq!(reset_after_config_update(ServiceStatus::Checking, 0, 5_000), ServiceStatus::Checking);
    assert_eq!(reset_after_config_update(ServiceStatus::OK, 0, 1_000_000), ServiceStatus::OK);
    // the sweep puts checks that have not changed for five minutes back to pending
    assert_eq!(sweep_stuck_check(ServiceStatus::Checking, 0, 300_001), ServiceStatus::Pending);
    assert_eq!(sweep_stuck_check(ServiceStatus::Checking, 0, 300_000), ServiceStatus::Checking);
    assert_eq!(sweep_stuck_check(ServiceStatus::Urgent, 0, 10_000_000), ServiceStatus::Urgent);
}

#[test]
fn stale_sessions_and_shepherd_sleep() {
    let eight_hours: i64 = 8 * 3_600_000;
    assert!(session_is_stale(0, eight_hours + 1));
    assert!(!session_is_stale(0, eight_hours));
    assert_eq!(shepherd_sleep_ms(0), Some(60_000));
    assert_eq!(shepherd_sleep_ms(59_999), Some(1));
    assert_eq!(shepherd_sleep_ms(60_000), None);
}

#[test]
fn trimming_history() {
    let newest_first: Vec<u128> = vec![5, 4, 3, 2, 1];
    assert_eq!(history_to_delete(&newest_first, 2), vec![3, 2, 1]);
    assert_eq!(history_to_delete(&newest_first, 5), Vec::<u128>::new());
    assert_eq!(history_to_delete(&newest_first, 0), newest_first);
    assert_eq!(history_to_delete(&Vec::new(), 0), Vec::<u128>::new());
    assert!(history_needs_trim(25_001, 25_000));
    assert!(!history_needs_trim(25_000, 25_000));
    assert!(!history_needs_trim(0, 0));
}

#[test]
fn certificate_reloads() {
    let mut watch = CertWatch { cert_time: 1, key_time: 2 };
    assert!(!watch.observe(1, 2));
    assert!(watch.observe(3, 2));
    assert_eq!(watch, CertWatch { cert_time: 3, key_time: 2 });
    assert!(watch.observe(3, 4));
    assert!(!watch.observe(3, 4));
}

#[test]
fn service_check_lifecycle() {
    let mut check = ServiceCheck::new_at(7, 9, 100);
    assert_eq!(check.status, ServiceStatus::Pending);
    assert_eq!(check.host_id, 7);
    assert_eq!(check.service_id, 9);
    assert_eq!(check.last_check, 0);
    assert_eq!(check.last_updated, 100);
    let id = check.check_id();
    check.checkout_at(200);
    assert_eq!(check.status, ServiceStatus::Checking);
    assert_eq!(check.last_updated, 200);
    check.checkin_at(ServiceStatus::Warning, 300);
    assert_eq!(check.status, ServiceStatus::Warning);
    assert_eq!(check.last_check, 300);
    assert_eq!(check.last_updated, 300);
    check.urgent();
    assert_eq!(check.status, ServiceStatus::Urgent);
    check.checkout();
    assert_eq!(check.status, ServiceStatus::Checking);
    check.checkin(ServiceStatus::OK);
    assert_eq!(check.last_check, check.last_updated);
    assert_eq!(check.check_id(), id);
}

#[test]
fn discovered_objects() {
    let annotations = vec![
        ("maremma.terminaloutcomes.com/check".to_string(), "http".to_string()),
        ("other.example.com/x".to_string(), "y".to_string()),
    ];
    let pod = discovered_pod(Some("default".to_string()), Some("web-0".to_string()), Some(&annotations))
        .expect("a pod");
    assert_eq!(pod.namespace, "default");
    assert_eq!(pod.name, "web-0");
    assert_eq!(
        pod.annotations,
        vec![("maremma.terminaloutcomes.com/check".to_string(), "http".to_string())]
    );
    match discovered_pod(None, Some("web-0".to_string()), None) {
        Err(MaremmaError::InvalidInput(m)) => assert_eq!(m, "No namespace?"),
        other => panic!("unexpected {other:?}"),
    }
    match discovered_pod(Some("default".to_string()), None, None) {
        Err(MaremmaError::InvalidInput(m)) => assert_eq!(m, "No pod name?"),
        other => panic!("unexpected {other:?}"),
    }

    let ingress = discovered_ingress(Some("default".to_string()), Some("web".to_string()), None)
        .expect("an ingress");
    assert!(ingress.annotations.is_empty());
    match discovered_ingress(None, None, None) {
        Err(MaremmaError::InvalidInput(m)) => assert_eq!(m, "No ingress name?"),
        other => panic!("unexpected {other:?}"),
    }
    match discovered_ingress(None, Some("web".to_string()), None) {
        Err(MaremmaError::InvalidInput(m)) => assert_eq!(m, "No namespace?"),
        other => panic!("unexpected {other:?}"),
    }

    let service = discovered_service(
        Some("default".to_string()),
        Some("web".to_string()),
        Some(&annotations),
        Some("10.0.0.1".to_string()),
        &vec!["10.0.0.2".to_string(), "None".to_string(), String::new()],
        &vec!["192.0.2.1".to_string(), "None".to_string()],
        &vec![80, 0, 65536, 65537, -1],
    )
    .expect("a service");
    assert_eq!(service.cluster_ips, vec!["10.0.0.1".to_string(), "10.0.0.2".to_string()]);
    assert_eq!(service.external_ips, vec!["192.0.2.1".to_string()]);
    assert_eq!(service.ports, vec![80, 1, 65535]);
    assert_eq!(service.protocol, Protocol::Unknown);
    assert_eq!(service.annotations.len(), 1);
    let service = discovered_service(
        Some("default".to_string()),
        Some("web".to_string()),
        None,
        Some("None".to_string()),
        &Vec::new(),
        &Vec::new(),
        &Vec::new(),
    )
    .expect("a service");
    assert!(service.cluster_ips.is_empty());
    match discovered_service(None, None, None, None, &Vec::new(), &Vec::new(), &Vec::new()) {
        Err(MaremmaError::Generic(m)) => assert_eq!(m, "No namespace?"),
        other => panic!("unexpected {other:?}"),
    }
    match discovered_service(Some("default".to_string()), None, None, None, &Vec::new(), &Vec::new(), &Vec::new()) {
        Err(MaremmaError::Generic(m)) => assert_eq!(m, "No service name?"),
        other => panic!("unexpected {other:?}"),
    }
}

#[test]
fn small_results() {
    let (text, status) = client_failure_result("no kubeconfig");
    assert_eq!(text, "UNKNOWN: Unable to configure Kubernetes client: no kubeconfig");
    assert_eq!(status, ServiceStatus::Unknown);

    let (status, text) = SshService::missing_key_result("/home/maremma/.ssh/id_ed25519");
    assert_eq!(status, ServiceStatus::Critical);
    assert_eq!(text, "SSH key not found: /home/maremma/.ssh/id_ed25519");

    assert_eq!(decimal_string(0), "0");
    assert_eq!(decimal_string(1234567890), "1234567890");

    let entries = vec![("port".to_string(), JsonValue::Number(JsonNumber::PosInt(22)))];
    assert!(contains_key(&entries, "port"));
    assert!(!contains_key(&entries, "hostname"));
}

#[test]
fn stored_schedules_are_checked() {
    let schedule = stored_schedule("@hourly").expect("a schedule croner accepts");
    assert_eq!(schedule.pattern(), "0 * * * *");
    match stored_schedule("not a schedule") {
        Err(MaremmaError::CronParseError(_)) => {}
        other => panic!("unexpected {other:?}"),
    }
}

#[test]
fn a_result_took_the_time_between_start_and_finish() {
    let r = timed_result(ServiceStatus::OK, "fine".to_string(), 1_000, 1_250);
    assert_eq!(r.timestamp, 1_000);
    assert_eq!(r.time_elapsed, 250);
    assert_eq!(r.status, ServiceStatus::OK);
    assert_eq!(r.result_text, "fine");
}

#[test]
fn local_checks_get_the_special_host() {
    let services = vec![("disk".to_string(), 11u128), ("load".to_string(), 12u128)];
    let local = vec!["disk".to_string(), "load".to_string(), "disk".to_string()];
    let r = local_checks_to_add(None, &services, &local, &vec![(LOCAL_HOST_ID, 12)]);
    assert_eq!(r.host_id, 0);
    assert!(r.add_host);
    assert_eq!(r.added, vec![(0, 11)]);
    assert!(r.error.is_none());
    let missing = vec!["disk".to_string(), "memory".to_string(), "load".to_string()];
    let r = local_checks_to_add(Some(5), &services, &missing, &Vec::new());
    assert_eq!(r.host_id, 5);
    assert!(!r.add_host);
    assert_eq!(r.added, vec![(5, 11)]);
    assert_eq!(r.error, Some(MaremmaError::ServiceNotFoundByName("memory".to_string())));
}
