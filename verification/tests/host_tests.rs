use maremma::errors::MaremmaError;
use maremma::host::{
    default_ssh_port, default_ssh_timeout_seconds, kube_port_default, FakeHost, Host, HostCheck,
    KubeHost, SshHost,
};
use maremma::json::{JsonNumber, JsonValue};

#[test]
fn test_kube_host_builder() {
    let host = KubeHost::from_hostname("localhost");
    assert_eq!(host.hostname, "localhost");
    assert_eq!(host.api_port, 6443);
    assert_eq!(host.kube_cluster, None);
    assert_eq!(host.api_url(), "https://localhost:6443");
}

#[test]
fn test_kube_host_with_port() {
    let host = KubeHost::from_hostname("localhost").with_port(8443);
    assert_eq!(host.hostname, "localhost");
    assert_eq!(host.api_port, 8443);
    assert_eq!(host.kube_cluster, None);
    assert_eq!(host.api_url(), "https://localhost:8443");
}

#[test]
fn test_kube_host_with_cluster() {
    let host = KubeHost::from_hostname("localhost").with_cluster("my-cluster");
    assert_eq!(host.hostname, "localhost");
    assert_eq!(host.api_port, 6443);
    assert_eq!(host.kube_cluster, Some("my-cluster".to_string()));
    assert_eq!(host.api_url(), "https://localhost:6443");
}

#[test]
fn kube_host_from_configured_host() {
    let mut host = Host::new("k8s.example.com".to_string(), HostCheck::Kubernetes);
    host.host_groups = vec!["group1".to_string(), "group2".to_string()];
    let kube = KubeHost::try_from_host(&host).unwrap();
    assert_eq!(kube.api_port, kube_port_default());
    assert_eq!(kube.host_groups, vec!["group1".to_string(), "group2".to_string()]);
    host.extra = vec![("api_port".to_string(), JsonValue::Number(JsonNumber::PosInt(8443)))];
    assert_eq!(KubeHost::try_from_host(&host).unwrap().api_port, 8443);
    host.extra = vec![("api_port".to_string(), JsonValue::Number(JsonNumber::PosInt(65536)))];
    assert_eq!(
        KubeHost::try_from_host(&host).unwrap_err(),
        MaremmaError::Configuration("api_port must be somewhere between 1 and 65535".to_string())
    );
    host.extra = vec![("api_port".to_string(), JsonValue::Number(JsonNumber::PosInt(65537)))];
    assert_eq!(
        KubeHost::try_from_host(&host).unwrap_err(),
        MaremmaError::Configuration("api_port must be somewhere between 1 and 65535".to_string())
    );
    host.extra = vec![("api_port".to_string(), JsonValue::Str("x".to_string()))];
    assert_eq!(
        KubeHost::try_from_host(&host).unwrap_err(),
        MaremmaError::Configuration("api_port must be a valid number".to_string())
    );
    host.extra = Vec::new();
    host.hostname = None;
    assert_eq!(
        KubeHost::try_from_host(&host).unwrap_err(),
        MaremmaError::Configuration("hostname is required".to_string())
    );
}

#[test]
fn host_checks_show_and_store() {
    assert_eq!(HostCheck::default(), HostCheck::Ping);
    assert_eq!(HostCheck::NoCheck.to_string(), "None");
    assert_eq!(HostCheck::Ssh.to_string(), "SSH");
    for c in [HostCheck::NoCheck, HostCheck::Ping, HostCheck::Ssh, HostCheck::Kubernetes] {
        assert_eq!(HostCheck::from_code(&c.code()), Some(c));
    }
}

#[test]
fn test_fakehost() {
    let host = FakeHost::try_from_config(&JsonValue::Object(Vec::new())).unwrap();
    assert!(host.services.is_empty());
    assert_eq!(host.check_up(), Ok(true));
}

#[test]
fn ssh_host_defaults() {
    assert_eq!(default_ssh_port(), 22);
    assert_eq!(default_ssh_timeout_seconds(), 30);
    let host = SshHost::from_hostname("example.com").with_timeout(5);
    assert_eq!(host.timeout_seconds, 5);
    assert_eq!(host.connect_address(), "example.com:22");
}

#[test]
fn new_hosts_get_random_ids() {
    let a = Host::new("a".to_string(), HostCheck::Ping);
    let b = Host::new("b".to_string(), HostCheck::Ping);
    assert!(a.id.is_some() && b.id.is_some());
    assert_ne!(a.id, b.id);
}

#[test]
fn test_hostcheck_display() {
    for (check, result) in [
        (HostCheck::NoCheck, "None"),
        (HostCheck::Ping, "Ping"),
        (HostCheck::Ssh, "SSH"),
        (HostCheck::Kubernetes, "Kubernetes"),
    ] {
        assert_eq!(check.to_string(), result);
    }
}

#[test]
fn test_kube_host_try_from_config() {
    let config = JsonValue::Object(vec![
        ("hostname".to_string(), JsonValue::Str("localhost".to_string())),
        ("api_port".to_string(), JsonValue::Number(JsonNumber::PosInt(8443))),
        ("kube_cluster".to_string(), JsonValue::Str("my-cluster".to_string())),
        (
            "host_groups".to_string(),
            JsonValue::Array(vec![JsonValue::Str("group1".to_string()), JsonValue::Str("group2".to_string())]),
        ),
    ]);

    let host = KubeHost::try_from_config(&config).unwrap();
    assert_eq!(host.hostname, "localhost");
    assert_eq!(host.api_port, 8443);
    assert_eq!(host.kube_cluster, Some("my-cluster".to_string()));
    assert_eq!(host.host_groups, vec!["group1", "group2"]);
}

#[test]
fn kube_host_configs_that_are_refused() {
    let host = KubeHost::try_from_config(&JsonValue::Object(vec![(
        "hostname".to_string(),
        JsonValue::Str("localhost".to_string()),
    )]))
    .unwrap();
    assert_eq!(host.api_port, 6443);
    assert!(host.host_groups.is_empty());
    assert_eq!(host.ca_cert, None);
    for bad in [
        JsonValue::Object(Vec::new()),
        JsonValue::Object(vec![
            ("hostname".to_string(), JsonValue::Str("localhost".to_string())),
            ("api_port".to_string(), JsonValue::Number(JsonNumber::PosInt(0))),
        ]),
        JsonValue::Object(vec![
            ("hostname".to_string(), JsonValue::Str("localhost".to_string())),
            ("host_groups".to_string(), JsonValue::Array(vec![JsonValue::Bool(true)])),
        ]),
        JsonValue::Str("localhost".to_string()),
    ] {
        assert!(matches!(KubeHost::try_from_config(&bad), Err(MaremmaError::Deserialization(_))));
    }
}

#[test]
fn kube_hosts_written_as_lists() {
    let host = KubeHost::try_from_config(&JsonValue::Array(vec![
        JsonValue::Str("localhost".to_string()),
        JsonValue::Number(JsonNumber::PosInt(8443)),
        JsonValue::Null,
        JsonValue::Array(vec![JsonValue::Str("group1".to_string())]),
    ]))
    .unwrap();
    assert_eq!(host.hostname, "localhost");
    assert_eq!(host.api_port, 8443);
    assert_eq!(host.kube_cluster, None);
    assert_eq!(host.host_groups, vec!["group1"]);
    assert_eq!(host.ca_cert, None);
    for bad in [
        JsonValue::Array(vec![JsonValue::Str("localhost".to_string()), JsonValue::Number(JsonNumber::PosInt(8443))]),
        JsonValue::Array(vec![
            JsonValue::Str("localhost".to_string()),
            JsonValue::Number(JsonNumber::PosInt(8443)),
            JsonValue::Null,
            JsonValue::Array(Vec::new()),
            JsonValue::Null,
            JsonValue::Null,
        ]),
    ] {
        assert!(matches!(KubeHost::try_from_config(&bad), Err(MaremmaError::Deserialization(_))));
    }
}
