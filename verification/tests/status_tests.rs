use maremma::status::ServiceStatus;

#[test]
fn test_servicestatus_display() {
    let expected = [
        (ServiceStatus::OK, "Ok"),
        (ServiceStatus::Pending, "Pending"),
        (ServiceStatus::Critical, "Critical"),
        (ServiceStatus::Checking, "Checking"),
        (ServiceStatus::Warning, "Warning"),
        (ServiceStatus::Error, "Error"),
        (ServiceStatus::Unknown, "Unknown"),
        (ServiceStatus::Urgent, "Urgent"),
        (ServiceStatus::Disabled, "Disabled"),
    ];
    for (status, name) in expected {
        assert_eq!(status.to_string(), name);
    }
    assert_eq!(ServiceStatus::all().len(), 9);
}

#[test]
fn test_servicestatus_as_html_class_background() {
    assert_eq!(ServiceStatus::OK.as_html_class_background(), "success");
    assert_eq!(ServiceStatus::Critical.as_html_class_background(), "danger");
    assert_eq!(ServiceStatus::Checking.as_html_class_background(), "warning");
    assert_eq!(ServiceStatus::Pending.as_html_class_background(), "secondary");
    assert_eq!(ServiceStatus::Disabled.as_html_class_background(), "secondary");
    assert_eq!(ServiceStatus::Unknown.as_html_class_background(), "secondary");
    assert_eq!(ServiceStatus::Urgent.as_html_class_background(), "primary");
}

#[test]
fn test_servicestatus_as_html_class_text() {
    assert_eq!(ServiceStatus::OK.as_html_class_text(), "light");
    assert_eq!(ServiceStatus::Critical.as_html_class_text(), "dark");
    assert_eq!(ServiceStatus::Checking.as_html_class_text(), "light");
    assert_eq!(ServiceStatus::Pending.as_html_class_text(), "dark");
    assert_eq!(ServiceStatus::Disabled.as_html_class_text(), "dark");
    assert_eq!(ServiceStatus::Unknown.as_html_class_text(), "dark");
    assert_eq!(ServiceStatus::Urgent.as_html_class_text(), "light");
}

#[test]
fn test_servicestatus_order() {
    let ok: i8 = ServiceStatus::OK.into();
    assert_eq!(ok, 16);
    let mut list = ServiceStatus::all();
    list.sort_by_key(|s| s.severity());
    list.reverse();
    assert_eq!(
        list,
        vec![
            ServiceStatus::Critical,
            ServiceStatus::Error,
            ServiceStatus::Urgent,
            ServiceStatus::Checking,
            ServiceStatus::Warning,
            ServiceStatus::OK,
            ServiceStatus::Pending,
            ServiceStatus::Disabled,
            ServiceStatus::Unknown,
        ]
    );
    assert!(ServiceStatus::Critical > ServiceStatus::Warning);
    assert!(ServiceStatus::Unknown < ServiceStatus::Disabled);
}

#[test]
fn status_default_is_pending() {
    assert_eq!(ServiceStatus::default(), ServiceStatus::Pending);
}

#[test]
fn exit_codes_follow_the_plugin_convention() {
    assert_eq!(ServiceStatus::from_exit_code(Some(0)), ServiceStatus::OK);
    assert_eq!(ServiceStatus::from_exit_code(Some(1)), ServiceStatus::Warning);
    assert_eq!(ServiceStatus::from_exit_code(Some(2)), ServiceStatus::Critical);
    assert_eq!(ServiceStatus::from_exit_code(Some(3)), ServiceStatus::Unknown);
    assert_eq!(ServiceStatus::from_exit_code(None), ServiceStatus::Unknown);
}
