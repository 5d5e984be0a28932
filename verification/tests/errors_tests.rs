use maremma::errors::{id_to_uuid, ErrorBody, ErrorPage, MaremmaError};
use maremma::schedule::{check_prune_time, cron_task_should_run, CronSchedule};

#[test]
fn errors_are_answered_with_their_status() {
    assert_eq!(MaremmaError::CsrfTokenMissing.status_code(), 403);
    assert_eq!(MaremmaError::CsrfValidationFailed.status_code(), 403);
    assert_eq!(MaremmaError::Unauthorized.status_code(), 401);
    assert_eq!(MaremmaError::HostNotFound(1).status_code(), 404);
    assert_eq!(MaremmaError::ServiceNotFoundByName("x".to_string()).status_code(), 404);
    assert_eq!(MaremmaError::Timeout.status_code(), 500);
}

#[test]
fn error_responses() {
    let r = MaremmaError::CsrfTokenMissing.response();
    assert_eq!(r.status, 403);
    assert_eq!(r.body, ErrorBody::Text("CSRF Token wasn't found!".to_string()));
    let r = MaremmaError::HostNotFound(0).response();
    assert_eq!(r.status, 404);
    assert_eq!(
        r.body,
        ErrorBody::Page {
            title: "Host Not Found".to_string(),
            message: "No host found with ID 00000000-0000-0000-0000-000000000000".to_string()
        }
    );
    assert_eq!(
        MaremmaError::Generic("x".to_string()).response().body,
        ErrorBody::Text("Please see server logs".to_string())
    );
}

#[test]
fn test_to_uuid() {
    assert_eq!(id_to_uuid(5), Ok(5));
    assert_eq!(
        id_to_uuid(0),
        Err(MaremmaError::InvalidInput("Input value 0 can't be lower than or equal to 0".to_string()))
    );
    assert_eq!(
        id_to_uuid(-3),
        Err(MaremmaError::InvalidInput("Input value -3 can't be lower than or equal to 0".to_string()))
    );
}

#[test]
fn error_pages() {
    let page = ErrorPage::new("Oops", "it broke".to_string());
    assert_eq!(page.title, "Oops");
    assert_eq!(page.message, "it broke");
    assert_eq!(page.username, None);
}

#[test]
fn pruning_history_in_the_future_is_refused() {
    assert_eq!(check_prune_time(10, 5), Err(MaremmaError::DateIsInTheFuture));
    assert_eq!(check_prune_time(5, 10), Ok(()));
}

#[test]
fn cron_patterns_are_normalised_and_checked() {
    assert_eq!(CronSchedule::parse("@hourly").unwrap().pattern(), "0 * * * *");
    assert!(CronSchedule::parse("invalid").is_err());
    assert!(matches!(cron_task_should_run("bogus", 0, 0), Err(MaremmaError::CronParseError(_))));
    assert_eq!(cron_task_should_run("* * * * *", 1_700_000_000_000, 1_700_000_000_500), Ok(false));
    assert_eq!(cron_task_should_run("* * * * *", 1_700_000_000_000, 1_700_000_060_000), Ok(true));
}

#[test]
fn error_into_response() {
    let err = MaremmaError::Generic("test".to_string());
    let response = err.response();
    assert_eq!(response.status, 500);

    let err = MaremmaError::Generic("test".to_string());
    assert_eq!(err.status_code(), 500);
}

#[test]
fn errors_convert_to_their_status_codes() {
    for (err, code) in [
        (MaremmaError::CsrfTokenMissing, 403u16),
        (MaremmaError::Unauthorized, 401),
        (MaremmaError::ServiceCheckNotFound(7), 404),
        (MaremmaError::HostGroupNotFoundByName("g".to_string()), 404),
        (MaremmaError::Generic("x".to_string()), 500),
    ] {
        assert_eq!(u16::from(&err), code);
        assert_eq!(u16::from(err), code);
    }
}
