use maremma::splunk::{
    search_form, search_jobs_url, search_query, search_result_lines, search_timeout, search_window,
    splunk_auth, splunk_report, status_class, SplunkAnswer, SplunkAuth, StatusClass,
};

fn strings(v: &[&str]) -> Vec<String> {
    v.iter().map(|s| s.to_string()).collect()
}

#[test]
fn searches_for_a_host() {
    assert_eq!(
        search_query("web01", &Vec::new(), &Vec::new()),
        "| tstats count where host=\"web01\" index IN (_*, *) sourcetype=* by host | table count, host | search host=\"web01\""
    );
    assert_eq!(
        search_query("web01", &strings(&["main", "os"]), &strings(&["syslog"])),
        "| tstats count where host=\"web01\" index IN ( \"main\",\"os\" ) sourcetype IN ( \"syslog\" )  by host | table count, host | search host=\"web01\""
    );
}

#[test]
fn search_settings() {
    assert_eq!(search_jobs_url("splunk.example.com", None), "https://splunk.example.com:8089/services/search/jobs/");
    assert_eq!(search_jobs_url("splunk.example.com", Some(443)), "https://splunk.example.com:443/services/search/jobs/");
    assert_eq!(search_timeout(None), 30);
    assert_eq!(search_timeout(Some(5)), 5);

    let w = search_window(Some(1_700_000_000), Some("12"));
    assert_eq!(w.earliest_time, Some("1700000000".to_string()));
    assert_eq!(w.message, "over 1700000000");
    let w = search_window(None, Some("12"));
    assert_eq!(w.earliest_time, Some("-12h".to_string()));
    assert_eq!(w.message, "over -12 hours");
    let w = search_window(None, Some("a day"));
    assert_eq!(w.earliest_time, Some("-24h".to_string()));
    assert_eq!(w.message, "over -a day hours");
    let w = search_window(None, None);
    assert_eq!(w.earliest_time, None);
    assert_eq!(w.message, "");

    let form = search_form("search".to_string(), Some("-24h".to_string()), None);
    assert_eq!(
        form,
        vec![
            ("search".to_string(), "search".to_string()),
            ("output_mode".to_string(), "json".to_string()),
            ("exec_mode".to_string(), "oneshot".to_string()),
            ("earliest_time".to_string(), "-24h".to_string()),
        ]
    );
    assert_eq!(search_form("s".to_string(), None, Some("now".to_string())).len(), 4);
    assert_eq!(search_form("s".to_string(), None, None).len(), 3);
}

#[test]
fn splunk_credentials() {
    assert_eq!(
        splunk_auth(Some("admin".to_string()), Some("hunter2".to_string()), Some("token".to_string())),
        SplunkAuth::Basic { username: "admin".to_string(), password: "hunter2".to_string() }
    );
    assert_eq!(
        splunk_auth(Some("admin".to_string()), None, Some("token".to_string())),
        SplunkAuth::Bearer("token".to_string())
    );
    assert_eq!(splunk_auth(Some("admin".to_string()), None, None), SplunkAuth::Anonymous);
}

#[test]
fn splunk_answers() {
    assert_eq!(status_class(401), StatusClass::Unauthorized);
    assert_eq!(status_class(404), StatusClass::ClientError);
    assert_eq!(status_class(200), StatusClass::Proceed);
    assert_eq!(status_class(503), StatusClass::Proceed);

    let url = "https://splunk:8089/services/search/jobs/";
    let st = strings(&["syslog", "auth"]);
    let r = splunk_report(url, "web01", &st, "over -12 hours", SplunkAnswer::Count("42".to_string()));
    assert!(r.ok);
    assert!(!r.to_stderr);
    assert_eq!(r.text, "OK: Found host=web01 count=42  sourcetype IN (syslog,auth)over -12 hours");
    let r = splunk_report(url, "web01", &Vec::new(), "", SplunkAnswer::Count("7".to_string()));
    assert_eq!(r.text, "OK: Found host=web01 count=7 ");
    let r = splunk_report(url, "web01", &st, "", SplunkAnswer::NoEntries);
    assert!(!r.ok);
    assert_eq!(r.text, "CRITICAL: No results found for host=web01 sourcetype IN (syslog,auth)");
    let r = splunk_report(url, "web01", &st, "", SplunkAnswer::NoResult);
    assert!(r.to_stderr);
    assert_eq!(r.text, "CRITICAL: Expected 1 result, got 0\n");
    let r = splunk_report(url, "web01", &st, "", SplunkAnswer::Unauthorized);
    assert_eq!(r.text, "CRITICAL: Received 401 from Splunk, check your credentials");
    let r = splunk_report(url, "web01", &st, "", SplunkAnswer::ClientError { status: 404, body: "nope".to_string() });
    assert_eq!(r.text, "CRITICAL: Received client error from Splunk: 404 - body nope\n");
    let r = splunk_report(url, "web01", &st, "", SplunkAnswer::SendFailed("refused".to_string()));
    assert!(r.to_stderr);
    assert_eq!(r.text, "CRITICAL: Failed to send request to splunk at https://splunk:8089/services/search/jobs/: refused");
    let r = splunk_report(url, "web01", &st, "", SplunkAnswer::BodyUnreadable("eof".to_string()));
    assert_eq!(r.text, "CRITICAL: Failed to get response body from Splunk: eof");
    let r = splunk_report(url, "web01", &st, "", SplunkAnswer::CountUnreadable("missing field".to_string()));
    assert_eq!(r.text, "CRITICAL: Failed to parse count from result: missing field");
}

#[test]
fn result_lines_are_trimmed() {
    assert_eq!(
        search_result_lines("  {\"a\":1}  \r\n\n\t\n{\"b\":2}"),
        strings(&["{\"a\":1}", "{\"b\":2}"])
    );
    assert!(search_result_lines("").is_empty());
    assert!(search_result_lines("\n \n").is_empty());
}
