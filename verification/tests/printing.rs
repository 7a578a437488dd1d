//! Tests of response rendering and of the outcome of a run.

use http_dispatch::cli::UsageError;
use http_dispatch::outcome::{finish, usage_outcome, version_outcome};
use http_dispatch::response::{Header, Response, render_response};

fn header(name: &str, value: &str) -> Header {
    Header { name: name.to_string(), value: value.to_string() }
}

fn ok_response() -> Response {
    Response {
        version: "HTTP/1.1".to_string(),
        status: "200 OK".to_string(),
        headers: vec![header("Content-Type", "text/plain"), header("X-Test", "1")],
    }
}

#[test]
fn renders_status_line_and_headers_without_separator() {
    let out = render_response(&ok_response());
    assert_eq!(out, "HTTP/1.1 200 OK\nContent-Type: text/plain\r\nX-Test: 1\r\n");
}

#[test]
fn renders_response_without_headers() {
    let resp = Response {
        version: "HTTP/1.0".to_string(),
        status: "404 Not Found".to_string(),
        headers: vec![],
    };
    assert_eq!(render_response(&resp), "HTTP/1.0 404 Not Found\n");
}

#[test]
fn successful_send_prints_rendering_and_exits_zero() {
    let o = finish(Ok(ok_response()));
    assert_eq!(o.exit_code, 0);
    assert_eq!(o.stdout, "HTTP/1.1 200 OK\nContent-Type: text/plain\r\nX-Test: 1\r\n");
    assert_eq!(o.stderr, "");
}

#[test]
fn failed_send_exits_nonzero_without_status_line() {
    let o = finish(Err("connection refused".to_string()));
    assert_ne!(o.exit_code, 0);
    assert_eq!(o.stdout, "");
    assert_eq!(o.stderr, "request failed: connection refused\n");
}

#[test]
fn version_outcome_prints_version_and_exits_zero() {
    let o = version_outcome();
    assert_eq!(o.exit_code, 0);
    assert_eq!(o.stdout, "http_dispatch 0.1.0\n");
    assert_eq!(o.stderr, "");
}

#[test]
fn usage_outcome_exits_nonzero_with_usage_line() {
    let o = usage_outcome(UsageError::BadMethod);
    assert_ne!(o.exit_code, 0);
    assert_eq!(o.stdout, "");
    assert_eq!(
        o.stderr,
        "error: the method must be get or post\nusage: http_dispatch [-m <get|post>] <URL>\n"
    );
}

#[test]
fn each_usage_error_names_its_cause() {
    let cases = [
        (UsageError::MissingUrl, "error: a non-empty URL is required"),
        (UsageError::BadMethod, "error: the method must be get or post"),
        (UsageError::DuplicateMethod, "error: the method option may appear only once"),
        (UsageError::MissingMethodValue, "error: the method option requires a value"),
        (UsageError::UnknownOption, "error: unrecognized option"),
        (UsageError::ExtraPositional, "error: too many arguments"),
    ];
    for (e, line) in cases {
        let o = usage_outcome(e);
        assert_ne!(o.exit_code, 0);
        assert!(o.stderr.starts_with(line), "stderr for {:?}: {}", e, o.stderr);
    }
}
