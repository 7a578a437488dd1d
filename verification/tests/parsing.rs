//! Tests of argument parsing and request dispatch.

use http_dispatch::cli::{Cli, Invocation, Method, UsageError, method_of, parse_args};
use http_dispatch::dispatch::{Directive, RequestPlan, start};

fn args(v: &[&str]) -> Vec<String> {
    v.iter().map(|s| s.to_string()).collect()
}

#[test]
fn method_of_accepts_get_and_post_only() {
    assert_eq!(method_of("get"), Some(Method::Get));
    assert_eq!(method_of("post"), Some(Method::Post));
    assert_eq!(method_of("GET"), None);
    assert_eq!(method_of("put"), None);
    assert_eq!(method_of(""), None);
}

#[test]
fn default_method_is_get() {
    let r = parse_args(&args(&["http://example.com/"]));
    assert_eq!(
        r,
        Ok(Cli::Run(Invocation { method: Method::Get, url: "http://example.com/".to_string() }))
    );
}

#[test]
fn explicit_get_dispatches_get() {
    let d = start(&args(&["-m", "get", "http://example.com/"]));
    assert_eq!(d, Directive::Send(RequestPlan::Get("http://example.com/".to_string())));
}

#[test]
fn default_dispatches_get_never_post() {
    let d = start(&args(&["http://example.com/"]));
    match d {
        Directive::Send(RequestPlan::Get(url)) => assert_eq!(url, "http://example.com/"),
        other => panic!("expected a GET plan, got {:?}", other),
    }
}

#[test]
fn post_dispatches_post_with_exact_url() {
    let d = start(&args(&["--method", "post", "http://example.com/submit"]));
    assert_eq!(d, Directive::Send(RequestPlan::Post("http://example.com/submit".to_string())));
}

#[test]
fn invalid_method_never_sends() {
    let d = start(&args(&["-m", "delete", "http://example.com/"]));
    match d {
        Directive::Finish(o) => {
            assert_ne!(o.exit_code, 0);
            assert_eq!(o.stdout, "");
            assert!(o.stderr.contains("method"));
        }
        Directive::Send(_) => panic!("a rejected method must not reach the transport"),
    }
}

#[test]
fn invalid_method_is_bad_method() {
    let r = parse_args(&args(&["-m", "delete", "http://example.com/"]));
    assert_eq!(r, Err(UsageError::BadMethod));
}

#[test]
fn missing_url_is_rejected() {
    assert_eq!(parse_args(&args(&[])), Err(UsageError::MissingUrl));
    assert_eq!(parse_args(&args(&["-m", "get"])), Err(UsageError::MissingUrl));
}

#[test]
fn empty_url_is_rejected() {
    assert_eq!(parse_args(&args(&[""])), Err(UsageError::MissingUrl));
}

#[test]
fn duplicate_method_is_rejected() {
    let r = parse_args(&args(&["-m", "get", "--method", "post", "http://example.com/"]));
    assert_eq!(r, Err(UsageError::DuplicateMethod));
}

#[test]
fn method_without_value_is_rejected() {
    assert_eq!(parse_args(&args(&["http://example.com/", "-m"])), Err(UsageError::MissingMethodValue));
}

#[test]
fn unknown_option_is_rejected() {
    assert_eq!(parse_args(&args(&["-x", "http://example.com/"])), Err(UsageError::UnknownOption));
}

#[test]
fn extra_positional_is_rejected() {
    let r = parse_args(&args(&["http://example.com/", "http://example.org/"]));
    assert_eq!(r, Err(UsageError::ExtraPositional));
}

#[test]
fn version_flag_finishes_successfully() {
    let d = start(&args(&["-V"]));
    match d {
        Directive::Finish(o) => {
            assert_eq!(o.exit_code, 0);
            assert_eq!(o.stdout, "http_dispatch 0.1.0\n");
            assert_eq!(o.stderr, "");
        }
        Directive::Send(_) => panic!("a version request must not reach the transport"),
    }
}

#[test]
fn version_flag_wins_over_later_arguments() {
    let d = start(&args(&["--version", "http://example.com/"]));
    assert!(matches!(d, Directive::Finish(o) if o.exit_code == 0));
}

#[test]
fn parsing_is_idempotent() {
    let v = args(&["-m", "post", "http://example.com/"]);
    let first = parse_args(&v);
    let second = parse_args(&v);
    assert_eq!(first, second);
    let d1 = start(&v);
    let d2 = start(&v);
    assert_eq!(d1, d2);
}

#[test]
fn lone_dash_is_a_positional() {
    let r = parse_args(&args(&["-"]));
    assert_eq!(r, Ok(Cli::Run(Invocation { method: Method::Get, url: "-".to_string() })));
}
