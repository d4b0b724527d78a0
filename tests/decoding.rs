use api_client::executor::{prepare, Outgoing};
use api_client::method::{parse_method, Method};
use api_client::request::{RawEntry, Request};
use api_client::text::decimal_text;

fn entry(method: &str, url: &str, body: Option<&str>) -> RawEntry {
    RawEntry {
        url: url.to_string(),
        method: method.to_string(),
        body: body.map(|b| b.to_string()),
    }
}

#[test]
fn supported_methods_decode() {
    for (text, method) in [
        ("GET", Method::Get),
        ("POST", Method::Post),
        ("DELETE", Method::Delete),
        ("PATCH", Method::Patch),
    ] {
        let request = match Request::try_from(entry(text, "http://example.test/a", Some("x"))) {
            Ok(r) => r,
            Err(e) => panic!("{} was refused: {}", text, e.message()),
        };
        assert_eq!(request.method, method);
        assert_eq!(request.url, "http://example.test/a");
        assert_eq!(request.body.as_deref(), Some("x"));
        assert_eq!(request.method.name(), text);
    }
}

#[test]
fn unsupported_methods_are_refused() {
    for text in ["PUT", "HEAD", "get", "Post", "", "GET "] {
        match Request::try_from(entry(text, "http://example.test/b", None)) {
            Ok(_) => panic!("{:?} was accepted", text),
            Err(e) => {
                assert_eq!(e.method, text);
                assert_eq!(e.url, "http://example.test/b");
                assert_eq!(
                    e.message(),
                    format!("Invalid method: {} to http://example.test/b", text)
                );
            }
        }
    }
}

#[test]
fn parse_method_is_exact() {
    assert_eq!(parse_method(&"DELETE".to_string()), Some(Method::Delete));
    assert_eq!(parse_method(&"delete".to_string()), None);
    assert_eq!(parse_method(&"TRACE".to_string()), None);
}

#[test]
fn only_post_carries_a_body() {
    for (method, expected) in [
        (Method::Get, None),
        (Method::Delete, None),
        (Method::Patch, None),
        (Method::Post, Some("payload")),
    ] {
        let request = Request {
            url: "http://example.test/c".to_string(),
            method,
            body: Some("payload".to_string()),
        };
        let out: Outgoing = prepare(request).expect("executable method");
        assert_eq!(out.method, method);
        assert_eq!(out.url, "http://example.test/c");
        assert_eq!(out.body.as_deref(), expected);
    }
}

#[test]
fn post_without_body_sends_empty_text() {
    let request = Request {
        url: "http://example.test/d".to_string(),
        method: Method::Post,
        body: None,
    };
    let out = prepare(request).expect("POST is executable");
    assert_eq!(out.body.as_deref(), Some(""));
}

#[test]
fn other_methods_are_invalid_at_execution() {
    for method in [Method::Put, Method::Head, Method::Options, Method::Connect, Method::Trace] {
        let request = Request {
            url: "http://example.test/e".to_string(),
            method,
            body: None,
        };
        match prepare(request) {
            Ok(_) => panic!("{:?} was prepared", method),
            Err(m) => assert_eq!(m, "Invalid method"),
        }
    }
}

#[test]
fn decimal_notation() {
    assert_eq!(decimal_text(0), "0");
    assert_eq!(decimal_text(7), "7");
    assert_eq!(decimal_text(404), "404");
    assert_eq!(decimal_text(1000), "1000");
    assert_eq!(decimal_text(65535), "65535");
}
