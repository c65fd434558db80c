use bytes::Bytes;
use reqwest_extra::{render_parts, ErrorWithBody, ResponseStatus, StatusCheck};

fn runtime() -> tokio::runtime::Runtime {
    tokio::runtime::Builder::new_current_thread().build().unwrap()
}

fn response(status: u16, body: &'static [u8]) -> reqwest::Response {
    let res = http::Response::builder()
        .status(status)
        .body(Bytes::from_static(body))
        .unwrap();
    reqwest::Response::from(res)
}

fn broken_response(status: u16) -> reqwest::Response {
    let chunks: Vec<Result<Bytes, std::io::Error>> = vec![
        Ok(Bytes::from_static(b"partial")),
        Err(std::io::Error::new(
            std::io::ErrorKind::ConnectionReset,
            "connection dropped",
        )),
    ];
    let body = reqwest::Body::wrap_stream(futures_util::stream::iter(chunks));
    let res = http::Response::builder().status(status).body(body).unwrap();
    reqwest::Response::from(res)
}

/// Checks the status and, on failure, drains the body into the error.
fn error_for_status_with_body(resp: reqwest::Response) -> Result<reqwest::Response, ErrorWithBody> {
    match resp.check_status() {
        StatusCheck::Passed(resp) => Ok(resp),
        StatusCheck::Failed(resp, inner) => {
            let body = runtime().block_on(resp.bytes());
            Err(ErrorWithBody::from_status_error(inner, body))
        }
    }
}

fn status_error(status: u16) -> reqwest::Error {
    match response(status, b"").check_status() {
        StatusCheck::Failed(_, e) => e,
        StatusCheck::Passed(_) => panic!("status {status} passed"),
    }
}

#[test]
fn ok_status_returns_response_with_body_unread() {
    let resp = error_for_status_with_body(response(200, b"hello, world")).unwrap();
    assert_eq!(resp.status().as_u16(), 200);
    let body = runtime().block_on(resp.bytes()).unwrap();
    assert_eq!(&body[..], b"hello, world");
}

#[test]
fn success_range_passes() {
    for code in [200u16, 204, 301, 302, 399] {
        match response(code, b"x").check_status() {
            StatusCheck::Passed(resp) => assert_eq!(resp.status().as_u16(), code),
            StatusCheck::Failed(_, e) => panic!("status {code} failed: {e}"),
        }
    }
}

#[test]
fn error_range_fails_with_status_error() {
    for code in [400u16, 404, 499, 500, 503, 599] {
        match response(code, b"x").check_status() {
            StatusCheck::Failed(resp, e) => {
                assert_eq!(resp.status().as_u16(), code);
                assert_eq!(e.status().map(|s| s.as_u16()), Some(code));
            }
            StatusCheck::Passed(_) => panic!("status {code} passed"),
        }
    }
}

#[test]
fn codes_outside_both_ranges_pass_as_reqwest_classifies_them() {
    for code in [101u16, 600, 999] {
        assert!(matches!(response(code, b"").check_status(), StatusCheck::Passed(_)));
    }
}

#[test]
fn forbidden_body_is_captured_and_rendered() {
    let err = error_for_status_with_body(response(403, b"Forbidden")).unwrap_err();
    let body = err.body().unwrap().as_ref().unwrap();
    assert_eq!(&body[..], b"Forbidden");
    assert_eq!(err.inner().status().map(|s| s.as_u16()), Some(403));
    assert_eq!(
        err.to_string(),
        format!("{}, body: b\"Forbidden\"", err.inner())
    );
    assert!(err.to_string().starts_with("HTTP status client error (403 Forbidden)"));
}

#[test]
fn empty_body_is_captured() {
    let err = error_for_status_with_body(response(404, b"")).unwrap_err();
    assert_eq!(err.body().unwrap().as_ref().unwrap().len(), 0);
    assert_eq!(err.to_string(), format!("{}, body: b\"\"", err.inner()));
}

#[test]
fn body_bytes_are_escaped_in_text() {
    let err = error_for_status_with_body(response(400, b"a\n\r\t\\\"\0\x7f\xff~")).unwrap_err();
    assert_eq!(
        err.to_string(),
        format!("{}, body: b\"a\\n\\r\\t\\\\\\\"\\0\\x7f\\xff~\"", err.inner())
    );
}

#[test]
fn body_read_failure_keeps_both_errors() {
    let err = error_for_status_with_body(broken_response(500)).unwrap_err();
    assert_eq!(err.inner().status().map(|s| s.as_u16()), Some(500));
    let read_error = err.body().unwrap().as_ref().unwrap_err();
    assert!(read_error.is_decode() || read_error.is_body());
    assert_eq!(
        err.to_string(),
        format!("{}, error reading body: {}", err.inner(), read_error)
    );
    assert!(err.to_string().starts_with("HTTP status server error (500 Internal Server Error)"));
}

#[test]
fn parts_give_back_the_same_text() {
    let err = error_for_status_with_body(response(429, b"slow down")).unwrap_err();
    let text = err.to_string();
    let (inner, body) = err.into_parts();
    assert_eq!(render_parts(&inner, &body), text);
    assert_eq!(&body.unwrap().unwrap()[..], b"slow down");
}

#[test]
fn into_inner_and_into_body() {
    let err = error_for_status_with_body(response(502, b"bad gateway")).unwrap_err();
    let inner_text = err.inner().to_string();
    assert_eq!(err.into_inner().to_string(), inner_text);
    let err = error_for_status_with_body(response(502, b"bad gateway")).unwrap_err();
    assert_eq!(&err.into_body().unwrap().unwrap()[..], b"bad gateway");
}

#[test]
fn url_attach_then_strip_matches_stripped() {
    let url = reqwest::Url::parse("https://example.com/secret?key=SECRET-REDACTED").unwrap();
    let err = error_for_status_with_body(response(401, b"no")).unwrap_err();
    let stripped_text = err.without_url().to_string();
    let err = error_for_status_with_body(response(401, b"no")).unwrap_err();
    let attached = err.with_url(url.clone());
    assert_eq!(attached.inner().url(), Some(&url));
    assert!(attached.to_string().contains("for url (https://example.com/secret?key="));
    let restored = attached.without_url();
    assert_eq!(restored.inner().url(), None);
    assert_eq!(restored.to_string(), stripped_text);
    assert_eq!(
        restored.to_string(),
        "HTTP status client error (401 Unauthorized), body: b\"no\""
    );
}

#[test]
fn url_round_trip_on_error_without_url() {
    let err = ErrorWithBody::from(status_error(418)).without_url();
    let before = err.to_string();
    let url = reqwest::Url::parse("http://localhost:8080/x").unwrap();
    let after = err.with_url(url).without_url().to_string();
    assert_eq!(after, before);
}

#[test]
fn from_error_has_no_body() {
    let inner = status_error(404);
    let inner_text = inner.to_string();
    let err = ErrorWithBody::from(inner);
    assert!(err.body().is_none());
    assert_eq!(err.to_string(), inner_text);
}

#[test]
fn mutable_accessors_change_the_parts() {
    let mut err = error_for_status_with_body(response(403, b"old")).unwrap_err();
    *err.body_mut().unwrap() = Ok(Bytes::from_static(b"new"));
    assert_eq!(err.to_string(), format!("{}, body: b\"new\"", err.inner()));
    let url = reqwest::Url::parse("http://a.test/").unwrap();
    let replaced = status_error(500).with_url(url.clone());
    *err.inner_mut() = replaced;
    assert_eq!(err.inner().url(), Some(&url));
    assert_eq!(err.inner().status().map(|s| s.as_u16()), Some(500));
    let mut plain = ErrorWithBody::from(status_error(400));
    assert!(plain.body_mut().is_none());
}
