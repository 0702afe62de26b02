use authctx::event::Context;
use authctx::headers::ErrorKind;
use http::header::{HeaderMap, HeaderName, HeaderValue};

fn put(headers: &mut HeaderMap, name: &str, value: &str) {
    let name = HeaderName::from_bytes(name.as_bytes()).unwrap();
    headers.insert(name, HeaderValue::try_from(value).unwrap());
}

#[test]
fn from_request_valid() {
    let mut headers = HeaderMap::new();
    put(&mut headers, "Event-Slug", "wafflehacks");
    put(&mut headers, "Event-Organization-ID", "5");

    let context = Context::try_from(&headers).unwrap();
    assert_eq!(context.event, "wafflehacks");
    assert_eq!(context.organization_id, 5);
}

#[test]
fn from_request_missing_slug() {
    let mut headers = HeaderMap::new();
    put(&mut headers, "Event-Organization-ID", "5");

    let err = Context::try_from(&headers).unwrap_err();
    assert_eq!(err.name.as_str(), "event-slug");
    assert!(matches!(err.kind, ErrorKind::Missing));
}

#[test]
fn from_request_slug_only_accepts_ascii() {
    let mut headers = HeaderMap::new();
    put(&mut headers, "Event-Slug", "\u{f6}ne");
    put(&mut headers, "Event-Organization-ID", "5");

    let err = Context::try_from(&headers).unwrap_err();
    assert_eq!(err.name.as_str(), "event-slug");
    assert!(matches!(err.kind, ErrorKind::Error(_)));
}

#[test]
fn from_request_missing_organization_id() {
    let mut headers = HeaderMap::new();
    put(&mut headers, "event-slug", "wafflehacks");

    let err = Context::try_from(&headers).unwrap_err();
    assert_eq!(err.name.as_str(), "event-organization-id");
    assert!(matches!(err.kind, ErrorKind::Missing));
}

#[test]
fn from_request_invalid_organization_id() {
    let mut headers = HeaderMap::new();
    put(&mut headers, "Event-Slug", "testing");
    put(&mut headers, "Event-Organization-ID", "af");

    let err = Context::try_from(&headers).unwrap_err();
    assert_eq!(err.name.as_str(), "event-organization-id");
    assert!(matches!(err.kind, ErrorKind::Error(_)));
}

#[test]
fn into_headers() {
    let context = Context {
        event: String::from("wafflehacks"),
        organization_id: 6,
    };
    let headers = context.into_headers();

    assert_eq!(headers.get("event-slug").unwrap(), "wafflehacks");
    assert_eq!(headers.get("event-organization-id").unwrap(), "6");
}

#[test]
fn round_trip_context() {
    let context = Context {
        event: String::from("testing"),
        organization_id: 99,
    };

    let headers = context.clone().into_headers();
    let roundtripped = Context::try_from(&headers).unwrap();
    assert_eq!(context, roundtripped);
}
