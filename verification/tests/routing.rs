use liveness_probe::http::Method;
use liveness_probe::routing::handle;
use liveness_probe::routing::parse_method;
use liveness_probe::routing::respond;

#[test]
fn health_route_ok() {
    let r = respond("GET", "/health");
    assert_eq!(r.status, 200);
    assert_eq!(r.body, "OK");
    assert_eq!(r.content_type.as_deref(), Some("text/plain; charset=utf-8"));
}

#[test]
fn health_route_by_method_value() {
    let r = handle(Method::Get, "/health");
    assert_eq!(r.status, 200);
    assert_eq!(r.body, "OK");
    assert_eq!(r.content_type.as_deref(), Some("text/plain; charset=utf-8"));
}

#[test]
fn unknown_path_not_found() {
    for path in ["/", "/healthz", "/health/", "/HEALTH", "", "/health?x=1"] {
        let r = respond("GET", path);
        assert_eq!(r.status, 404);
        assert_eq!(r.body, "");
        assert_eq!(r.content_type, None);
    }
}

#[test]
fn wrong_method_on_health_not_found() {
    for name in ["HEAD", "POST", "PUT", "DELETE", "CONNECT", "OPTIONS", "TRACE", "PATCH"] {
        let r = respond(name, "/health");
        assert_eq!(r.status, 404);
        assert_eq!(r.body, "");
        assert_eq!(r.content_type, None);
    }
}

#[test]
fn unknown_method_name_not_found() {
    for name in ["BREW", "get", "", "G E T"] {
        let r = respond(name, "/health");
        assert_eq!(r.status, 404);
        assert_eq!(r.body, "");
    }
}

#[test]
fn parse_method_known_names() {
    assert_eq!(parse_method("GET"), Some(Method::Get));
    assert_eq!(parse_method("HEAD"), Some(Method::Head));
    assert_eq!(parse_method("POST"), Some(Method::Post));
    assert_eq!(parse_method("PUT"), Some(Method::Put));
    assert_eq!(parse_method("DELETE"), Some(Method::Delete));
    assert_eq!(parse_method("CONNECT"), Some(Method::Connect));
    assert_eq!(parse_method("OPTIONS"), Some(Method::Options));
    assert_eq!(parse_method("TRACE"), Some(Method::Trace));
    assert_eq!(parse_method("PATCH"), Some(Method::Patch));
}

#[test]
fn parse_method_unknown_names() {
    assert_eq!(parse_method("get"), None);
    assert_eq!(parse_method(""), None);
    assert_eq!(parse_method("GETS"), None);
    assert_eq!(parse_method("G E T"), None);
}

#[test]
fn repeated_health_calls_identical() {
    let first = respond("GET", "/health");
    for _ in 0..5 {
        let again = respond("GET", "/health");
        assert_eq!(again.status, first.status);
        assert_eq!(again.body, first.body);
        assert_eq!(again.content_type, first.content_type);
    }
}
