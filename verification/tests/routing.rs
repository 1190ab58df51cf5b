use demo_server::content::{content_type_name, startup_message, ContentType, BIND_ADDRESS, HEALTH_BODY, LANDING_PAGE};
use demo_server::router::{method_not_allowed, not_found, respond, Endpoint, Method, Response, RouteDecision, RouteTable};
use demo_server::text::str_eq;

#[test]
fn get_root_is_landing_page() {
    let table = RouteTable::new();
    let r: Response = table.handle_request(Method::Get, "/");
    assert_eq!(r.status, 200);
    assert_eq!(r.content_type, Some(ContentType::Html));
    assert_eq!(r.body, LANDING_PAGE);
    assert!(r.body.contains("<!DOCTYPE html>"));
    assert!(r.body.contains("Rust + Nix Demo"));
    // The document is served as authored: the crab emoji is the literal
    // character, not an HTML entity, and the character and byte counts pin
    // the exact text, whitespace included.
    assert!(r.body.contains('\u{1F980}'));
    assert_eq!(r.body.chars().count(), 1974);
    assert_eq!(r.body.len(), 1977);
}

#[test]
fn get_root_is_idempotent() {
    let table = RouteTable::new();
    let first = table.handle_request(Method::Get, "/");
    let second = table.handle_request(Method::Get, "/");
    assert_eq!(first.status, second.status);
    assert_eq!(first.content_type, second.content_type);
    assert_eq!(first.body.as_bytes(), second.body.as_bytes());
}

#[test]
fn get_health_is_ok() {
    let table = RouteTable::new();
    let r = table.handle_request(Method::Get, "/health");
    assert_eq!(r.status, 200);
    assert_eq!(r.content_type, Some(ContentType::Plain));
    assert_eq!(r.body, "OK");
    assert_eq!(r.body.len(), 2);
}

#[test]
fn get_unknown_paths_are_not_found() {
    let table = RouteTable::new();
    for path in ["/nonexistent", "/health/", "/HEALTH", "", "/index.html", "/ ", "/healt"] {
        let r = table.handle_request(Method::Get, path);
        assert_eq!(r.status, 404);
        assert_eq!(r.content_type, None);
        assert_eq!(r.body, "");
    }
}

#[test]
fn non_get_on_registered_paths_is_method_not_allowed() {
    let table = RouteTable::new();
    let methods = [
        Method::Head,
        Method::Post,
        Method::Put,
        Method::Delete,
        Method::Connect,
        Method::Options,
        Method::Trace,
        Method::Patch,
        Method::Other,
    ];
    for m in methods {
        for path in ["/", "/health"] {
            let r = table.handle_request(m, path);
            assert_eq!(r.status, 405);
            assert_ne!(r.status, 200);
            assert_eq!(r.body, "");
        }
    }
}

#[test]
fn non_get_on_unknown_path_is_not_found() {
    let table = RouteTable::new();
    let r = table.handle_request(Method::Post, "/nonexistent");
    assert_eq!(r.status, 404);
}

#[test]
fn health_then_unknown_scenario() {
    let table = RouteTable::new();
    let health = table.handle_request(Method::Get, "/health");
    assert_eq!(health.status, 200);
    assert_eq!(health.body, "OK");
    let missing = table.handle_request(Method::Get, "/nonexistent");
    assert_eq!(missing.status, 404);
}

#[test]
fn resolve_decisions() {
    let table = RouteTable::new();
    assert_eq!(table.resolve(Method::Get, "/"), RouteDecision::Dispatch(Endpoint::Landing));
    assert_eq!(table.resolve(Method::Get, "/health"), RouteDecision::Dispatch(Endpoint::Health));
    assert_eq!(table.resolve(Method::Get, "/other"), RouteDecision::PathNotFound);
    assert_eq!(table.resolve(Method::Post, "/"), RouteDecision::MethodNotAllowed);
    assert_eq!(table.resolve(Method::Put, "/health"), RouteDecision::MethodNotAllowed);
    assert_eq!(table.resolve(Method::Post, "/missing"), RouteDecision::PathNotFound);
}

#[test]
fn respond_returns_fixed_payloads() {
    let landing = respond(Endpoint::Landing);
    assert_eq!(landing.status, 200);
    assert_eq!(landing.body, LANDING_PAGE);
    let health = respond(Endpoint::Health);
    assert_eq!(health.status, 200);
    assert_eq!(health.body, HEALTH_BODY);
}

#[test]
fn rejection_responses() {
    let nf = not_found();
    assert_eq!(nf.status, 404);
    assert_eq!(nf.content_type, None);
    assert_eq!(nf.body, "");
    let mna = method_not_allowed();
    assert_eq!(mna.status, 405);
    assert_eq!(mna.content_type, None);
    assert_eq!(mna.body, "");
}

#[test]
fn content_type_names() {
    assert_eq!(content_type_name(ContentType::Html), "text/html");
    assert_eq!(content_type_name(ContentType::Plain), "text/plain");
}

#[test]
fn startup_message_names_the_address() {
    assert_eq!(BIND_ADDRESS, "0.0.0.0:3000");
    let msg = startup_message(BIND_ADDRESS);
    assert_eq!(msg, "Server running on http://0.0.0.0:3000");
}

#[test]
fn str_eq_compares_characters() {
    assert!(str_eq("", ""));
    assert!(str_eq("/health", "/health"));
    assert!(!str_eq("/health", "/Health"));
    assert!(!str_eq("/health", "/health/"));
    assert!(!str_eq("/", "/health"));
    assert!(str_eq("caf\u{e9}", "caf\u{e9}"));
    assert!(!str_eq("caf\u{e9}", "cafe"));
}
