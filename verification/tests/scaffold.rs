use serde_json::Value;

use server_scaffold::config::{listen_address, resolve_port, ConfigError};
use server_scaffold::lifecycle::{advance, build_server, LifecycleEvent, Phase};
use server_scaffold::middleware::{
    complete_request, cors_headers, log_line, status_line, CorsPolicy, HandlerOutcome,
};
use server_scaffold::response::MakeResponse;
use server_scaffold::routes::{Method, RouteTable};

fn body(text: &str) -> Value {
    serde_json::from_str(text).unwrap()
}

#[test]
fn ok_passes_body_through() {
    let b = body("{\"answer\":42}");
    let r = MakeResponse::ok(b.clone());
    assert_eq!(r.status, 200);
    assert_eq!(r.body, b);
}

#[test]
fn bad_request_passes_body_through() {
    let b = body("{\"field\":\"missing\"}");
    let r = MakeResponse::bad_request(b.clone());
    assert_eq!(r.status, 400);
    assert_eq!(r.body, b);
}

#[test]
fn unauthorized_passes_body_through() {
    let b = body("\"no token\"");
    let r = MakeResponse::unauthorized(b.clone());
    assert_eq!(r.status, 401);
    assert_eq!(r.body, b);
}

#[test]
fn internal_server_error_is_fixed() {
    let r = MakeResponse::internal_server_error();
    assert_eq!(r.status, 500);
    assert_eq!(
        serde_json::to_string(&r.body).unwrap(),
        "{\"feedback\":\"Internal server error\"}"
    );
    let again = MakeResponse::internal_server_error();
    assert_eq!(again.status, 500);
    assert_eq!(again.body, r.body);
}

#[test]
fn last_registration_wins() {
    let routes = vec![
        (Method::Get, String::from("/a"), 1u32),
        (Method::Get, String::from("/b"), 2u32),
        (Method::Get, String::from("/a"), 3u32),
    ];
    let table = RouteTable::assemble(routes);
    assert_eq!(table.route_count(), 3);
    assert_eq!(table.dispatch(Method::Get, &String::from("/a")), Some(&3));
    assert_eq!(table.dispatch(Method::Get, &String::from("/b")), Some(&2));
}

#[test]
fn dispatch_misses_unregistered_keys() {
    let mut table: RouteTable<u32> = RouteTable::new();
    assert_eq!(table.dispatch(Method::Get, &String::from("/a")), None);
    table.register(Method::Get, String::from("/a"), 7);
    assert_eq!(table.dispatch(Method::Get, &String::from("/a")), Some(&7));
    assert_eq!(table.dispatch(Method::Post, &String::from("/a")), None);
    assert_eq!(table.dispatch(Method::Get, &String::from("/c")), None);
}

#[test]
fn method_distinguishes_routes() {
    let mut table: RouteTable<u32> = RouteTable::new();
    table.register(Method::Get, String::from("/thing"), 1);
    table.register(Method::Post, String::from("/thing"), 2);
    table.register(Method::Delete, String::from("/thing"), 3);
    assert_eq!(table.dispatch(Method::Get, &String::from("/thing")), Some(&1));
    assert_eq!(table.dispatch(Method::Post, &String::from("/thing")), Some(&2));
    assert_eq!(table.dispatch(Method::Delete, &String::from("/thing")), Some(&3));
    assert_eq!(table.dispatch(Method::Put, &String::from("/thing")), None);
    assert_eq!(table.dispatch(Method::Patch, &String::from("/thing")), None);
}

#[test]
fn environment_wins_over_file_value() {
    let r = resolve_port(Some(String::from("9000")), Some(String::from("8080")));
    assert_eq!(r, Ok(String::from("8080")));
}

#[test]
fn file_value_is_the_fallback() {
    let r = resolve_port(Some(String::from("9000")), None);
    assert_eq!(r, Ok(String::from("9000")));
}

#[test]
fn missing_port_is_a_configuration_error() {
    let r = resolve_port(None, None);
    assert_eq!(r, Err(ConfigError::MissingConfiguration));
}

#[test]
fn listen_address_binds_all_interfaces() {
    assert_eq!(listen_address(&String::from("8080")), "0.0.0.0:8080");
    assert_eq!(listen_address(&String::from("443")), "0.0.0.0:443");
}

#[test]
fn construction_fails_before_bind_without_port() {
    let routes = vec![(Method::Get, String::from("/health"), 1u32)];
    let r = build_server(routes, None, true, None, None);
    assert!(matches!(r, Err(ConfigError::MissingConfiguration)));
}

#[test]
fn cors_headers_carry_the_policy() {
    let policy = CorsPolicy {
        allow_origin: String::from("https://example.test"),
        allow_methods: String::from("GET, POST"),
        allow_headers: String::from("content-type"),
    };
    let hs = cors_headers(&policy);
    assert_eq!(hs.len(), 3);
    assert_eq!(
        hs[0],
        (
            String::from("access-control-allow-origin"),
            String::from("https://example.test")
        )
    );
    assert_eq!(
        hs[1],
        (
            String::from("access-control-allow-methods"),
            String::from("GET, POST")
        )
    );
    assert_eq!(
        hs[2],
        (
            String::from("access-control-allow-headers"),
            String::from("content-type")
        )
    );
}

#[test]
fn permissive_policy_allows_everything() {
    let p = CorsPolicy::permissive();
    assert_eq!(p.allow_origin, "*");
    assert_eq!(p.allow_methods, "*");
    assert_eq!(p.allow_headers, "*");
}

#[test]
fn configured_cors_appears_on_success_and_error() {
    let policy = CorsPolicy::permissive();
    let ok = HandlerOutcome::Completed(MakeResponse::ok(body("{}")));
    let (wire, _) = complete_request(
        &String::from("GET"),
        &String::from("/x"),
        ok,
        Some(&policy),
        false,
    );
    assert_eq!(wire.headers.len(), 3);
    assert_eq!(wire.headers[0].1, "*");

    let (wire, _) = complete_request(
        &String::from("GET"),
        &String::from("/x"),
        HandlerOutcome::Failed,
        Some(&policy),
        false,
    );
    assert_eq!(wire.status, 500);
    assert_eq!(wire.headers.len(), 3);
    assert_eq!(wire.headers[2].0, "access-control-allow-headers");
}

#[test]
fn omitted_cors_adds_no_headers() {
    let ok = HandlerOutcome::Completed(MakeResponse::ok(body("{}")));
    let (wire, _) = complete_request(&String::from("GET"), &String::from("/x"), ok, None, false);
    assert_eq!(wire.headers.len(), 0);
}

#[test]
fn status_lines_are_exact() {
    assert_eq!(status_line(200), "200 OK");
    assert_eq!(status_line(400), "400 Bad Request");
    assert_eq!(status_line(401), "401 Unauthorized");
    assert_eq!(status_line(500), "500 Internal Server Error");
}

#[test]
fn log_line_pairs_method_uri_and_status() {
    let line = log_line(&String::from("POST"), &String::from("/users"), 400);
    assert_eq!(line.tag, "POST /users");
    assert_eq!(line.message, "400 Bad Request");
}

#[test]
fn handler_failure_is_logged_as_the_final_500() {
    let (wire, line) = complete_request(
        &String::from("PUT"),
        &String::from("/item/9"),
        HandlerOutcome::Failed,
        None,
        true,
    );
    assert_eq!(wire.status, 500);
    assert_eq!(
        serde_json::to_string(&wire.body).unwrap(),
        "{\"feedback\":\"Internal server error\"}"
    );
    let line = line.expect("logging was configured");
    assert_eq!(line.tag, "PUT /item/9");
    assert_eq!(line.message, "500 Internal Server Error");
}

#[test]
fn logging_off_emits_no_line() {
    let ok = HandlerOutcome::Completed(MakeResponse::ok(body("{}")));
    let (_, line) = complete_request(&String::from("GET"), &String::from("/x"), ok, None, false);
    assert!(line.is_none());
}

#[test]
fn lifecycle_happy_path_and_terminal_failures() {
    let mut phase = Phase::Unconfigured;
    phase = advance(phase, LifecycleEvent::ConfigurationResolved);
    assert_eq!(phase, Phase::Configured);
    phase = advance(phase, LifecycleEvent::RoutesAssembled);
    assert_eq!(phase, Phase::Assembled);
    phase = advance(phase, LifecycleEvent::BindSucceeded);
    assert_eq!(phase, Phase::Bound);
    phase = advance(phase, LifecycleEvent::ServeStarted);
    assert_eq!(phase, Phase::Serving);
    phase = advance(phase, LifecycleEvent::ServeFailed);
    assert_eq!(phase, Phase::Terminated);
    for event in [
        LifecycleEvent::ConfigurationResolved,
        LifecycleEvent::RoutesAssembled,
        LifecycleEvent::BindSucceeded,
        LifecycleEvent::ServeStarted,
    ] {
        assert_eq!(advance(Phase::Terminated, event), Phase::Terminated);
    }
    assert_eq!(
        advance(Phase::Unconfigured, LifecycleEvent::ConfigurationMissing),
        Phase::Terminated
    );
    assert_eq!(
        advance(Phase::Assembled, LifecycleEvent::BindFailed),
        Phase::Terminated
    );
}

#[test]
fn health_check_scenario() {
    let routes = vec![(Method::Get, String::from("/health"), 1u32)];
    let server = build_server(routes, None, true, None, Some(String::from("8080")))
        .expect("a port was configured");
    let (table, cors, logging, address) = server.into_parts();
    assert_eq!(address, "0.0.0.0:8080");
    assert!(cors.is_none());
    assert!(logging);

    let handler = table.dispatch(Method::Get, &String::from("/health"));
    assert_eq!(handler, Some(&1));
    let response = MakeResponse::ok(body("{\"status\":\"up\"}"));
    let (wire, line) = complete_request(
        &String::from("GET"),
        &String::from("/health"),
        HandlerOutcome::Completed(response),
        cors.as_ref(),
        logging,
    );
    assert_eq!(wire.status, 200);
    assert_eq!(serde_json::to_string(&wire.body).unwrap(), "{\"status\":\"up\"}");
    assert_eq!(wire.headers.len(), 0);
    let line = line.expect("exactly one line is logged");
    assert_eq!(line.tag, "GET /health");
    assert_eq!(line.message, "200 OK");
}
