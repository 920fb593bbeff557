//! End-to-end checks of the user service: store semantics, routing,
//! correlation handling and the per-request latency measurement.

use demo_server::router::{Method, RouteMatch};
use demo_server::service::{
    add_user, add_user_response, handle_request, read_user, read_user_response, run_requests,
    RequestInput,
};
use demo_server::store::{NewUser, ReadUser, StoreError, UserManager};
use demo_server::telemetry::resolve_correlation_id;
use demo_server::text::{parse_u32, parse_u8, str_eq};

#[test]
fn create_then_read_finds_user() {
    let mut store = UserManager::always_available();
    let id = store
        .create_with_id(NewUser::new("alice"), "id-alice", true)
        .expect("store is available");
    assert_eq!(id, "id-alice");

    let user = store
        .read_by_name(ReadUser::new("alice"))
        .expect("store is available")
        .expect("alice was stored");
    assert_eq!(user.name, "alice");
    assert_eq!(user.id, "id-alice");
}

#[test]
fn create_generates_fresh_36_char_ids() {
    let mut store = UserManager::always_available();
    let id1 = store.create(NewUser::new("alice")).expect("store is available");
    let id2 = store.create(NewUser::new("bob")).expect("store is available");
    assert_eq!(id1.len(), 36);
    assert_eq!(id2.len(), 36);
    assert_ne!(id1, id2);
}

#[test]
fn duplicate_names_corrupt_lookup() {
    let mut store = UserManager::always_available();
    store
        .create_with_id(NewUser::new("alice"), "id-1", true)
        .expect("store is available");
    store
        .create_with_id(NewUser::new("alice"), "id-2", true)
        .expect("store is available");
    let outcome = store.read_by_name(ReadUser::new("alice"));
    assert_eq!(outcome.unwrap_err(), StoreError::Corrupt);

    // The span record carries the kind, distinguishable from a transient
    // backend failure, while the client sees only the bare 500.
    let (resp, span) = handle_request(&mut store, Method::Get, "/users/read/alice", None, 9);
    assert_eq!(resp.status, 500);
    assert_eq!(resp.body, "");
    assert_eq!(span.error, Some(StoreError::Corrupt));
}

#[test]
fn missing_name_is_not_found_not_an_error() {
    let mut store = UserManager::always_available();
    store
        .create_with_id(NewUser::new("alice"), "id-1", true)
        .expect("store is available");
    let outcome = store.read_by_name(ReadUser::new("bob"));
    assert!(outcome.expect("a missing user is no error").is_none());
}

#[test]
fn unavailable_backend_reports_backend_error() {
    let mut store = UserManager::always_available();
    let refused = store.create_with_id(NewUser::new("alice"), "id-1", false);
    assert_eq!(refused.unwrap_err(), StoreError::BackendUnavailable);
    // The refused creation left nothing behind.
    let outcome = store.read_by_name(ReadUser::new("alice"));
    assert!(outcome.unwrap().is_none());
}

#[test]
fn distinct_concurrent_style_creates_lose_nothing() {
    let mut store = UserManager::always_available();
    let k = 5;
    for i in 0..k {
        let name = format!("user-{i}");
        let id = format!("id-{i}");
        store
            .create_with_id(NewUser::new(&name), &id, true)
            .expect("store is available");
    }
    let mut ids: Vec<String> = Vec::new();
    for i in 0..k {
        let name = format!("user-{i}");
        let user = store
            .read_by_name(ReadUser::new(&name))
            .expect("store is available")
            .expect("every name was stored");
        assert!(!ids.contains(&user.id));
        ids.push(user.id);
    }
    assert_eq!(ids.len(), k);
}

#[test]
fn handler_responses_follow_outcomes() {
    let ok = add_user_response(&Ok("id-1".to_string()));
    assert_eq!(ok.status, 200);
    assert_eq!(ok.body, "");
    let err = add_user_response(&Err(StoreError::BackendUnavailable));
    assert_eq!(err.status, 500);
    assert_eq!(err.body, "");

    let (resp, span_id) = read_user_response(Ok(None));
    assert_eq!(resp.status, 204);
    assert_eq!(resp.body, "no user found");
    assert_eq!(span_id, None);
    let (resp, span_id) = read_user_response(Err(StoreError::Corrupt));
    assert_eq!(resp.status, 500);
    assert_eq!(resp.body, "");
    assert_eq!(span_id, None);
}

#[test]
fn add_and_read_handlers() {
    let mut store = UserManager::always_available();
    let (resp, error) = add_user(&mut store, "alice");
    assert_eq!(resp.status, 200);
    assert_eq!(resp.body, "");
    assert_eq!(error, None);

    let (resp, span_id, error) = read_user(&mut store, "alice");
    assert_eq!(resp.status, 200);
    assert_eq!(error, None);
    let id = span_id.expect("a found user is recorded on the span");
    assert_eq!(id.len(), 36);
    assert_eq!(resp.body, format!("{id}:alice"));

    let (resp, span_id, error) = read_user(&mut store, "bob");
    assert_eq!(resp.status, 204);
    assert_eq!(resp.body, "no user found");
    assert_eq!(span_id, None);
    assert_eq!(error, None);
}

#[test]
fn scenario_add_read_hello() {
    let mut store = UserManager::always_available();

    let (resp, _) = handle_request(&mut store, Method::Post, "/users/add/alice", None, 10);
    assert_eq!(resp.status, 200);

    let (resp, span) = handle_request(&mut store, Method::Get, "/users/read/alice", None, 11);
    assert_eq!(resp.status, 200);
    let id = span.user_id.expect("the resolved user rides on the span");
    assert_eq!(id.len(), 36);
    assert_eq!(resp.body, format!("{id}:alice"));
    assert_eq!(span.pattern, "/users/read/{name}");

    let (resp, _) = handle_request(&mut store, Method::Get, "/users/read/bob", None, 12);
    assert_eq!(resp.status, 204);

    let (resp, span) = handle_request(&mut store, Method::Get, "/hello", None, 13);
    assert_eq!(resp.status, 200);
    assert_eq!(resp.body, "hello");
    assert_eq!(span.pattern, "/hello");

    let (resp, _) = handle_request(&mut store, Method::Get, "/nowhere", None, 14);
    assert_eq!(resp.status, 404);
}

#[test]
fn correlation_id_propagation() {
    let supplied = resolve_correlation_id(Some("abc-123"));
    assert_eq!(supplied, "abc-123");

    let fresh_1 = resolve_correlation_id(None);
    let fresh_2 = resolve_correlation_id(None);
    assert_eq!(fresh_1.len(), 36);
    assert_eq!(fresh_2.len(), 36);
    assert_ne!(fresh_1, fresh_2);

    // An empty header does not count as supplied.
    let fresh_3 = resolve_correlation_id(Some(""));
    assert_eq!(fresh_3.len(), 36);

    let mut store = UserManager::always_available();
    let (_, span) = handle_request(&mut store, Method::Get, "/hello", Some("abc-123"), 5);
    assert_eq!(span.correlation_id, "abc-123");
    let (_, span) = handle_request(&mut store, Method::Get, "/hello", None, 5);
    assert_eq!(span.correlation_id.len(), 36);
}

#[test]
fn one_latency_measurement_per_request() {
    let mut store = UserManager::always_available();
    let requests = vec![
        RequestInput {
            method: Method::Post,
            path: "/users/add/alice".to_string(),
            correlation_header: None,
            elapsed_micros: 100,
        },
        RequestInput {
            method: Method::Get,
            path: "/users/read/alice".to_string(),
            correlation_header: Some("abc-123".to_string()),
            elapsed_micros: 250,
        },
        RequestInput {
            method: Method::Get,
            path: "/hello".to_string(),
            correlation_header: None,
            elapsed_micros: 7,
        },
    ];
    let (responses, spans) = run_requests(&mut store, &requests);
    assert_eq!(responses.len(), 3);
    assert_eq!(spans.len(), 3);
    let latencies: Vec<u64> = spans.iter().map(|s| s.latency_micros).collect();
    assert_eq!(latencies, vec![100, 250, 7]);
    for (span, resp) in spans.iter().zip(responses.iter()) {
        assert_eq!(span.status, resp.status);
    }
    assert_eq!(spans[1].correlation_id, "abc-123");
}

#[test]
fn router_extracts_names() {
    match demo_server::router::route_request(Method::Post, "/users/add/zoe") {
        Some(RouteMatch::AddUser { name }) => assert_eq!(name, "zoe"),
        other => panic!("expected an add match, got {other:?}"),
    }
    match demo_server::router::route_request(Method::Get, "/users/read/zoe") {
        Some(RouteMatch::ReadUser { name }) => assert_eq!(name, "zoe"),
        other => panic!("expected a read match, got {other:?}"),
    }
    assert!(matches!(
        demo_server::router::route_request(Method::Get, "/hello"),
        Some(RouteMatch::Hello)
    ));
    // The wrong method does not match.
    assert!(demo_server::router::route_request(Method::Get, "/users/add/zoe").is_none());
    // A name segment may not be empty or hold a separator.
    assert!(demo_server::router::route_request(Method::Post, "/users/add/").is_none());
    assert!(demo_server::router::route_request(Method::Post, "/users/add/a/b").is_none());
}

#[test]
fn text_helpers_expected_values() {
    assert_eq!(parse_u32("75"), Some(75));
    assert_eq!(parse_u32("0"), Some(0));
    assert_eq!(parse_u32(""), None);
    assert_eq!(parse_u32("12a"), None);
    assert_eq!(parse_u32("4294967295"), Some(u32::MAX));
    assert_eq!(parse_u32("4294967296"), None);
    assert_eq!(parse_u8("255"), Some(255));
    assert_eq!(parse_u8("256"), None);
    assert!(str_eq("same", "same"));
    assert!(!str_eq("same", "sane"));
}
