//! End-to-end exercises of the request handler over the in-memory store.

use user_service::dispatch::{render_response, Response, Status};
use user_service::handler::RequestHandler;
use user_service::store::{MemStore, StoreError};

fn ready_handler() -> RequestHandler {
    let mut store = MemStore::new();
    assert!(store.init().is_ok());
    RequestHandler::new(store)
}

fn req(text: &str) -> String {
    text.to_string()
}

fn assert_resp(r: &Response, status: Status, body: &str) {
    assert_eq!(r.status, status);
    assert_eq!(r.body, body);
}

#[test]
fn create_then_list_scenario() {
    let mut h = ready_handler();
    let r = h.handle_request(&req(
        "POST /users HTTP/1.1\r\nHost: localhost\r\nContent-Type: application/json\r\n\r\n{\"name\":\"Ada\",\"email\":\"ada@example.org\"}",
    ));
    assert_resp(&r, Status::Okay, "User created");
    assert_eq!(
        render_response(&r),
        "HTTP/1.1 200 OK\r\nContent-Type: application/json\r\n\r\nUser created"
    );
    let r = h.handle_request(&req("GET /users HTTP/1.1\r\nHost: localhost\r\n\r\n"));
    assert_resp(
        &r,
        Status::Okay,
        "[{\"id\":1,\"name\":\"Ada\",\"email\":\"ada@example.org\"}]",
    );
}

#[test]
fn round_trip_by_assigned_id() {
    let mut h = ready_handler();
    let r = h.handle_request(&req(
        "POST /users HTTP/1.1\r\n\r\n{\"name\":\"Grace\",\"email\":\"grace@example.org\"}",
    ));
    assert_resp(&r, Status::Okay, "User created");
    let r = h.handle_request(&req("GET /users/1 HTTP/1.1\r\n\r\n"));
    assert_resp(
        &r,
        Status::Okay,
        "{\"id\":1,\"name\":\"Grace\",\"email\":\"grace@example.org\"}",
    );
}

#[test]
fn init_twice_keeps_rows() {
    let mut store = MemStore::new();
    assert!(store.init().is_ok());
    assert!(store.create_user("Ada", "ada@example.org").is_ok());
    assert!(store.init().is_ok());
    let rows = store.get_all_users().unwrap();
    assert_eq!(rows.len(), 1);
    assert_eq!(rows[0].name, "Ada");
    assert_eq!(rows[0].id, Some(1));
}

#[test]
fn listing_after_delete() {
    let mut h = ready_handler();
    for i in 0..3 {
        let body = format!("{{\"name\":\"u{}\",\"email\":\"u{}@x\"}}", i, i);
        let r = h.handle_request(&format!("POST /users HTTP/1.1\r\n\r\n{}", body));
        assert_resp(&r, Status::Okay, "User created");
    }
    let r = h.handle_request(&req("DELETE /users/2 HTTP/1.1\r\n\r\n"));
    assert_resp(&r, Status::Okay, "User deleted");
    let r = h.handle_request(&req("GET /users HTTP/1.1\r\n\r\n"));
    assert_eq!(r.status, Status::Okay);
    assert_eq!(
        r.body,
        "[{\"id\":1,\"name\":\"u0\",\"email\":\"u0@x\"},{\"id\":3,\"name\":\"u2\",\"email\":\"u2@x\"}]",
    );
    assert!(!r.body.contains("\"id\":2"));
}

#[test]
fn update_changes_only_target() {
    let mut h = ready_handler();
    h.handle_request(&req("POST /users HTTP/1.1\r\n\r\n{\"name\":\"a\",\"email\":\"a@x\"}"));
    h.handle_request(&req("POST /users HTTP/1.1\r\n\r\n{\"name\":\"b\",\"email\":\"b@x\"}"));
    let r = h.handle_request(&req(
        "PUT /users/1 HTTP/1.1\r\n\r\n{\"name\":\"a2\",\"email\":\"a2@x\"}",
    ));
    assert_resp(&r, Status::Okay, "User updated");
    let r = h.handle_request(&req("GET /users/1 HTTP/1.1\r\n\r\n"));
    assert_resp(&r, Status::Okay, "{\"id\":1,\"name\":\"a2\",\"email\":\"a2@x\"}");
    let r = h.handle_request(&req("GET /users/2 HTTP/1.1\r\n\r\n"));
    assert_resp(&r, Status::Okay, "{\"id\":2,\"name\":\"b\",\"email\":\"b@x\"}");
}

#[test]
fn update_missing_id_reports_success() {
    let mut h = ready_handler();
    let r = h.handle_request(&req(
        "PUT /users/9 HTTP/1.1\r\n\r\n{\"name\":\"n\",\"email\":\"e\"}",
    ));
    assert_resp(&r, Status::Okay, "User updated");
}

#[test]
fn delete_missing_id_reports_success() {
    let mut h = ready_handler();
    let r = h.handle_request(&req("DELETE /users/9 HTTP/1.1\r\n\r\n"));
    assert_resp(&r, Status::Okay, "User deleted");
}

#[test]
fn unknown_id_is_not_found() {
    let mut h = ready_handler();
    let r = h.handle_request(&req("GET /users/42 HTTP/1.1\r\n\r\n"));
    assert_resp(&r, Status::NotFound, "User not found");
    assert_eq!(
        render_response(&r),
        "HTTP/1.1 404 NOT FOUND\r\n\r\nUser not found"
    );
}

#[test]
fn non_numeric_id_is_not_found() {
    let mut h = ready_handler();
    let r = h.handle_request(&req("GET /users/abc HTTP/1.1\r\n\r\n"));
    assert_resp(&r, Status::NotFound, "User not found");
    let r = h.handle_request(&req("GET /users/99999999999 HTTP/1.1\r\n\r\n"));
    assert_resp(&r, Status::NotFound, "User not found");
    let r = h.handle_request(&req("GET /users/ HTTP/1.1\r\n\r\n"));
    assert_resp(&r, Status::NotFound, "User not found");
}

#[test]
fn trailing_segment_is_ignored() {
    let mut h = ready_handler();
    h.handle_request(&req("POST /users HTTP/1.1\r\n\r\n{\"name\":\"a\",\"email\":\"a@x\"}"));
    let r = h.handle_request(&req("GET /users/1/extra HTTP/1.1\r\n\r\n"));
    assert_resp(&r, Status::Okay, "{\"id\":1,\"name\":\"a\",\"email\":\"a@x\"}");
}

#[test]
fn unmatched_routes_are_not_found() {
    let mut h = ready_handler();
    let r = h.handle_request(&req("PATCH /users HTTP/1.1\r\n\r\n"));
    assert_resp(&r, Status::NotFound, "404 Not Found");
    let r = h.handle_request(&req("GET /nope HTTP/1.1\r\n\r\n"));
    assert_resp(&r, Status::NotFound, "404 Not Found");
    let r = h.handle_request(&req("POST /users/1 HTTP/1.1\r\n\r\n{}"));
    assert_resp(&r, Status::NotFound, "404 Not Found");
    let r = h.handle_request(&req("post /users HTTP/1.1\r\n\r\n{}"));
    assert_resp(&r, Status::NotFound, "404 Not Found");
}

#[test]
fn short_request_line_is_not_found() {
    let mut h = ready_handler();
    let r = h.handle_request(&req(""));
    assert_resp(&r, Status::NotFound, "404 Not Found");
    let r = h.handle_request(&req("GET\r\n\r\n"));
    assert_resp(&r, Status::NotFound, "404 Not Found");
}

#[test]
fn malformed_body_creates_nothing() {
    let mut h = ready_handler();
    let r = h.handle_request(&req("POST /users HTTP/1.1\r\n\r\n{\"name\":\"Ada\"}"));
    assert_resp(&r, Status::ServerError, "Error");
    assert_eq!(
        render_response(&r),
        "HTTP/1.1 500 INTERNAL SERVER ERROR\r\n\r\nError"
    );
    let r = h.handle_request(&req("POST /users HTTP/1.1\r\n\r\nnot json"));
    assert_resp(&r, Status::ServerError, "Error");
    let r = h.handle_request(&req("POST /users HTTP/1.1"));
    assert_resp(&r, Status::ServerError, "Error");
    let r = h.handle_request(&req("GET /users HTTP/1.1\r\n\r\n"));
    assert_resp(&r, Status::Okay, "[]");
}

#[test]
fn uninitialized_store_reports_errors() {
    let mut store = MemStore::new();
    assert_eq!(store.create_user("a", "b"), Err(StoreError::Unavailable));
    assert!(matches!(store.get_user(1), Err(StoreError::Unavailable)));
    assert!(matches!(store.get_all_users(), Err(StoreError::Unavailable)));
    assert_eq!(store.update_user(1, "a", "b"), Err(StoreError::Unavailable));
    assert_eq!(store.delete_user(1), Err(StoreError::Unavailable));
}

#[test]
fn store_failures_map_per_route() {
    // A handler over a store whose schema was never initialized: every
    // operation fails, and each route maps the failure its own way.
    let mut h = RequestHandler::new(MemStore::new());
    let r = h.handle_request("POST /users HTTP/1.1\r\n\r\n{\"name\":\"a\",\"email\":\"b\"}");
    assert_resp(&r, Status::ServerError, "Error");
    let r = h.handle_request("GET /users/1 HTTP/1.1\r\n\r\n");
    assert_resp(&r, Status::NotFound, "User not found");
    let r = h.handle_request("GET /users HTTP/1.1\r\n\r\n");
    assert_resp(&r, Status::ServerError, "Error");
    let r = h.handle_request("PUT /users/1 HTTP/1.1\r\n\r\n{\"name\":\"a\",\"email\":\"b\"}");
    assert_resp(&r, Status::ServerError, "Error");
    let r = h.handle_request("DELETE /users/1 HTTP/1.1\r\n\r\n");
    assert_resp(&r, Status::NotFound, "User not found");
}

#[test]
fn missing_row_is_not_found_error() {
    let mut store = MemStore::new();
    store.init().unwrap();
    assert!(matches!(store.get_user(7), Err(StoreError::NotFound)));
    store.create_user("a", "a@x").unwrap();
    let u = store.get_user(1).unwrap();
    assert_eq!(u.id, Some(1));
    assert_eq!(u.name, "a");
    assert_eq!(u.email, "a@x");
}
