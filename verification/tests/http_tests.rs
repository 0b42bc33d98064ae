//! Tests of the HTTP adaptor surface.

use canister_engine::http::{http_request, http_request_update, HttpRequest};

fn sample_request() -> HttpRequest {
    HttpRequest {
        method: "GET".to_string(),
        url: "/counter".to_string(),
        headers: vec![("accept".to_string(), "application/octet-stream".to_string())],
        body: vec![],
    }
}

#[test]
fn http_request_asks_for_an_upgrade() {
    let response = http_request(&sample_request());
    assert_eq!(response.status_code, 204);
    assert_eq!(response.headers.len(), 1);
    assert_eq!(response.headers[0].0, "custom_header");
    assert_eq!(response.headers[0].1, "custom_value");
    assert_eq!(response.body, vec![1, 2, 3, 4]);
    assert_eq!(response.upgrade, Some(true));
}

#[test]
fn http_request_update_refuses_the_request() {
    let response = http_request_update(&sample_request());
    assert_eq!(response.status_code, 400);
    assert!(response.headers.is_empty());
    assert!(response.body.is_empty());
    assert_eq!(response.upgrade, None);
}
