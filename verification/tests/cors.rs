use thread_tracker::http::{not_found, oops, Cors, Response};

fn header_value<'a>(response: &'a Response, name: &str) -> Option<&'a str> {
    response.headers.iter().rev().find(|h| h.name == name).map(|h| h.value.as_str())
}

fn assert_cors_headers(response: &Response) {
    assert_eq!(header_value(response, "Access-Control-Allow-Origin"), Some("*"));
    assert_eq!(
        header_value(response, "Access-Control-Allow-Methods"),
        Some("POST, PATCH, PUT, DELETE, HEAD, OPTIONS, GET")
    );
    assert_eq!(header_value(response, "Access-Control-Allow-Headers"), Some("*"));
    assert_eq!(header_value(response, "Access-Control-Allow-Credentials"), Some("true"));
}

#[test]
fn preflight_response_carries_cors_headers() {
    // the OPTIONS catch-all answers with an empty 200
    let mut response = Response::new(200, String::new());
    Cors.on_response(&mut response);
    assert_eq!(response.status, 200);
    assert_eq!(response.body, "");
    assert_cors_headers(&response);
}

#[test]
fn catcher_responses_carry_cors_headers() {
    let mut missing = Response::new(404, not_found().to_string());
    Cors.on_response(&mut missing);
    assert_eq!(missing.body, "404 funny not found");
    assert_cors_headers(&missing);

    let mut broken = Response::new(500, oops().to_string());
    Cors.on_response(&mut broken);
    assert_eq!(broken.body, "500: Oops all server error");
    assert_cors_headers(&broken);
}

#[test]
fn fairing_hooks_responses() {
    let info = Cors.info();
    assert_eq!(info.name, "Cross-Origin-Resource-Sharing Fairing");
    assert!(info.kind_response);
}

#[test]
fn fairing_leaves_other_headers_alone() {
    let mut response = Response::new(200, "ok".to_string());
    response.set_header("X-Request-Id".to_string(), "abc123".to_string());
    Cors.on_response(&mut response);
    assert_eq!(header_value(&response, "X-Request-Id"), Some("abc123"));
    assert_cors_headers(&response);
}

#[test]
fn later_header_setting_wins() {
    let mut response = Response::new(200, "ok".to_string());
    response.set_header("X-Check".to_string(), "first".to_string());
    response.set_header("X-Check".to_string(), "second".to_string());
    assert_eq!(header_value(&response, "X-Check"), Some("second"));
}
