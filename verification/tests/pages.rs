use thread_tracker::endpoints::{
    favicon, index, login_page, login_redirect, rocket, test_html, HttpMethod,
};
use thread_tracker::http::{not_found, oops};
use thread_tracker::model::ExistingUser;

const TEST_PAGE: &str = "<!DOCTYPE html>\n<html>\n<head><title>Thread Tracker - API Test</title></head>\n<body>\n<h1>API test harness</h1>\n<button data-path=\"/getthreads\">getthreads</button>\n<button data-path=\"/updatethread\">updatethread</button>\n<button data-path=\"/signout\">signout</button>\n<pre id=\"out\"></pre>\n</body>\n</html>\n";

#[test]
fn testing_page() {
    let app = rocket();
    assert!(app.routes.iter().any(|r| r.path == "/testhtml"));
    let response = test_html();
    assert_eq!(response.0, TEST_PAGE);
}

#[test]
fn home_page_needs_identity() {
    let user = ExistingUser { user_id: 7 };
    let page = index(&user);
    assert!(page.0.contains("<title>Thread Tracker</title>"));
    assert_eq!(login_redirect().target, "/login");
}

#[test]
fn login_page_markup() {
    let page = login_page();
    assert!(page.0.contains("action=\"/login\""));
    assert!(page.0.contains("action=\"/signup\""));
}

#[test]
fn favicon_bytes() {
    let icon = favicon();
    assert_eq!(icon.0, vec![0u8, 0, 1, 0, 0, 0]);
}

#[test]
fn catcher_bodies() {
    assert_eq!(not_found(), "404 funny not found");
    assert_eq!(oops(), "500: Oops all server error");
}

#[test]
fn route_table() {
    let app = rocket();
    assert!(app.db && app.cors);
    assert_eq!(app.catchers, vec![404, 500]);
    assert_eq!(app.routes.len(), 13);
    assert!(matches!(app.routes[0].method, HttpMethod::Options));
    assert_eq!(app.routes[0].path, "/<_..>");
    assert_eq!(app.routes[1].path, "/");
    assert_eq!(app.routes[1].rank, 1);
    assert_eq!(app.routes[8].path, "/");
    assert_eq!(app.routes[8].rank, 2);
    assert_eq!(app.routes[12].path, "/updatethreads");
}
