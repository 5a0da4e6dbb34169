use web_server::http::Route;
use web_server::http::build_response;
use web_server::http::decimal_string;
use web_server::http::route;
use web_server::http::starts_with;

#[test]
fn starts_with_agrees_with_prefixes() {
    assert!(starts_with("abc", ""));
    assert!(starts_with("abc", "a"));
    assert!(starts_with("abc", "abc"));
    assert!(!starts_with("abc", "abcd"));
    assert!(!starts_with("abc", "ac"));
    assert!(!starts_with("", "a"));
    assert!(starts_with("", ""));
}

#[test]
fn root_request_selects_the_root_route() {
    assert_eq!(route("GET / HTTP/1.1\r\nHost: localhost\r\n\r\n"), Route::Root);
}

#[test]
fn sleep_request_selects_the_sleep_route() {
    assert_eq!(route("GET /sleep HTTP/1.1\r\nHost: localhost\r\n\r\n"), Route::Sleep);
}

#[test]
fn other_requests_are_not_found() {
    assert_eq!(route("POST / HTTP/1.1\r\n"), Route::NotFound);
    assert_eq!(route("GET /favicon.ico HTTP/1.1\r\n"), Route::NotFound);
    assert_eq!(route("GET / HTTP/1.0\r\n"), Route::NotFound);
    assert_eq!(route(""), Route::NotFound);
}

#[test]
fn routes_pick_their_page_and_status() {
    assert_eq!(Route::Root.file_name(), "index.html");
    assert_eq!(Route::Sleep.file_name(), "index.html");
    assert_eq!(Route::NotFound.file_name(), "404.html");
    assert_eq!(Route::Root.status_line(), "200 OK");
    assert_eq!(Route::Sleep.status_line(), "200 OK");
    assert_eq!(Route::NotFound.status_line(), "404 NOT FOUND");
}

#[test]
fn decimal_renders_exact_numerals() {
    assert_eq!(decimal_string(0), "0");
    assert_eq!(decimal_string(7), "7");
    assert_eq!(decimal_string(10), "10");
    assert_eq!(decimal_string(405), "405");
    assert_eq!(decimal_string(90210), "90210");
    assert_eq!(decimal_string(usize::MAX), format!("{}", usize::MAX));
}

#[test]
fn response_carries_status_length_and_page() {
    let page = "hello";
    let response = build_response("200 OK", page.len(), page);
    assert_eq!(response, "HTTP/1.1 200 OK\r\nContent-Length: 5\r\n\r\nhello");
}

#[test]
fn response_for_an_empty_page_has_length_zero() {
    let response = build_response("404 NOT FOUND", 0, "");
    assert_eq!(response, "HTTP/1.1 404 NOT FOUND\r\nContent-Length: 0\r\n\r\n");
}

#[test]
fn response_length_counts_bytes_not_characters() {
    let page = "caf\u{e9}";
    assert_eq!(page.len(), 5);
    assert_eq!(page.chars().count(), 4);
    let response = build_response("200 OK", page.len(), page);
    assert_eq!(response, "HTTP/1.1 200 OK\r\nContent-Length: 5\r\n\r\ncaf\u{e9}");
}
