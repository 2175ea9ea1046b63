use web_server::http::{build_response, decimal_string, route, str_eq, Resource};

#[test]
fn the_home_path_is_served_the_home_page() {
    let r = route("GET / HTTP/1.1");
    assert_eq!(r.status, 200);
    assert_eq!(r.resource, Resource::HomePage);
    assert!(!r.delay);
    assert_eq!(r.status_line(), "HTTP/1.1 200 OK");
    assert_eq!(r.file_name(), "index.html");
}

#[test]
fn the_sleep_path_delays_then_serves_the_home_page() {
    let r = route("GET /sleep HTTP/1.1");
    assert_eq!(r.status, 200);
    assert_eq!(r.resource, Resource::HomePage);
    assert!(r.delay);
    assert_eq!(r.status_line(), "HTTP/1.1 200 OK");
    assert_eq!(r.file_name(), "index.html");
}

#[test]
fn anything_else_is_answered_not_found() {
    for line in ["GET /missing HTTP/1.1", "POST / HTTP/1.1", "", "GET / HTTP/1.0"] {
        let r = route(line);
        assert_eq!(r.status, 404);
        assert_eq!(r.resource, Resource::MissingPage);
        assert!(!r.delay);
        assert_eq!(r.status_line(), "HTTP/1.1 404 NOT FOUND");
        assert_eq!(r.file_name(), "404.html");
    }
}

#[test]
fn string_comparison_agrees_with_equality() {
    assert!(str_eq("", ""));
    assert!(str_eq("abc", "abc"));
    assert!(!str_eq("abc", "abd"));
    assert!(!str_eq("abc", "abcd"));
    assert!(!str_eq("abcd", "abc"));
    assert!(str_eq("GET / HTTP/1.1", "GET / HTTP/1.1"));
}

#[test]
fn decimal_rendering_is_exact() {
    assert_eq!(decimal_string(0), "0");
    assert_eq!(decimal_string(7), "7");
    assert_eq!(decimal_string(10), "10");
    assert_eq!(decimal_string(42), "42");
    assert_eq!(decimal_string(100), "100");
    assert_eq!(decimal_string(12345), "12345");
    assert_eq!(decimal_string(usize::MAX), usize::MAX.to_string());
}

#[test]
fn a_response_carries_status_length_and_body() {
    let r = build_response("HTTP/1.1 200 OK", "hello");
    assert_eq!(r, "HTTP/1.1 200 OK\r\nContent-Length: 5\r\n\r\nhello");
}

#[test]
fn content_length_counts_bytes_not_characters() {
    // A two-byte character: the header must give the byte length.
    let r = build_response("HTTP/1.1 200 OK", "héllo");
    assert_eq!(r, "HTTP/1.1 200 OK\r\nContent-Length: 6\r\n\r\nhéllo");
}

#[test]
fn an_empty_body_has_length_zero() {
    let r = build_response("HTTP/1.1 404 NOT FOUND", "");
    assert_eq!(r, "HTTP/1.1 404 NOT FOUND\r\nContent-Length: 0\r\n\r\n");
}
