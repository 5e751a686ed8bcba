use simple_http_server::http::{
    build_response, file_name, route, status_line, str_eq, u64_to_string, Status,
};

#[test]
fn root_path_is_served() {
    let r = route("GET / HTTP/1.1");
    assert_eq!(r.status, Status::Okay);
    assert_eq!(r.delay_secs, 0);
}

#[test]
fn sleep_path_is_served_after_a_delay() {
    let r = route("GET /sleep HTTP/1.1");
    assert_eq!(r.status, Status::Okay);
    assert_eq!(r.delay_secs, 5);
}

#[test]
fn unknown_paths_are_not_found() {
    let r = route("GET /missing HTTP/1.1");
    assert_eq!(r.status, Status::NotFound);
    assert_eq!(r.delay_secs, 0);
    assert_eq!(route("").status, Status::NotFound);
    assert_eq!(route("POST / HTTP/1.1").status, Status::NotFound);
}

#[test]
fn status_lines_and_file_names() {
    assert_eq!(status_line(Status::Okay), "HTTP/1.1 200 OK");
    assert_eq!(status_line(Status::NotFound), "HTTP/1.1 404 NOT FOUND");
    assert_eq!(file_name(Status::Okay), "index.html");
    assert_eq!(file_name(Status::NotFound), "404.html");
}

#[test]
fn string_equality_is_exact() {
    assert!(str_eq("", ""));
    assert!(str_eq("abc", "abc"));
    assert!(!str_eq("abc", "abd"));
    assert!(!str_eq("abc", "abcd"));
    assert!(!str_eq("abcd", "abc"));
    assert!(str_eq("na\u{00ef}ve", "na\u{00ef}ve"));
    assert!(!str_eq("na\u{00ef}ve", "naive"));
}

#[test]
fn decimal_rendering() {
    assert_eq!(u64_to_string(0), "0");
    assert_eq!(u64_to_string(7), "7");
    assert_eq!(u64_to_string(10), "10");
    assert_eq!(u64_to_string(12345), "12345");
    assert_eq!(u64_to_string(u64::MAX), "18446744073709551615");
}

#[test]
fn responses_are_assembled_exactly() {
    assert_eq!(
        build_response(Status::Okay, "hello"),
        "HTTP/1.1 200 OK\r\nContent-Length: 5\r\n\r\nhello"
    );
    assert_eq!(
        build_response(Status::NotFound, ""),
        "HTTP/1.1 404 NOT FOUND\r\nContent-Length: 0\r\n\r\n"
    );
    // The content length counts bytes, not characters.
    assert_eq!(
        build_response(Status::Okay, "\u{00e9}"),
        "HTTP/1.1 200 OK\r\nContent-Length: 2\r\n\r\n\u{00e9}"
    );
}
