use webserver::http::{content_type_from_path_extension, send};
use webserver::log::LogRecord;
use webserver::middleware::resolve_fs_path;
use webserver::request::{parse_request_line, utf8};
use webserver::server::{ClientConnection, ReadOutcome, ReadStep};
use webserver::strutil::{find_char, rfind_char, str_eq, u64_to_string};

#[test]
fn content_type_table() {
    assert_eq!(content_type_from_path_extension("/app.js"), Some("text/javascript"));
    assert_eq!(content_type_from_path_extension("/site.css"), Some("text/css"));
    assert_eq!(content_type_from_path_extension("/index.html"), Some("text/html"));
    assert_eq!(content_type_from_path_extension("/notes.txt"), None);
    assert_eq!(content_type_from_path_extension("/README"), None);
    // the last dot decides
    assert_eq!(content_type_from_path_extension("/a.js.css"), Some("text/css"));
    assert_eq!(content_type_from_path_extension(""), None);
}

#[test]
fn parse_full_request_line() {
    let r = parse_request_line("GET /a/b?x=1&y=2 HTTP/1.1\r\n");
    assert_eq!(r.verb, "GET");
    assert_eq!(r.path_and_query, "/a/b?x=1&y=2");
    assert_eq!(r.path, "/a/b");
    assert_eq!(r.query, "?x=1&y=2");
}

#[test]
fn parse_line_without_query() {
    let r = parse_request_line("GET /index.html HTTP/1.1\r\n");
    assert_eq!(r.verb, "GET");
    assert_eq!(r.path_and_query, "/index.html");
    assert_eq!(r.path, "/index.html");
    assert_eq!(r.query, "");
}

#[test]
fn parse_line_without_version() {
    let r = parse_request_line("GET /x\r\n");
    assert_eq!(r.verb, "GET");
    assert_eq!(r.path_and_query, "/x");
}

#[test]
fn parse_degenerate_lines() {
    let r = parse_request_line("");
    assert_eq!(r.verb, "");
    assert_eq!(r.path_and_query, "");
    assert_eq!(r.path, "");
    assert_eq!(r.query, "");

    let r = parse_request_line("GET\r\n");
    assert_eq!(r.verb, "GET");
    assert_eq!(r.path_and_query, "");

    let r = parse_request_line("\r\n");
    assert_eq!(r.verb, "");
    assert_eq!(r.path_and_query, "");
}

#[test]
fn response_wire_format() {
    let r = send(200, "OK", "hi");
    assert_eq!(r.status, 200);
    assert_eq!(r.body, b"hi".to_vec());
    assert_eq!(
        r.header_string(),
        "HTTP/1.1 200 OK\r\nContent-Type: text/html\r\nContent-Length: 2\r\n\r\n"
    );
    let r = send(404, "Not Found", "");
    assert_eq!(
        r.header_string(),
        "HTTP/1.1 404 Not Found\r\nContent-Type: text/html\r\nContent-Length: 0\r\n\r\n"
    );
}

#[test]
fn decimal_rendering() {
    assert_eq!(u64_to_string(0), "0");
    assert_eq!(u64_to_string(7), "7");
    assert_eq!(u64_to_string(10), "10");
    assert_eq!(u64_to_string(4096), "4096");
    assert_eq!(u64_to_string(u64::MAX), "18446744073709551615");
}

#[test]
fn log_line_rendering() {
    let rec = LogRecord {
        client_id: 3,
        request_count: 2,
        status: 200,
        verb: "GET".to_string(),
        path_and_query: "/x?q=1".to_string(),
    };
    assert_eq!(rec.render(), "3 2 200 GET /x?q=1");
}

#[test]
fn filesystem_path_resolution() {
    assert_eq!(resolve_fs_path("www", "/index.html"), "www/index.html");
    assert_eq!(resolve_fs_path("../", "/index.html"), "../index.html");
    assert_eq!(resolve_fs_path("www", "//twice.js"), "www/twice.js");
    assert_eq!(resolve_fs_path("www", "plain.css"), "www/plain.css");
    assert_eq!(resolve_fs_path("", "/a.js"), "/a.js");
}

#[test]
fn string_helpers() {
    assert!(str_eq("abc", "abc"));
    assert!(!str_eq("abc", "abd"));
    assert!(!str_eq("abc", "ab"));
    assert_eq!(find_char("a?b?c", '?'), Some(1));
    assert_eq!(find_char("abc", '?'), None);
    assert_eq!(rfind_char("a.b.c", '.'), Some(3));
    assert_eq!(rfind_char("abc", '.'), None);
}

#[test]
fn utf8_decoding() {
    assert_eq!(utf8(Some(b"abc")), Ok("abc"));
    assert_eq!(utf8(None), Ok(""));
    assert!(utf8(Some(&[0xff, 0xfe])).is_err());
}

#[test]
fn connection_lifecycle() {
    let mut c = ClientConnection::new(5);
    assert!(c.keep_alive);
    assert_eq!(c.request_count, 0);
    c.begin_request();
    assert_eq!(c.request_count, 1);

    // data keeps the loop alive
    let step = c.on_read(ReadOutcome::Data("GET / HTTP/1.1\r\n".to_string()));
    assert!(matches!(step, ReadStep::Dispatch(_)));
    assert!(c.keep_alive);

    // an idle timeout closes cleanly, with no error surfaced
    let step = c.on_read(ReadOutcome::TimedOut);
    assert!(matches!(step, ReadStep::CloseClean));
    assert!(!c.keep_alive);

    let mut c = ClientConnection::new(6);
    assert!(matches!(c.on_read(ReadOutcome::Closed), ReadStep::CloseClean));
    assert!(!c.keep_alive);

    let mut c = ClientConnection::new(7);
    assert!(matches!(c.on_read(ReadOutcome::Disconnected), ReadStep::CloseClean));
    assert!(!c.keep_alive);

    let mut c = ClientConnection::new(8);
    assert!(matches!(c.on_read(ReadOutcome::Failed), ReadStep::CloseError));
    assert!(!c.keep_alive);
}
