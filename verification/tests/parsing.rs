use chttp::response::classify;
use chttp::response::HeaderLine;
use chttp::response::Response;
use chttp::text::fold;
use chttp::text::header_line;
use chttp::text::join;
use chttp::text::names_match;
use chttp::text::names_match_bytes;
use chttp::text::user_agent;
use chttp::text::visible;

fn field(name: &str, value: &str) -> HeaderLine {
    HeaderLine::Field(name.as_bytes().to_vec(), value.as_bytes().to_vec())
}

#[test]
fn status_lines() {
    assert_eq!(classify(b"HTTP/1.1 200 OK\r\n"), HeaderLine::Status(200));
    assert_eq!(classify(b"HTTP/1.0 404 Not Found\n"), HeaderLine::Status(404));
    assert_eq!(classify(b"HTTP/2 301 \r\n"), HeaderLine::Status(301));
    assert_eq!(classify(b"HTTP/2 204"), HeaderLine::Status(204));
    assert_eq!(classify(b"HTTP/1.1 999 Whatever it is"), HeaderLine::Status(999));
    assert_eq!(classify(b"HTTP/1.1 000 x"), HeaderLine::Status(0));
    // Only the code is read; what stands for the version is not looked at.
    assert_eq!(classify(b"HTTP/: 200\r\n"), HeaderLine::Status(200));
}

#[test]
fn broken_status_lines() {
    assert_eq!(classify(b"HTTP/1.1\r\n"), HeaderLine::Malformed);
    assert_eq!(classify(b"HTTP/1.1 \r\n"), HeaderLine::Malformed);
    assert_eq!(classify(b"HTTP/1.1 20 OK\r\n"), HeaderLine::Malformed);
    assert_eq!(classify(b"HTTP/1.1 2000 OK\r\n"), HeaderLine::Malformed);
    assert_eq!(classify(b"HTTP/1.1 2x0 OK\r\n"), HeaderLine::Malformed);
    assert_eq!(classify(b"HTTP/1.1  200 OK\r\n"), HeaderLine::Malformed);
    assert_eq!(classify(b"HTTP/1.1 200OK\r\n"), HeaderLine::Malformed);
    assert_eq!(classify(b"HTTP/1.1\t200 OK\r\n"), HeaderLine::Malformed);
}

#[test]
fn header_fields() {
    assert_eq!(classify(b"content-type: text/plain\r\n"), field("content-type", "text/plain"));
    assert_eq!(classify(b"Content-Length:12\r\n"), field("Content-Length", "12"));
    assert_eq!(classify(b"x: \t padded \t \r\n"), field("x", "padded"));
    assert_eq!(classify(b"x:a b\n"), field("x", "a b"));
    assert_eq!(classify(b"empty:\r\n"), field("empty", ""));
    assert_eq!(classify(b"blank:   \r\n"), field("blank", ""));
    assert_eq!(classify(b"date: Mon, 01 Jan 2024 10:00:00 GMT"), field("date", "Mon, 01 Jan 2024 10:00:00 GMT"));
    assert_eq!(classify(b"http/1.1: lower case is a header\r\n"), field("http/1.1", "lower case is a header"));
    assert_eq!(classify(b"x: keeps \r inside\r\n"), field("x", "keeps \r inside"));
}

#[test]
fn blank_and_malformed_lines() {
    assert_eq!(classify(b"\r\n"), HeaderLine::Blank);
    assert_eq!(classify(b"\n"), HeaderLine::Blank);
    assert_eq!(classify(b""), HeaderLine::Blank);
    assert_eq!(classify(b"\r"), HeaderLine::Malformed);
    assert_eq!(classify(b"no colon\r\n"), HeaderLine::Malformed);
    assert_eq!(classify(b": no name\r\n"), HeaderLine::Malformed);
    assert_eq!(classify(b" \r\n"), HeaderLine::Malformed);
}

#[test]
fn response_headers_are_found_by_name() {
    let response = Response {
        status: 200,
        headers: vec![
            (b"Content-Type".to_vec(), b"text/html".to_vec()),
            (b"set-cookie".to_vec(), b"a=1".to_vec()),
            (b"Set-Cookie".to_vec(), b"b=2".to_vec()),
        ],
    };
    assert_eq!(response.header(b"content-type"), Some(&b"text/html".to_vec()));
    assert_eq!(response.header(b"CONTENT-TYPE"), Some(&b"text/html".to_vec()));
    assert_eq!(response.header(b"SET-COOKIE"), Some(&b"a=1".to_vec()));
    assert_eq!(response.header(b"content"), None);
    assert_eq!(response.header(b""), None);
}

#[test]
fn joined_lists() {
    let list = |items: &[&str]| items.iter().map(|s| s.to_string()).collect::<Vec<_>>();
    assert_eq!(join(&list(&[]), ","), "");
    assert_eq!(join(&list(&["a"]), ","), "a");
    assert_eq!(join(&list(&["a", "b", "c"]), ","), "a,b,c");
    assert_eq!(join(&list(&["a", "", "c"]), ":"), "a::c");
    assert_eq!(join(&list(&["", ""]), ", "), ", ");
    assert_eq!(join(&list(&["x", "y"]), ""), "xy");
}

#[test]
fn header_line_and_product_token() {
    assert_eq!(header_line("accept", "*/*"), "accept: */*");
    assert_eq!(header_line("", ""), ": ");
    assert_eq!(user_agent("7.64.1", "0.5.0"), "curl/7.64.1 chttp/0.5.0");
    assert_eq!(user_agent("", ""), "curl/ chttp/");
}

#[test]
fn header_names_ignore_ascii_case() {
    assert_eq!(fold(b'A'), b'a');
    assert_eq!(fold(b'Z'), b'z');
    assert_eq!(fold(b'a'), b'a');
    assert_eq!(fold(b'@'), b'@');
    assert_eq!(fold(b'['), b'[');
    assert_eq!(fold(0xc4), 0xc4);
    assert!(names_match("User-Agent", "user-agent"));
    assert!(names_match("", ""));
    assert!(!names_match("user-agent", "user_agent"));
    assert!(!names_match("user-agent", "user-agen"));
    assert!(!names_match("Ä", "ä"));
    assert!(names_match_bytes(b"ETag", b"etag"));
    assert!(!names_match_bytes(b"@", b"`"));
}

#[test]
fn what_can_stand_in_a_header_value() {
    assert!(visible(""));
    assert!(visible("text/html; q=0.9, */*"));
    assert!(visible("tab\tand space"));
    assert!(visible(" ~"));
    assert!(!visible("line\nbreak"));
    assert!(!visible("carriage\rreturn"));
    assert!(!visible("zero\0byte"));
    assert!(!visible("delete\u{7f}"));
    assert!(!visible("caf\u{e9}"));
    assert!(!visible("\u{1f}"));
}
