use civet::response::{fallback_line, response, serialize_response, write_head, Response};
use civet::status::StatusCode;

#[test]
fn response_builder_resolves_the_status() {
    let r = response(200, Vec::new(), Vec::new());
    assert_eq!(r.status, (200, "OK"));
    assert!(r.headers.is_empty());
    assert!(r.body.is_empty());
}

#[test]
fn response_builder_takes_named_statuses_and_pairs() {
    let r = response(StatusCode::NotFound, Vec::new(), b"gone".to_vec());
    assert_eq!(r.status, (404, "Not Found"));
    assert_eq!(r.body, b"gone".to_vec());

    let r = response((999u16, "Whatever"), Vec::new(), Vec::new());
    assert_eq!(r.status, (999, "Whatever"));
}

#[test]
fn response_builder_uses_band_fallback_reasons() {
    let r = response(418, Vec::new(), Vec::new());
    assert_eq!(r.status, (418, "Client Error"));
}

#[test]
fn head_is_status_line_headers_blank_line() {
    let r = Response {
        status: (200, "OK"),
        headers: vec![("Content-Type".to_string(), vec!["text/html".to_string()])],
        body: Vec::new(),
    };
    assert_eq!(write_head(&r), "HTTP/1.1 200 OK\r\nContent-Type: text/html\r\n\r\n");
}

#[test]
fn head_with_no_headers_is_status_line_and_blank_line() {
    let r = Response { status: (204, "No Content"), headers: Vec::new(), body: Vec::new() };
    assert_eq!(write_head(&r), "HTTP/1.1 204 No Content\r\n\r\n");
}

#[test]
fn multi_valued_headers_write_one_line_per_value() {
    let r = Response {
        status: (200, "OK"),
        headers: vec![
            ("Set-Cookie".to_string(), vec!["a=1".to_string(), "b=2".to_string()]),
            ("Server".to_string(), vec!["demo".to_string()]),
        ],
        body: Vec::new(),
    };
    assert_eq!(
        write_head(&r),
        "HTTP/1.1 200 OK\r\nSet-Cookie: a=1\r\nSet-Cookie: b=2\r\nServer: demo\r\n\r\n"
    );
}

#[test]
fn serialization_is_head_then_body() {
    let r = Response {
        status: (200, "OK"),
        headers: vec![("Content-Length".to_string(), vec!["2".to_string()])],
        body: b"hi".to_vec(),
    };
    let bytes = serialize_response(&r);
    assert_eq!(bytes, b"HTTP/1.1 200 OK\r\nContent-Length: 2\r\n\r\nhi".to_vec());
}

#[test]
fn header_bytes_precede_body_bytes() {
    let r = Response {
        status: (200, "OK"),
        headers: vec![("A".to_string(), vec!["1".to_string()])],
        body: b"BODY".to_vec(),
    };
    let bytes = serialize_response(&r);
    let text = String::from_utf8(bytes).unwrap();
    let blank = text.find("\r\n\r\n").expect("head must end with a blank line");
    assert!(text.find("A: 1").unwrap() < blank);
    assert_eq!(&text[blank + 4..], "BODY");
}

#[test]
fn fallback_is_a_single_500_status_line() {
    let line = fallback_line();
    assert_eq!(line, "HTTP/1.1 500 Internal Server Error\n");
    assert_eq!(line.matches('\n').count(), 1);
    assert!(line.contains("500 Internal"));
}
