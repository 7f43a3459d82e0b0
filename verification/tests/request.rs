use civet::headers::Header;
use civet::request::{parse_ipv4, parse_method, HttpVersion, Method, Request, RequestInfo, Scheme};

fn field(text: &[u8]) -> Option<Vec<u8>> {
    let mut v = text.to_vec();
    v.push(0);
    Some(v)
}

fn slot(name: &[u8], value: &[u8]) -> Header {
    Header { name: field(name), value: field(value) }
}

fn sample_request() -> Request {
    Request {
        info: RequestInfo {
            request_method: field(b"GET"),
            uri: field(b"/index.html"),
            http_version: field(b"1.1"),
            query_string: field(b"q=1"),
            remote_user: None,
            remote_addr: field(b"127.0.0.1"),
            remote_ip: 0x7f000001,
            remote_port: 8080,
            is_ssl: false,
            headers: vec![slot(b"Host", b"example.test"), slot(b"Content-Length", b"123")],
        },
    }
}

#[test]
fn facade_reports_the_request_line() {
    let req = sample_request();
    assert_eq!(req.method(), Some("GET".to_string()));
    assert_eq!(req.url(), Some("/index.html".to_string()));
    assert_eq!(req.http_version(), Some("1.1".to_string()));
    assert_eq!(req.query_string(), Some("q=1".to_string()));
    assert_eq!(req.remote_user(), None);
    assert_eq!(req.remote_ip(), 0x7f000001);
    assert!(!req.is_ssl());
}

#[test]
fn method_kind_covers_the_closed_set() {
    let cases: [(&[u8], Method); 10] = [
        (b"HEAD", Method::Head),
        (b"GET", Method::Get),
        (b"POST", Method::Post),
        (b"PUT", Method::Put),
        (b"DELETE", Method::Delete),
        (b"PATCH", Method::Patch),
        (b"PURGE", Method::Purge),
        (b"CONNECT", Method::Connect),
        (b"OPTIONS", Method::Options),
        (b"TRACE", Method::Trace),
    ];
    for (text, expected) in cases {
        let mut req = sample_request();
        req.info.request_method = field(text);
        assert_eq!(req.method_kind(), Some(expected));
    }
}

#[test]
fn unknown_method_text_is_rejected() {
    assert_eq!(parse_method("BREW"), None);
    assert_eq!(parse_method("get"), None);
    assert_eq!(parse_method(""), None);
    let mut req = sample_request();
    req.info.request_method = None;
    assert_eq!(req.method_kind(), None);
}

#[test]
fn version_maps_one_dot_zero_and_defaults_to_one_dot_one() {
    let mut req = sample_request();
    req.info.http_version = field(b"1.0");
    assert_eq!(req.version(), Some(HttpVersion { major: 1, minor: 0 }));
    req.info.http_version = field(b"1.1");
    assert_eq!(req.version(), Some(HttpVersion { major: 1, minor: 1 }));
    req.info.http_version = field(b"0.9");
    assert_eq!(req.version(), Some(HttpVersion { major: 1, minor: 1 }));
    req.info.http_version = None;
    assert_eq!(req.version(), None);
}

#[test]
fn scheme_follows_the_ssl_flag() {
    let mut req = sample_request();
    assert_eq!(req.scheme(), Scheme::Http);
    req.info.is_ssl = true;
    assert_eq!(req.scheme(), Scheme::Https);
    assert!(req.is_ssl());
}

#[test]
fn remote_ip_splits_into_octets() {
    let req = sample_request();
    assert_eq!(req.info.remote_ip_octets(), (127, 0, 0, 1));
    assert_eq!(req.info.remote_port(), 8080);
}

#[test]
fn remote_addr_defaults_when_absent() {
    let mut req = sample_request();
    assert_eq!(req.info.remote_addr(), "127.0.0.1".to_string());
    req.info.remote_addr = None;
    assert_eq!(req.info.remote_addr(), "0.0.0.0".to_string());
}

#[test]
fn content_length_parses_the_header() {
    let req = sample_request();
    assert_eq!(req.content_length(), Some(123));
}

#[test]
fn content_length_is_found_case_insensitively() {
    let mut req = sample_request();
    req.info.headers = vec![slot(b"CONTENT-LENGTH", b"42")];
    assert_eq!(req.content_length(), Some(42));
    assert_eq!(req.get_header("content-length"), Some("42".to_string()));
}

#[test]
fn content_length_rejects_non_numeric_text() {
    let mut req = sample_request();
    req.info.headers = vec![slot(b"Content-Length", b"abc")];
    assert_eq!(req.content_length(), None);
    req.info.headers = vec![slot(b"Content-Length", b"12x")];
    assert_eq!(req.content_length(), None);
    req.info.headers = vec![slot(b"Content-Length", b"")];
    assert_eq!(req.content_length(), None);
    req.info.headers = vec![];
    assert_eq!(req.content_length(), None);
}

#[test]
fn content_length_rejects_values_that_do_not_fit() {
    let mut req = sample_request();
    req.info.headers = vec![slot(b"Content-Length", b"18446744073709551615")];
    assert_eq!(req.content_length(), Some(u64::MAX));
    req.info.headers = vec![slot(b"Content-Length", b"18446744073709551616")];
    assert_eq!(req.content_length(), None);
}

#[test]
fn dotted_quads_parse_to_their_address() {
    assert_eq!(parse_ipv4("127.0.0.1"), Some(0x7f000001));
    assert_eq!(parse_ipv4("0.0.0.0"), Some(0));
    assert_eq!(parse_ipv4("255.255.255.255"), Some(u32::MAX));
    assert_eq!(parse_ipv4("192.168.001.010"), Some(0xc0a8010a));
}

#[test]
fn malformed_addresses_parse_to_nothing() {
    assert_eq!(parse_ipv4(""), None);
    assert_eq!(parse_ipv4("127.0.0"), None);
    assert_eq!(parse_ipv4("127.0.0.1.2"), None);
    assert_eq!(parse_ipv4("127.0.0."), None);
    assert_eq!(parse_ipv4(".0.0.1"), None);
    assert_eq!(parse_ipv4("256.0.0.1"), None);
    assert_eq!(parse_ipv4("127.0.0.one"), None);
    assert_eq!(parse_ipv4("127 .0.0.1"), None);
    assert_eq!(parse_ipv4("::1"), None);
}
