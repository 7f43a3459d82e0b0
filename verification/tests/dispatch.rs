use civet::dispatch::{report_code, respond, Connection, HandlerOutcome, Termination};
use civet::request::RequestInfo;
use civet::response::Response;

fn field(text: &[u8]) -> Option<Vec<u8>> {
    let mut v = text.to_vec();
    v.push(0);
    Some(v)
}

fn snapshot() -> RequestInfo {
    RequestInfo {
        request_method: field(b"GET"),
        uri: field(b"/"),
        http_version: field(b"1.1"),
        query_string: None,
        remote_user: None,
        remote_addr: None,
        remote_ip: 0,
        remote_port: 0,
        is_ssl: false,
        headers: Vec::new(),
    }
}

#[test]
fn missing_snapshot_is_a_typed_error() {
    let r = Connection::new(None);
    assert_eq!(r.err(), Some("Couldn't get request info for connection".to_string()));
}

#[test]
fn available_snapshot_builds_the_facade() {
    let conn = Connection::new(Some(snapshot())).unwrap();
    assert_eq!(conn.request.method(), Some("GET".to_string()));
}

#[test]
fn teardown_owes_the_fallback_when_nothing_was_written() {
    let conn = Connection::new(Some(snapshot())).unwrap();
    let owed = conn.finalize();
    assert_eq!(owed, Some("HTTP/1.1 500 Internal Server Error\n".to_string()));
}

#[test]
fn teardown_owes_nothing_after_a_write() {
    let mut conn = Connection::new(Some(snapshot())).unwrap();
    conn.note_written();
    assert_eq!(conn.finalize(), None);
}

#[test]
fn failure_outcome_writes_exactly_one_500_line() {
    let out = respond(HandlerOutcome::Failure);
    let text = String::from_utf8(out).unwrap();
    assert_eq!(text, "HTTP/1.1 500 Internal Server Error\n");
    assert_eq!(text.matches('\n').count(), 1);
    assert_eq!(text.matches("HTTP/1.1").count(), 1);
}

#[test]
fn success_outcome_writes_the_serialized_response() {
    let r = Response {
        status: (200, "OK"),
        headers: vec![("X".to_string(), vec!["y".to_string()])],
        body: b"ok".to_vec(),
    };
    let out = respond(HandlerOutcome::Success(r));
    assert_eq!(out, b"HTTP/1.1 200 OK\r\nX: y\r\n\r\nok".to_vec());
}

#[test]
fn abnormal_termination_reports_zero() {
    assert_eq!(report_code(&Termination::Abnormal), 0);
    assert_eq!(report_code(&Termination::Completed), 1);
}

#[test]
fn failing_handlers_yield_independent_500_responses() {
    // Two requests whose handlers fail, dispatched back to back: each gets
    // its own synthetic 500 response, built from no shared mutable state.
    let first = respond(HandlerOutcome::Failure);
    let second = respond(HandlerOutcome::Failure);
    assert_eq!(first, second);
    assert!(String::from_utf8(first).unwrap().contains("500 Internal"));

    let c1 = Connection::new(Some(snapshot())).unwrap();
    let c2 = Connection::new(Some(snapshot())).unwrap();
    assert!(c1.finalize().is_some());
    assert!(c2.finalize().is_some());
}
