//! End-to-end tests of the response sequencer over observable sinks.

use std::cell::RefCell;
use std::rc::Rc;

use http_response::header::Headers;
use http_response::net::{ByteSink, IoError, MemSink};
use http_response::response::{Fresh, Response};
use http_response::status::StatusCode;
use http_response::version::HttpVersion;

/// A sink whose buffer outlives the response that owns it, with an optional
/// budget of writes accepted before every further write fails.
struct SharedSink {
    buf: Rc<RefCell<Vec<u8>>>,
    ok_writes: Option<usize>,
}

impl SharedSink {
    fn reliable(buf: &Rc<RefCell<Vec<u8>>>) -> SharedSink {
        SharedSink {
            buf: Rc::clone(buf),
            ok_writes: None,
        }
    }

    fn failing_after(buf: &Rc<RefCell<Vec<u8>>>, ok_writes: usize) -> SharedSink {
        SharedSink {
            buf: Rc::clone(buf),
            ok_writes: Some(ok_writes),
        }
    }
}

impl ByteSink for SharedSink {
    fn write(&mut self, data: &[u8]) -> Result<(), IoError> {
        match self.ok_writes {
            Some(0) => Err(IoError),
            Some(n) => {
                self.ok_writes = Some(n - 1);
                self.buf.borrow_mut().extend_from_slice(data);
                Ok(())
            }
            None => {
                self.buf.borrow_mut().extend_from_slice(data);
                Ok(())
            }
        }
    }

    fn flush(&mut self) -> Result<(), IoError> {
        Ok(())
    }
}

fn as_text(buf: &Rc<RefCell<Vec<u8>>>) -> String {
    String::from_utf8(buf.borrow().clone()).unwrap()
}

#[test]
fn scenario_basic_response() {
    let buf = Rc::new(RefCell::new(Vec::new()));
    let mut r = Response::new(SharedSink::reliable(&buf));
    r.headers_mut()
        .set(b"Content-Type".to_vec(), b"text/plain".to_vec());
    let mut s = r.start().unwrap();
    s.write(b"hi").unwrap();
    s.end().unwrap();

    let text = as_text(&buf);
    let split = text.find("\r\n\r\n").unwrap();
    let head = &text[..split];
    let body = &text[split + 4..];
    assert_eq!(body, "hi");
    let lines: Vec<&str> = head.split("\r\n").collect();
    assert_eq!(lines.len(), 3);
    assert_eq!(lines[0], "HTTP/1.1 200 OK");
    assert_eq!(lines[1], "Content-Type: text/plain");
    assert!(lines[2].starts_with("Date: "));
    assert!(lines[2].len() > "Date: ".len());
    assert_eq!(text.matches("Date: ").count(), 1);
    assert_eq!(text.matches("Content-Type").count(), 1);
}

#[test]
fn scenario_empty_headers() {
    let buf = Rc::new(RefCell::new(Vec::new()));
    let r = Response::new(SharedSink::reliable(&buf));
    let mut s = r.start().unwrap();
    s.write(b"").unwrap();
    s.end().unwrap();

    let text = as_text(&buf);
    assert!(text.starts_with("HTTP/1.1 200 OK\r\n"));
    assert!(text.ends_with("\r\n\r\n"));
    let head = &text[..text.len() - 4];
    let lines: Vec<&str> = head.split("\r\n").collect();
    assert_eq!(lines.len(), 2);
    assert!(lines[1].starts_with("Date: "));
}

#[test]
fn synthesized_date_is_current() {
    let before = time::OffsetDateTime::now_utc();
    let buf = Rc::new(RefCell::new(Vec::new()));
    let r = Response::new(SharedSink::reliable(&buf));
    let s = r.start().unwrap();
    s.end().unwrap();
    let after = time::OffsetDateTime::now_utc();

    let text = as_text(&buf);
    let date_line = text
        .split("\r\n")
        .find(|l| l.starts_with("Date: "))
        .unwrap();
    let value = &date_line["Date: ".len()..];
    let stamped =
        time::OffsetDateTime::parse(value, &time::format_description::well_known::Rfc2822)
            .unwrap();
    // The rendered stamp has whole-second precision, so allow one second of
    // slack on each side.
    assert!(stamped + time::Duration::seconds(1) >= before);
    assert!(stamped <= after + time::Duration::seconds(1));
}

#[test]
fn caller_date_not_altered() {
    let buf = Rc::new(RefCell::new(Vec::new()));
    let mut r = Response::new(SharedSink::reliable(&buf));
    r.headers_mut()
        .set(b"Date".to_vec(), b"Tue, 15 Nov 1994 08:12:31 GMT".to_vec());
    let s = r.start().unwrap();
    s.end().unwrap();

    let text = as_text(&buf);
    assert_eq!(
        text,
        "HTTP/1.1 200 OK\r\nDate: Tue, 15 Nov 1994 08:12:31 GMT\r\n\r\n"
    );
}

#[test]
fn lowercase_date_not_duplicated() {
    let buf = Rc::new(RefCell::new(Vec::new()));
    let mut r = Response::new(SharedSink::reliable(&buf));
    r.headers_mut()
        .set(b"date".to_vec(), b"Tue, 15 Nov 1994 08:12:31 GMT".to_vec());
    let s = r.start().unwrap();
    s.end().unwrap();

    let text = as_text(&buf);
    assert_eq!(
        text,
        "HTTP/1.1 200 OK\r\ndate: Tue, 15 Nov 1994 08:12:31 GMT\r\n\r\n"
    );
}

#[test]
fn header_lookup_ignores_ascii_case_when_asked() {
    let mut h = Headers::new();
    h.set(b"Content-Type".to_vec(), b"text/plain".to_vec());
    assert!(h.has_ignore_ascii_case(b"content-TYPE"));
    assert!(h.has_ignore_ascii_case(b"Content-Type"));
    assert!(!h.has_ignore_ascii_case(b"Content"));
    assert!(!h.has(b"content-type"));
}

#[test]
fn commit_failure_on_status_line_writes_nothing() {
    let buf = Rc::new(RefCell::new(Vec::new()));
    let mut r = Response::new(SharedSink::failing_after(&buf, 0));
    r.headers_mut().set(b"A".to_vec(), b"1".to_vec());
    assert!(r.start().is_err());
    assert!(buf.borrow().is_empty());
}

#[test]
fn commit_failure_attempts_no_later_line() {
    let buf = Rc::new(RefCell::new(Vec::new()));
    let mut r = Response::new(SharedSink::failing_after(&buf, 2));
    r.headers_mut().set(b"A".to_vec(), b"1".to_vec());
    r.headers_mut().set(b"B".to_vec(), b"2".to_vec());
    assert!(r.start().is_err());
    // The status line and the first header line were accepted; the line that
    // failed, and everything after it, never reached the sink.
    assert_eq!(as_text(&buf), "HTTP/1.1 200 OK\r\nA: 1\r\n");
}

#[test]
fn body_write_failure_is_reported() {
    let buf = Rc::new(RefCell::new(Vec::new()));
    // Three preamble writes (status line, Date line, blank line) succeed,
    // then the body write fails.
    let r = Response::new(SharedSink::failing_after(&buf, 3));
    let mut s = r.start().unwrap();
    assert_eq!(s.write(b"payload"), Err(IoError));
    let text = as_text(&buf);
    assert!(text.ends_with("\r\n\r\n"));
    assert!(!text.contains("payload"));
}

#[test]
fn status_can_be_changed_while_fresh() {
    let buf = Rc::new(RefCell::new(Vec::new()));
    let mut r = Response::new(SharedSink::reliable(&buf));
    assert_eq!(r.status(), StatusCode::Okay);
    *r.status_mut() = StatusCode::NotFound;
    assert_eq!(r.status(), StatusCode::NotFound);
    let s = r.start().unwrap();
    s.end().unwrap();
    assert!(as_text(&buf).starts_with("HTTP/1.1 404 Not Found\r\n"));
}

#[test]
fn construct_uses_given_parts() {
    let buf = Rc::new(RefCell::new(Vec::new()));
    let mut headers = Headers::new();
    headers.set(b"Retry-After".to_vec(), b"120".to_vec());
    let r = Response::<Fresh, SharedSink>::construct(
        HttpVersion::Http10,
        SharedSink::reliable(&buf),
        StatusCode::ServiceUnavailable,
        headers,
    );
    let s = r.start().unwrap();
    s.end().unwrap();
    let text = as_text(&buf);
    assert!(text.starts_with("HTTP/1.0 503 Service Unavailable\r\n"));
    assert!(text.contains("\r\nRetry-After: 120\r\n"));
}

#[test]
fn deconstruct_returns_parts() {
    let buf = Rc::new(RefCell::new(Vec::new()));
    let mut r = Response::new(SharedSink::reliable(&buf));
    r.headers_mut().set(b"A".to_vec(), b"1".to_vec());
    *r.status_mut() = StatusCode::Created;
    let (version, _sink, status, headers) = r.deconstruct();
    assert_eq!(version, HttpVersion::Http11);
    assert_eq!(status, StatusCode::Created);
    assert_eq!(headers.len(), 1);
    assert!(headers.has(b"A"));
    assert!(buf.borrow().is_empty());
}

#[test]
fn headers_set_replaces_in_place() {
    let mut h = Headers::new();
    h.set(b"A".to_vec(), b"1".to_vec());
    h.set(b"B".to_vec(), b"2".to_vec());
    h.set(b"A".to_vec(), b"3".to_vec());
    assert_eq!(h.len(), 2);
    let first = h.get(0);
    assert_eq!(first.0, b"A".to_vec());
    assert_eq!(first.1, b"3".to_vec());
    let second = h.get(1);
    assert_eq!(second.0, b"B".to_vec());
    assert_eq!(second.1, b"2".to_vec());
    assert!(h.has(b"A"));
    assert!(h.has(b"B"));
    assert!(!h.has(b"C"));
    assert!(!h.has(b"a"));
}

#[test]
fn status_codes_render_code_and_reason() {
    assert_eq!(StatusCode::Okay.code(), 200);
    assert_eq!(StatusCode::NoContent.code(), 204);
    assert_eq!(StatusCode::MovedPermanently.code(), 301);
    assert_eq!(StatusCode::BadRequest.code(), 400);
    assert_eq!(StatusCode::InternalServerError.code(), 500);
}

#[test]
fn mem_sink_accepts_every_byte() {
    let mut s = MemSink::new();
    s.write(b"abc").unwrap();
    s.write(b"").unwrap();
    s.flush().unwrap();
    s.write(b"d").unwrap();
    assert_eq!(s.data, b"abcd".to_vec());
}

#[test]
fn preamble_goes_through_mem_sink() {
    let r = Response::new(MemSink::new());
    let mut s = r.start().unwrap();
    s.write(b"x").unwrap();
    s.end().unwrap();
}
