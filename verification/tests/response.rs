use acme_req::response::{Body, Header, ReadEvent, ReadStep, Response};

fn with_headers(headers: Vec<Header>) -> Response {
    Response {
        status: 200,
        status_text: "OK".to_string(),
        headers,
        body: Body { received: Vec::new(), interrupted: false },
    }
}

fn header(name: &str, value: &str) -> Header {
    Header { name: name.to_string(), value: Some(value.to_string()) }
}

#[test]
fn content_type_defaults_to_text_plain() {
    assert_eq!(with_headers(vec![]).content_type(), "text/plain");
}

#[test]
fn content_type_is_cut_at_the_first_semicolon() {
    let res = with_headers(vec![header("Content-Type", "text/html; charset=ISO-8859-1; x=y")]);
    assert_eq!(res.content_type(), "text/html");
}

#[test]
fn content_type_without_parameters_is_whole() {
    let res = with_headers(vec![header("content-type", "application/jose+json")]);
    assert_eq!(res.content_type(), "application/jose+json");
}

#[test]
fn content_type_may_be_empty() {
    let res = with_headers(vec![header("content-type", ";charset=utf-8")]);
    assert_eq!(res.content_type(), "");
}

#[test]
fn content_type_of_an_unreadable_header_is_the_default() {
    let res = with_headers(vec![
        Header { name: "Content-Type".to_string(), value: None },
        header("content-type", "text/html"),
    ]);
    assert_eq!(res.content_type(), "text/plain");
}

#[test]
fn header_lookup_finds_by_name() {
    let res = with_headers(vec![header("ETag", "\"x\""), header("Retry-After", "120")]);
    assert_eq!(res.header("retry-after"), Some("120"));
    assert_eq!(res.header("etag"), Some("\"x\""));
    assert_eq!(res.header("retry"), None);
    assert_eq!(res.header(""), None);
}

#[test]
fn header_lookup_folds_ascii_only() {
    let res = with_headers(vec![header("X-\u{00c4}", "1")]);
    assert_eq!(res.header("x-\u{00c4}"), Some("1"));
    assert_eq!(res.header("x-\u{00e4}"), None);
}

#[test]
fn new_body_is_empty() {
    let body = Body::new();
    assert!(body.received.is_empty());
    assert!(!body.interrupted);
}

#[test]
fn body_gathers_data_in_order() {
    let mut body = Body::new();
    assert_eq!(body.accept(ReadEvent::Data(b"ab".to_vec())), ReadStep::Continue);
    assert_eq!(body.accept(ReadEvent::Data(Vec::new())), ReadStep::Continue);
    assert_eq!(body.accept(ReadEvent::Data(b"cde".to_vec())), ReadStep::Continue);
    assert_eq!(body.received, b"abcde".to_vec());
    assert!(!body.interrupted);
    assert_eq!(body.accept(ReadEvent::End), ReadStep::Stop);
    assert_eq!(body.received, b"abcde".to_vec());
    assert!(!body.interrupted);
}

#[test]
fn body_keeps_its_data_when_the_stream_fails() {
    let mut body = Body::new();
    assert_eq!(body.accept(ReadEvent::Data(b"abc".to_vec())), ReadStep::Continue);
    assert_eq!(body.accept(ReadEvent::Failed), ReadStep::Stop);
    assert_eq!(body.received, b"abc".to_vec());
    assert!(body.interrupted);
}

#[test]
fn body_notes_a_failure_before_any_data() {
    let mut body = Body::new();
    assert_eq!(body.accept(ReadEvent::Failed), ReadStep::Stop);
    assert!(body.received.is_empty());
    assert!(body.interrupted);
}
