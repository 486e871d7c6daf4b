use std::io::Read;

use acme_req::normalize::{req_expect_header, req_handle_error};
use acme_req::response::{
    req_safe_read_body, Body, Header, ReadEvent, ReadStep, RequestError, Response,
};

fn parsed(text: &str) -> ureq::Response {
    match text.parse::<ureq::Response>() {
        Ok(r) => r,
        Err(e) => panic!("no response: {}", e),
    }
}

fn taken(res: ureq::Response) -> Response {
    let status = res.status();
    let status_text = res.status_text().to_string();
    let mut headers = Vec::new();
    for name in res.headers_names() {
        let value = res.header(&name).map(|v| v.to_string());
        headers.push(Header { name, value });
    }
    let body = read_all(res.into_reader(), 8192);
    Response { status, status_text, headers, body }
}

fn read_all(mut reader: impl Read, at_a_time: usize) -> Body {
    let mut body = Body::new();
    let mut chunk = vec![0u8; at_a_time];
    loop {
        let event = match reader.read(&mut chunk) {
            Ok(0) => ReadEvent::End,
            Ok(n) => ReadEvent::Data(chunk[..n].to_vec()),
            Err(_) => ReadEvent::Failed,
        };
        if body.accept(event) == ReadStep::Stop {
            return body;
        }
    }
}

/// A stream that hands out its bytes and then fails instead of ending.
struct Torn {
    bytes: Vec<u8>,
    at: usize,
}

impl Read for Torn {
    fn read(&mut self, buf: &mut [u8]) -> std::io::Result<usize> {
        if self.at == self.bytes.len() {
            return Err(std::io::Error::new(std::io::ErrorKind::UnexpectedEof, "peer closed"));
        }
        let n = buf.len().min(self.bytes.len() - self.at);
        buf[..n].copy_from_slice(&self.bytes[self.at..self.at + n]);
        self.at += n;
        Ok(n)
    }
}

const SAMPLES: [&str; 8] = [
    "HTTP/1.1 200 OK\r\n\r\n",
    "HTTP/1.1 200 OK\r\nContent-Type: text/html; charset=ISO-8859-1\r\n\r\n<p>hi</p>",
    "HTTP/1.1 400 Bad Request\r\ncontent-type: application/problem+json\r\nReplay-Nonce: abc\r\n\r\n{\"type\":\"urn:x\"}",
    "HTTP/1.1 400 Bad Request\r\nCONTENT-TYPE:   application/problem+json;charset=utf-8  \r\n\r\n{}",
    "HTTP/1.1 503 Service Unavailable\r\nRetry-After: 5\r\nretry-after: 7\r\n\r\nlater",
    "HTTP/1.1 500 Internal Server Error\r\nContent-Type: ;\r\nLink: <https://a/b>;rel=\"index\"\r\n\r\n",
    "HTTP/1.1 404 Not Found\r\nX-A: 1\r\nContent-Type: text/plain\r\nContent-Type: text/html\r\n\r\nmissing",
    "HTTP/1.1 204 \r\nLocation: https://example.org/acct/1\r\n\r\n",
];

const NAMES: [&str; 10] = [
    "content-type",
    "Content-Type",
    "CONTENT-TYPE",
    "retry-after",
    "Retry-After",
    "replay-nonce",
    "link",
    "location",
    "x-a",
    "x-b",
];

#[test]
fn status_line_agrees_with_ureq() {
    for sample in SAMPLES {
        let theirs = parsed(sample);
        let ours = taken(parsed(sample));
        assert_eq!(ours.status, theirs.status(), "{:?}", sample);
        assert_eq!(ours.status_text, theirs.status_text(), "{:?}", sample);
    }
}

#[test]
fn header_lookup_agrees_with_ureq() {
    for sample in SAMPLES {
        let theirs = parsed(sample);
        let ours = taken(parsed(sample));
        for name in NAMES {
            assert_eq!(ours.header(name), theirs.header(name), "{:?} {:?}", sample, name);
        }
    }
}

#[test]
fn content_type_agrees_with_ureq() {
    for sample in SAMPLES {
        let theirs = parsed(sample);
        let ours = taken(parsed(sample));
        assert_eq!(ours.content_type(), theirs.content_type(), "{:?}", sample);
    }
}

#[test]
fn expect_header_agrees_with_ureq() {
    for sample in SAMPLES {
        let theirs = parsed(sample);
        let ours = taken(parsed(sample));
        for name in NAMES {
            match (req_expect_header(&ours, name), theirs.header(name)) {
                (Ok(v), Some(w)) => assert_eq!(v, w),
                (Err(p), None) => {
                    assert_eq!(p._type, format!("Missing header: {}", name));
                    assert_eq!(p.detail, None);
                    assert!(p.subproblems.is_none());
                },
                (ours, theirs) => panic!("{:?} {:?}: {:?} and {:?}", sample, name, ours, theirs),
            }
        }
    }
}

#[test]
fn body_agrees_with_read_to_string() {
    for sample in SAMPLES {
        let mut theirs = String::new();
        parsed(sample).into_reader().read_to_string(&mut theirs).ok();
        assert_eq!(req_safe_read_body(taken(parsed(sample))), theirs, "{:?}", sample);
    }
}

#[test]
fn generic_detail_agrees_with_formatting() {
    for sample in SAMPLES {
        let theirs = parsed(sample);
        if theirs.content_type() == "application/problem+json" {
            continue;
        }
        let status = theirs.status();
        let line = format!("{} {}", status, theirs.status_text());
        let mut body = String::new();
        theirs.into_reader().read_to_string(&mut body).ok();
        let expected = format!("{} body: {}", line, body);
        let p = req_handle_error(Err(RequestError::Status(status, taken(parsed(sample)))))
            .expect_err("an error status is a problem");
        assert_eq!(p._type, "httpReqError");
        assert_eq!(p.detail, Some(expected), "{:?}", sample);
        assert!(p.subproblems.is_none());
    }
}

#[test]
fn response_made_by_ureq_is_normalised() {
    let res = match ureq::Response::new(500, "Internal Server Error", "Server Error") {
        Ok(r) => r,
        Err(e) => panic!("no response: {}", e),
    };
    let p = req_handle_error(Err(RequestError::Status(500, taken(res))))
        .expect_err("an error status is a problem");
    assert_eq!(p._type, "httpReqError");
    assert_eq!(p.detail.as_deref(), Some("500 Internal Server Error body: Server Error"));
}

#[test]
fn decoding_agrees_with_serde_json_on_the_message() {
    for body in ["not json", "", "{", "{\"type\":\"x\",}", "[1,2", "\"open", "nul", "{\"a\":1} 2"] {
        let theirs = match serde_json::from_str::<serde_json::Value>(body) {
            Ok(v) => panic!("{:?} reads as {:?}", body, v),
            Err(e) => e.to_string(),
        };
        let sample = format!(
            "HTTP/1.1 400 Bad Request\r\nContent-Type: application/problem+json\r\n\r\n{}",
            body
        );
        let p = req_handle_error(Err(RequestError::Status(400, taken(parsed(&sample)))))
            .expect_err("an error status is a problem");
        assert_eq!(p._type, "problemJsonFail");
        assert_eq!(
            p.detail,
            Some(format!(
                "Failed to deserialize application/problem+json ({}) body: {}",
                theirs, body
            ))
        );
    }
}

#[test]
fn torn_stream_reads_as_read_to_string_does() {
    for text in ["", "x", "{\"type\":\"urn:x\"}", "gr\u{00fc}\u{00df}e \u{2713} and more"] {
        for at_a_time in [1usize, 2, 3, 7, 64] {
            let mut theirs = String::new();
            let failed = Torn { bytes: text.as_bytes().to_vec(), at: 0 }
                .read_to_string(&mut theirs)
                .is_err();
            assert!(failed);
            let body = read_all(Torn { bytes: text.as_bytes().to_vec(), at: 0 }, at_a_time);
            assert!(body.interrupted);
            assert_eq!(body.received, text.as_bytes());
            let ours = req_safe_read_body(Response {
                status: 200,
                status_text: "OK".to_string(),
                headers: vec![],
                body,
            });
            assert_eq!(ours, theirs);
            assert_eq!(ours, text);
        }
    }
}

#[test]
fn torn_stream_of_broken_text_reads_as_read_to_string_does() {
    let bytes = vec![b'o', b'k', 0xe2, 0x9c];
    let mut theirs = String::new();
    Torn { bytes: bytes.clone(), at: 0 }.read_to_string(&mut theirs).ok();
    let body = read_all(Torn { bytes, at: 0 }, 3);
    let ours = req_safe_read_body(Response {
        status: 200,
        status_text: "OK".to_string(),
        headers: vec![],
        body,
    });
    assert_eq!(ours, theirs);
    assert_eq!(ours, "");
}
