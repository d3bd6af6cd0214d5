use halley::response::{build_template_headers, Reply, ReplyError};

const ORIGIN: &str = "http://192.168.5.1:3000";

#[test]
fn new_reply_defaults() {
    let reply = Reply::new(ORIGIN);
    assert!(reply.response_content.is_empty());
    assert_eq!(reply.status_code, 200);
    assert_eq!(reply.content_type, "text/html");
    assert_eq!(reply.origin, ORIGIN);
    assert_eq!(reply.content_length, 0);
    assert!(reply.writeable);
    assert!(reply.writeable_headers);
}

#[test]
fn end_emits_exact_wire_bytes_for_404() {
    let mut reply = Reply::new(ORIGIN);
    assert!(reply.status(404).is_ok());
    assert!(reply.end(b"Not Found").is_ok());
    let expected = "HTTP/1.1 404 Not Found\r\nContent-Length: 9\r\nContent-Type: text/html\r\nAccess-Control-Allow-Origin: http://192.168.5.1:3000\r\n\r\nNot Found";
    assert_eq!(reply.response_content, expected.as_bytes());
}

#[test]
fn end_locks_headers_and_closes_the_reply() {
    let mut reply = Reply::new(ORIGIN);
    assert!(reply.end(b"").is_ok());
    assert!(!reply.writeable);
    assert!(!reply.writeable_headers);
}

#[test]
fn end_twice_fails_and_writes_nothing_more() {
    let mut reply = Reply::new(ORIGIN);
    assert!(reply.end(b"first").is_ok());
    let after_first = reply.response_content.clone();
    assert_eq!(reply.end(b"second"), Err(ReplyError::FinalizedTwice));
    assert_eq!(reply.response_content, after_first);
}

#[test]
fn status_after_end_fails_with_invalid_state() {
    let mut reply = Reply::new(ORIGIN);
    assert!(reply.end(b"done").is_ok());
    assert_eq!(reply.status(500), Err(ReplyError::InvalidState));
    assert_eq!(reply.status_code, 200);
}

#[test]
fn status_before_end_overwrites_the_code() {
    let mut reply = Reply::new(ORIGIN);
    assert!(reply.status(301).is_ok());
    assert!(reply.status(418).is_ok());
    assert_eq!(reply.status_code, 418);
    assert!(reply.end(b"x").is_ok());
    let text = String::from_utf8(reply.response_content.clone()).unwrap();
    assert!(text.starts_with("HTTP/1.1 418 I'm a Teapot\r\n"));
}

#[test]
fn send_encodes_the_content_as_body() {
    let mut reply = Reply::new(ORIGIN);
    assert!(reply.send("hello").is_ok());
    let expected = "HTTP/1.1 200 OK\r\nContent-Length: 5\r\nContent-Type: text/html\r\nAccess-Control-Allow-Origin: http://192.168.5.1:3000\r\n\r\nhello";
    assert_eq!(reply.response_content, expected.as_bytes());
}

#[test]
fn send_on_finalized_reply_fails() {
    let mut reply = Reply::new(ORIGIN);
    assert!(reply.send("one").is_ok());
    assert_eq!(reply.send("two"), Err(ReplyError::FinalizedTwice));
}

#[test]
fn missing_file_contents_fail_and_send_zero_bytes() {
    let mut reply = Reply::new(ORIGIN);
    assert_eq!(reply.send_file_bytes(None), Err(ReplyError::FileNotFound));
    assert!(reply.response_content.is_empty());
    assert!(reply.writeable);
    assert!(reply.writeable_headers);
}

#[test]
fn file_contents_are_sent_like_a_body() {
    let mut reply = Reply::new(ORIGIN);
    let contents = b"<html>ok</html>".to_vec();
    assert!(reply.send_file_bytes(Some(contents)).is_ok());
    let expected = "HTTP/1.1 200 OK\r\nContent-Length: 15\r\nContent-Type: text/html\r\nAccess-Control-Allow-Origin: http://192.168.5.1:3000\r\n\r\n<html>ok</html>";
    assert_eq!(reply.response_content, expected.as_bytes());
}

#[test]
fn file_contents_on_finalized_reply_fail() {
    let mut reply = Reply::new(ORIGIN);
    assert!(reply.end(b"").is_ok());
    assert_eq!(
        reply.send_file_bytes(Some(vec![1u8, 2, 3])),
        Err(ReplyError::FinalizedTwice)
    );
}

#[test]
fn template_headers_exact_for_404() {
    let headers = build_template_headers(404, "text/html", 9, ORIGIN);
    assert_eq!(
        headers,
        "HTTP/1.1 404 Not Found\r\nContent-Length: 9\r\nContent-Type: text/html\r\nAccess-Control-Allow-Origin: http://192.168.5.1:3000\r\n\r\n"
    );
}

#[test]
fn template_headers_exact_for_200_with_other_type() {
    let headers = build_template_headers(200, "application/json", 2, "http://localhost:8080");
    assert_eq!(
        headers,
        "HTTP/1.1 200 OK\r\nContent-Length: 2\r\nContent-Type: application/json\r\nAccess-Control-Allow-Origin: http://localhost:8080\r\n\r\n"
    );
}

#[test]
fn template_headers_default_phrase_for_unknown_code() {
    let headers = build_template_headers(999, "text/html", 0, ORIGIN);
    assert!(headers.starts_with("HTTP/1.1 999 Unknown Status\r\n"));
}
