use axum::http::HeaderValue;
use bytes::Bytes;
use http_relay::response::{
    accepted, build_response, content_type_text, deprecate, forward, plain, validate_id_length,
    MAX_ID_LENGTH,
};
use http_relay::Message;

#[test]
fn ids_may_have_up_to_the_maximum_of_bytes() {
    assert!(validate_id_length("", "ID").is_ok());
    assert!(validate_id_length(&"x".repeat(MAX_ID_LENGTH), "ID").is_ok());
    let reply = validate_id_length(&"x".repeat(MAX_ID_LENGTH + 1), "Inbox ID").err().unwrap();
    assert_eq!(reply.status, 400);
    assert_eq!(reply.body, Bytes::from("Inbox ID too long"));
}

#[test]
fn ids_are_measured_in_bytes_rather_than_characters() {
    // Two bytes each
    assert!(validate_id_length(&"\u{e9}".repeat(128), "ID").is_ok());
    assert!(validate_id_length(&"\u{e9}".repeat(129), "ID").is_err());
}

#[test]
fn a_stored_content_type_is_forwarded() {
    let reply = build_response(200, Bytes::from("{}"), Some("application/json".to_string()));
    assert_eq!(reply.status, 200);
    assert_eq!(reply.body, Bytes::from("{}"));
    assert_eq!(reply.content_type.unwrap().to_str().unwrap(), "application/json");
    assert!(!reply.deprecated);
}

#[test]
fn a_content_type_that_fits_in_no_header_is_left_out() {
    let reply = build_response(200, Bytes::new(), Some("text/plain\r\nX: y".to_string()));
    assert!(reply.content_type.is_none());
    let reply = build_response(200, Bytes::new(), Some("a\u{7f}".to_string()));
    assert!(reply.content_type.is_none());
    let reply = build_response(200, Bytes::new(), Some("tab\there".to_string()));
    assert_eq!(reply.content_type.unwrap().as_bytes(), b"tab\there");
    let reply = build_response(200, Bytes::new(), Some("caf\u{e9}".to_string()));
    assert_eq!(reply.content_type.unwrap().as_bytes(), "caf\u{e9}".as_bytes());
}

#[test]
fn only_visible_text_is_read_from_a_header() {
    let json = HeaderValue::from_static("application/json");
    assert_eq!(content_type_text(Some(&json)), Some("application/json".to_string()));
    let opaque = HeaderValue::from_bytes(b"caf\xe9").unwrap();
    assert_eq!(content_type_text(Some(&opaque)), None);
    assert_eq!(content_type_text(None), None);
}

#[test]
fn replies_of_every_kind() {
    let text = plain(404, "Not found");
    assert_eq!((text.status, text.body), (404, Bytes::from("Not found")));
    assert!(text.content_type.is_none());
    let done = accepted();
    assert_eq!((done.status, done.body.len()), (200, 0));
    let marked = deprecate(plain(408, "Request timed out"));
    assert!(marked.deprecated);
    assert_eq!((marked.status, marked.body), (408, Bytes::from("Request timed out")));
    let message = Message { body: Bytes::from("hi"), content_type: None };
    let sent = forward(message.clone());
    assert_eq!((sent.status, sent.body), (200, message.body));
}
