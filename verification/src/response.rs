//! Replies of the HTTP relay endpoints, as plain values.
//!
//! Handlers use these patterns consistently:
//!
//! - **`build_response()`**: when forwarding stored messages that may have a Content-Type header
//!   (e.g., GET /inbox/{id}, GET /link/{id}).
//! - **`plain()`** and **`accepted()`**: for simple replies without Content-Type (e.g., POST
//!   success, DELETE success/failure, errors, ACK status).

use crate::payload::{bytes_content, empty, from_text, optional_text, Message, MessageView};
use axum::http::HeaderValue;
use bytes::Bytes;
use vstd::prelude::*;
use vstd::utf8::encode_utf8;

verus! {

/// Maximum allowed length for IDs (in bytes).
/// 256 bytes accommodates typical ID patterns (UUIDs are 36 chars, base64-encoded
/// 256-bit keys are 44 chars) while preventing DoS via oversized map keys.
pub const MAX_ID_LENGTH: usize = 256;

/// The request was carried out.
pub const OK: u16 = 200;

/// The request is malformed.
pub const BAD_REQUEST: u16 = 400;

/// There is no such entry.
pub const NOT_FOUND: u16 = 404;

/// Nothing happened in time.
pub const REQUEST_TIMEOUT: u16 = 408;

/// The message could not be stored.
pub const INTERNAL_SERVER_ERROR: u16 = 500;

/// The server takes no more requests of this kind.
pub const SERVICE_UNAVAILABLE: u16 = 503;

/// The value of an HTTP header field.
#[verifier::external_type_specification]
#[verifier::external_body]
pub struct ExHeaderValue(axum::http::HeaderValue);

/// The bytes of a header value, in order.
pub uninterp spec fn header_bytes(value: &HeaderValue) -> Seq<u8>;

/// A byte that may stand in a header value: a tab, or anything but a control character.
pub open spec fn is_header_byte(byte: u8) -> bool {
    (byte >= 32 && byte != 127) || byte == 9
}

/// A byte of visible ASCII text, with blanks and tabs.
pub open spec fn is_visible_byte(byte: u8) -> bool {
    (byte >= 32 && byte < 127) || byte == 9
}

/// `HeaderValue::from_str`: the text as a header value, if no byte of its encoding is a control
/// character other than a tab.
#[verifier::external_body]
fn parse_header(text: &str) -> (result: Result<HeaderValue, axum::http::header::InvalidHeaderValue>)
    ensures
        match result {
            Ok(value) => header_bytes(&value) == encode_utf8(text@) && forall|i: int|
                0 <= i < encode_utf8(text@).len() ==> is_header_byte(
                    #[trigger] encode_utf8(text@)[i],
                ),
            Err(_) => exists|i: int|
                0 <= i < encode_utf8(text@).len() && !is_header_byte(
                    #[trigger] encode_utf8(text@)[i],
                ),
        },
{
    HeaderValue::from_str(text)
}

/// `HeaderValue::to_str`: the text that the header value encodes, if it is visible ASCII.
#[verifier::external_body]
fn header_to_str(value: &HeaderValue) -> (result: Result<&str, axum::http::header::ToStrError>)
    ensures
        match result {
            Ok(text) => encode_utf8(text@) == header_bytes(value) && forall|i: int|
                0 <= i < header_bytes(value).len() ==> is_visible_byte(
                    #[trigger] header_bytes(value)[i],
                ),
            Err(_) => exists|i: int|
                0 <= i < header_bytes(value).len() && !is_visible_byte(
                    #[trigger] header_bytes(value)[i],
                ),
        },
{
    value.to_str()
}

/// A text that is no header value.
#[verifier::external_type_specification]
#[verifier::external_body]
pub struct ExInvalidHeaderValue(axum::http::header::InvalidHeaderValue);

/// A header value that is no visible ASCII text.
#[verifier::external_type_specification]
#[verifier::external_body]
pub struct ExToStrError(axum::http::header::ToStrError);

/// Every byte may stand in a header value.
pub open spec fn fits_header(bytes: Seq<u8>) -> bool {
    forall|i: int| 0 <= i < bytes.len() ==> is_header_byte(#[trigger] bytes[i])
}

/// Every byte is visible ASCII.
pub open spec fn is_visible_text(bytes: Seq<u8>) -> bool {
    forall|i: int| 0 <= i < bytes.len() ==> is_visible_byte(#[trigger] bytes[i])
}

/// The header field that a stored content type gives, if it fits in one.
pub open spec fn content_type_header(content_type: Option<Seq<char>>) -> Option<Seq<u8>> {
    match content_type {
        Some(text) => if fits_header(encode_utf8(text)) {
            Some(encode_utf8(text))
        } else {
            None
        },
        None => None,
    }
}

/// The content type to store, read from the header field of a request. A value that is no visible
/// ASCII text is passed over.
pub fn content_type_text(header: Option<&HeaderValue>) -> (content_type: Option<String>)
    ensures
        match (header, content_type) {
            (Some(value), Some(text)) => is_visible_text(header_bytes(value)) && encode_utf8(text@)
                == header_bytes(value),
            (Some(value), None) => !is_visible_text(header_bytes(value)),
            (None, text) => text is None,
        },
{
    match header {
        Some(value) => match header_to_str(value) {
            Ok(text) => Some(text.to_owned()),
            Err(_) => None,
        },
        None => None,
    }
}

/// A reply to a request.
pub struct Reply {
    /// The HTTP status code.
    pub status: u16,
    /// The body.
    pub body: Bytes,
    /// The Content-Type header, where a stored message had one.
    pub content_type: Option<HeaderValue>,
    /// Whether the reply carries the header `Deprecation: true`.
    pub deprecated: bool,
}

/// A reply, as a mathematical value.
#[verifier::ext_equal]
pub struct ReplyView {
    pub status: u16,
    pub body: Seq<u8>,
    pub content_type: Option<Seq<u8>>,
    pub deprecated: bool,
}

impl View for Reply {
    type V = ReplyView;

    open spec fn view(&self) -> ReplyView {
        ReplyView {
            status: self.status,
            body: bytes_content(&self.body),
            content_type: match self.content_type {
                Some(value) => Some(header_bytes(&value)),
                None => None,
            },
            deprecated: self.deprecated,
        }
    }
}

/// A reply that consists of a status and a text.
pub open spec fn text_reply(status: u16, text: Seq<char>) -> ReplyView {
    ReplyView { status, body: encode_utf8(text), content_type: None, deprecated: false }
}

/// The reply to a request that was carried out and has nothing to say.
pub open spec fn empty_reply() -> ReplyView {
    ReplyView { status: OK, body: Seq::empty(), content_type: None, deprecated: false }
}

/// The reply that forwards a message.
pub open spec fn message_reply(message: MessageView) -> ReplyView {
    ReplyView {
        status: OK,
        body: message.body,
        content_type: content_type_header(message.content_type),
        deprecated: false,
    }
}

/// The same reply with the header that marks the endpoint as deprecated.
pub open spec fn marked_deprecated(reply: ReplyView) -> ReplyView {
    ReplyView { deprecated: true, ..reply }
}

/// The id takes more bytes than an id may.
pub open spec fn is_too_long(id: Seq<char>) -> bool {
    encode_utf8(id).len() > MAX_ID_LENGTH
}

/// The reply to a request whose id is too long.
pub open spec fn too_long_reply(id_name: Seq<char>) -> ReplyView {
    text_reply(BAD_REQUEST, id_name + " too long"@)
}

/// A reply that consists of a status and a text.
pub fn plain(status: u16, text: &str) -> (reply: Reply)
    ensures
        reply@ == text_reply(status, text@),
{
    Reply { status, body: from_text(text), content_type: None, deprecated: false }
}

/// The reply to a request that was carried out and has nothing to say.
pub fn accepted() -> (reply: Reply)
    ensures
        reply@ == empty_reply(),
{
    Reply { status: OK, body: empty(), content_type: None, deprecated: false }
}

/// Validate that an ID doesn't exceed the maximum length.
/// Returns `Err` with a BAD_REQUEST response if the ID is too long.
pub fn validate_id_length(id: &str, id_name: &str) -> (result: Result<(), Reply>)
    ensures
        result is Err <==> is_too_long(id@),
        result matches Err(reply) ==> reply@ == too_long_reply(id_name@),
{
    if id.as_bytes().len() > MAX_ID_LENGTH {
        let mut text: String = id_name.to_owned();
        text.append(" too long");
        Err(plain(BAD_REQUEST, text.as_str()))
    } else {
        Ok(())
    }
}

/// Build a response with optional Content-Type header.
///
/// Use this for message bodies that may have a stored Content-Type. One that does not fit in a
/// header field is left out.
pub fn build_response(status: u16, body: Bytes, content_type: Option<String>) -> (reply: Reply)
    ensures
        reply@ == (ReplyView {
            status,
            body: bytes_content(&body),
            content_type: content_type_header(optional_text(content_type)),
            deprecated: false,
        }),
{
    let header: Option<HeaderValue> = match content_type {
        Some(text) => match parse_header(text.as_str()) {
            Ok(value) => Some(value),
            Err(_) => None,
        },
        None => None,
    };
    Reply { status, body, content_type: header, deprecated: false }
}

/// The reply that forwards a message.
pub fn forward(message: Message) -> (reply: Reply)
    ensures
        reply@ == message_reply(message@),
{
    build_response(OK, message.body, message.content_type)
}

/// Adds the header that marks the endpoint as deprecated.
pub fn deprecate(reply: Reply) -> (marked: Reply)
    ensures
        marked@ == marked_deprecated(reply@),
{
    Reply {
        status: reply.status,
        body: reply.body,
        content_type: reply.content_type,
        deprecated: true,
    }
}

/// A content type read from a request is forwarded as it came.
pub proof fn content_type_survives(header: &HeaderValue, text: Seq<char>)
    requires
        is_visible_text(header_bytes(header)),
        encode_utf8(text) == header_bytes(header),
    ensures
        content_type_header(Some(text)) == Some(header_bytes(header)),
{
    assert forall|i: int| 0 <= i < encode_utf8(text).len() implies is_header_byte(
        #[trigger] encode_utf8(text)[i],
    ) by {
        assert(is_visible_byte(header_bytes(header)[i]));
    }
}

} // verus!
