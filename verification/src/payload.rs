//! Message bodies, held in the reference-counted buffers of the `bytes` crate.

use bytes::Bytes;
use vstd::prelude::*;
use vstd::utf8::encode_utf8;

verus! {

/// A cheaply cloneable, immutable run of bytes.
#[verifier::external_type_specification]
#[verifier::external_body]
pub struct ExBytes(bytes::Bytes);

/// The bytes that a buffer holds, in order.
pub uninterp spec fn bytes_content(buffer: &Bytes) -> Seq<u8>;

/// `Bytes::from` on a vector: the buffer holds the vector's bytes.
#[verifier::external_body]
pub(crate) fn from_vec(bytes: Vec<u8>) -> (buffer: Bytes)
    ensures
        bytes_content(&buffer) == bytes@,
{
    Bytes::from(bytes)
}

/// `Bytes::as_ref`: a view of the bytes that the buffer holds.
#[verifier::external_body]
pub(crate) fn as_slice(buffer: &Bytes) -> (bytes: &[u8])
    ensures
        bytes@ == bytes_content(buffer),
{
    buffer.as_ref()
}

/// `Bytes::clone`: a second handle on the same bytes.
#[verifier::external_body]
pub(crate) fn share(buffer: &Bytes) -> (copy: Bytes)
    ensures
        bytes_content(&copy) == bytes_content(buffer),
{
    buffer.clone()
}

/// A buffer with no bytes in it.
pub fn empty() -> (buffer: Bytes)
    ensures
        bytes_content(&buffer) == Seq::<u8>::empty(),
{
    from_vec(Vec::new())
}

/// A buffer with the UTF-8 encoding of `text`.
pub fn from_text(text: &str) -> (buffer: Bytes)
    ensures
        bytes_content(&buffer) == encode_utf8(text@),
{
    from_vec(vstd::slice::slice_to_vec(text.as_bytes()))
}

/// The payload of a message, as a mathematical value.
pub struct MessageView {
    pub body: Seq<u8>,
    pub content_type: Option<Seq<char>>,
}

/// Payload stored in the waiting list, cloned to multiple subscribers on delivery.
///
/// Uses `Bytes` for zero-copy cloning when fanning out to concurrent waiters.
#[derive(Debug)]
pub struct Message {
    /// The message body bytes.
    pub body: Bytes,
    /// Optional MIME content type (e.g., "application/json").
    pub content_type: Option<String>,
}

/// The characters of an optional text.
pub open spec fn optional_text(text: Option<String>) -> Option<Seq<char>> {
    match text {
        Some(t) => Some(t@),
        None => None,
    }
}

/// The bytes of an optional body.
pub open spec fn optional_bytes(bytes: Option<Vec<u8>>) -> Option<Seq<u8>> {
    match bytes {
        Some(b) => Some(b@),
        None => None,
    }
}

impl View for Message {
    type V = MessageView;

    open spec fn view(&self) -> MessageView {
        MessageView {
            body: bytes_content(&self.body),
            content_type: optional_text(self.content_type),
        }
    }
}

impl Clone for Message {
    fn clone(&self) -> (copy: Self)
        ensures
            copy@ == self@,
    {
        Message {
            body: share(&self.body),
            content_type: clone_text(&self.content_type),
        }
    }
}

/// Copies an optional text.
pub fn clone_text(text: &Option<String>) -> (copy: Option<String>)
    ensures
        optional_text(copy) == optional_text(*text),
{
    match text {
        Some(t) => Some(t.clone()),
        None => None,
    }
}

} // verus!
