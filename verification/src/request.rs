//! What the handlers of all endpoints share: the message that a request brings, and the steps in
//! which it is answered.

use crate::payload::{bytes_content, Message, MessageView};
use crate::response::{content_type_text, header_bytes, is_visible_text, Reply, ReplyView};
use axum::http::HeaderValue;
use bytes::Bytes;
use std::time::Duration;
use vstd::prelude::*;
use vstd::utf8::encode_utf8;

verus! {

/// What a wait came to.
pub enum Waited<T> {
    /// What was waited for arrived.
    Received(T),
    /// The request was let go without it.
    Closed,
    /// It did not arrive in time.
    TimedOut,
}

/// What to do about a request.
pub enum Step {
    /// Reply to it.
    Respond(Reply),
    /// Wait until the request is notified or let go, or this much time has passed.
    Wait(Duration),
}

/// What to do about a request, as a mathematical value.
pub enum StepView {
    Respond(ReplyView),
    Wait(Duration),
}

impl View for Step {
    type V = StepView;

    open spec fn view(&self) -> StepView {
        match self {
            Step::Respond(reply) => StepView::Respond(reply@),
            Step::Wait(timeout) => StepView::Wait(*timeout),
        }
    }
}

/// The message that a request brings: its body, and its content type if that is readable.
pub open spec fn request_message(
    header: Option<&HeaderValue>,
    body: Bytes,
    message: MessageView,
) -> bool {
    &&& message.body == bytes_content(&body)
    &&& match (header, message.content_type) {
        (Some(value), Some(text)) => is_visible_text(header_bytes(value)) && encode_utf8(text)
            == header_bytes(value),
        (Some(value), None) => !is_visible_text(header_bytes(value)),
        (None, text) => text is None,
    }
}

/// Puts the message of a request together.
pub fn read_message(header: Option<&HeaderValue>, body: Bytes) -> (message: Message)
    ensures
        request_message(header, body, message@),
{
    Message { body, content_type: content_type_text(header) }
}

} // verus!
