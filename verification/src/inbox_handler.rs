//! Inbox handler for store-and-forward messaging with ACK support.
//!
//! Each request is answered in one or two steps. The first looks at the waiting list at the time
//! `now` and either replies or asks the caller to wait; the second replies to what the wait came
//! to.
//!
//! # Security
//!
//! Inbox IDs act as shared secrets. Anyone who knows an ID can read/write/ACK
//! that inbox. IDs must be cryptographically random (e.g., 128-bit UUIDs).
//! Predictable IDs allow attackers to intercept or acknowledge messages.
//!
//! Messages persist in plaintext memory for the TTL duration. Do not relay
//! sensitive one-time credentials unless encryption is applied at the
//! application layer.

use crate::clock::has_expired;
use crate::entries::{is_consistent, is_live};
use crate::laws::{
    ack_is_idempotent, ack_is_reported, ack_keeps_consistency, ack_marks_entry,
    acked_message_is_withheld, deadline, stored_message_is_read,
};
use crate::payload::{bytes_content, Message, MessageView};
use crate::repository::Repository;
use crate::request::{read_message, request_message, Step, StepView, Waited};
use crate::response::{
    accepted, content_type_survives, empty_reply, forward, header_bytes, is_too_long,
    is_visible_text, message_reply, plain, text_reply, too_long_reply, validate_id_length, Reply,
    ReplyView, INTERNAL_SERVER_ERROR, NOT_FOUND, OK, REQUEST_TIMEOUT, SERVICE_UNAVAILABLE,
};
use crate::server::Config;
use crate::waiting_list::{
    AckOutcome, AckSubscription, GetOrSubscribeResult, Reading, StoreOutcome, SubscribeError,
    WaitingList,
};
use axum::http::HeaderValue;
use bytes::Bytes;
use std::time::Duration;
use vstd::prelude::*;

verus! {

/// The reply to a POST, by whether its message was persisted.
pub open spec fn post_reply(persisted: bool) -> ReplyView {
    if persisted {
        empty_reply()
    } else {
        text_reply(INTERNAL_SERVER_ERROR, "Failed to store message"@)
    }
}

/// What to do about a GET, by what the waiting list answered.
pub open spec fn get_step(
    result: Result<GetOrSubscribeResult, SubscribeError>,
    timeout: Duration,
) -> StepView {
    match result {
        Ok(GetOrSubscribeResult::Message(message)) => StepView::Respond(message_reply(message@)),
        Ok(GetOrSubscribeResult::Waiting(_)) => StepView::Wait(timeout),
        Err(_) => StepView::Respond(
            text_reply(SERVICE_UNAVAILABLE, "Too many concurrent requests"@),
        ),
    }
}

/// What to do about a GET on the wait for the acknowledgement, by what the waiting list answered.
pub open spec fn await_step(
    result: Result<AckSubscription, SubscribeError>,
    timeout: Duration,
) -> StepView {
    match result {
        Ok(AckSubscription::AlreadyAcked) => StepView::Respond(empty_reply()),
        Ok(AckSubscription::Waiting(_)) => StepView::Wait(timeout),
        Err(SubscribeError::NotFound) => StepView::Respond(text_reply(NOT_FOUND, "Not found"@)),
        Err(SubscribeError::WaiterLimitReached) => StepView::Respond(
            text_reply(SERVICE_UNAVAILABLE, "Too many concurrent requests"@),
        ),
    }
}

/// The reply to a DELETE, by whether the entry was acknowledged.
pub open spec fn delete_reply(acked: bool) -> ReplyView {
    if acked {
        empty_reply()
    } else {
        text_reply(NOT_FOUND, "Not found"@)
    }
}

/// The reply to the question whether an entry is acknowledged.
pub open spec fn ack_reply(status: Option<bool>) -> ReplyView {
    match status {
        Some(true) => text_reply(OK, "true"@),
        Some(false) => text_reply(OK, "false"@),
        None => text_reply(NOT_FOUND, "Not found"@),
    }
}

/// POST /inbox/{id} - Store a message, reply immediately. Hands back what came of storing it, for
/// delivery to those who wait.
pub fn post_handler<R: Repository>(
    list: &mut WaitingList<R>,
    config: &Config,
    now: i64,
    id: String,
    content_type: Option<&HeaderValue>,
    body: Bytes,
) -> (answer: (Reply, Option<StoreOutcome>))
    requires
        old(list).wf(),
    ensures
        if is_too_long(id@) {
            &&& answer.0@ == too_long_reply("Inbox ID"@)
            &&& answer.1 is None
            &&& *final(list) == *old(list)
        } else {
            &&& answer.1 is Some
            &&& answer.0@ == post_reply(answer.1->0.persisted is Ok)
            &&& exists|message: MessageView|
                request_message(content_type, body, message) && #[trigger] WaitingList::stored(
                    *old(list),
                    now,
                    id@,
                    message,
                    config.inbox_cache_ttl,
                    answer.1->0,
                    *final(list),
                )
        },
        !is_too_long(id@) ==> exists|waiting: &mut WaitingList<R>, message: Message|
            *waiting == *old(list) && *final(waiting) == *final(list) && request_message(
                content_type,
                body,
                message@,
            ) && #[trigger] call_ensures(
                WaitingList::<R>::store_at,
                (waiting, now, id, message, config.inbox_cache_ttl),
                answer.1->0,
            ),
{
    if let Err(reply) = validate_id_length(id.as_str(), "Inbox ID") {
        return (reply, None);
    }
    let message: Message = read_message(content_type, body);
    let outcome: StoreOutcome = list.store_at(
        now,
        id,
        message,
        config.inbox_cache_ttl,
    );
    let reply: Reply = if outcome.persisted.is_ok() {
        accepted()
    } else {
        plain(INTERNAL_SERVER_ERROR, "Failed to store message")
    };
    (reply, Some(outcome))
}

/// GET /inbox/{id} - Return message or wait (long-poll).
/// Replies immediately if message exists, otherwise the request waits up to `inbox_timeout`.
pub fn get_handler<R: Repository>(
    list: &mut WaitingList<R>,
    config: &Config,
    now: i64,
    id: &str,
    handle: u64,
) -> (step: Step)
    requires
        old(list).wf(),
    ensures
        if is_too_long(id@) {
            &&& step@ == StepView::Respond(too_long_reply("Inbox ID"@))
            &&& *final(list) == *old(list)
        } else {
            exists|result: Result<GetOrSubscribeResult, SubscribeError>|
                #[trigger] WaitingList::message_requested(
                    *old(list),
                    now,
                    id@,
                    handle,
                    result,
                    *final(list),
                ) && step@ == get_step(result, config.inbox_timeout)
        },
        !is_too_long(id@) ==> exists|
            waiting: &mut WaitingList<R>,
            result: Result<GetOrSubscribeResult, SubscribeError>,
        |
            *waiting == *old(list) && *final(waiting) == *final(list) && step@ == get_step(
                result,
                config.inbox_timeout,
            ) && #[trigger] call_ensures(
                WaitingList::<R>::get_or_subscribe_at,
                (waiting, now, id, handle),
                result,
            ),
{
    if let Err(reply) = validate_id_length(id, "Inbox ID") {
        return Step::Respond(reply);
    }
    let result: Result<GetOrSubscribeResult, SubscribeError> = list.get_or_subscribe_at(
        now,
        id,
        handle,
    );
    answer_get(result, config.inbox_timeout)
}

/// Turns the waiting list's answer to a GET into the next step.
pub fn answer_get(
    result: Result<GetOrSubscribeResult, SubscribeError>,
    timeout: Duration,
) -> (step: Step)
    ensures
        step@ == get_step(result, timeout),
{
    match result {
        Ok(GetOrSubscribeResult::Message(message)) => Step::Respond(forward(message)),
        Ok(GetOrSubscribeResult::Waiting(_)) => Step::Wait(timeout),
        Err(_) => Step::Respond(plain(SERVICE_UNAVAILABLE, "Too many concurrent requests")),
    }
}

/// Replies to a GET on /inbox/{id} that had to wait.
/// Replies 408 Request Timeout if no message arrived within the timeout period.
pub fn get_resume(waited: Waited<Message>) -> (reply: Reply)
    ensures
        reply@ == match waited {
            Waited::Received(message) => message_reply(message@),
            Waited::Closed => text_reply(NOT_FOUND, "Entry expired"@),
            Waited::TimedOut => text_reply(REQUEST_TIMEOUT, "Request timed out"@),
        },
{
    match waited {
        Waited::Received(message) => forward(message),
        Waited::Closed => plain(NOT_FOUND, "Entry expired"),
        Waited::TimedOut => plain(REQUEST_TIMEOUT, "Request timed out"),
    }
}

/// DELETE /inbox/{id} - ACK message, reply 200 or 404. Hands back the requests to notify.
pub fn delete_handler<R: Repository>(list: &mut WaitingList<R>, now: i64, id: &str) -> (answer: (
    Reply,
    Vec<u64>,
))
    requires
        old(list).wf(),
    ensures
        if is_too_long(id@) {
            &&& answer.0@ == too_long_reply("Inbox ID"@)
            &&& answer.1@.len() == 0
            &&& *final(list) == *old(list)
        } else {
            exists|outcome: AckOutcome|
                answer.0@ == delete_reply(outcome.acked) && answer.1 == outcome.notified
                    && #[trigger] WaitingList::acked_at(*old(list), now, id@, outcome, *final(list))
        },
        !is_too_long(id@) ==> exists|waiting: &mut WaitingList<R>, outcome: AckOutcome|
            *waiting == *old(list) && *final(waiting) == *final(list) && answer.0@ == delete_reply(
                outcome.acked,
            ) && answer.1 == outcome.notified && #[trigger] call_ensures(
                WaitingList::<R>::ack_at,
                (waiting, now, id),
                outcome,
            ),
{
    if let Err(reply) = validate_id_length(id, "Inbox ID") {
        return (reply, Vec::new());
    }
    let outcome: AckOutcome = list.ack_at(now, id);
    let reply: Reply = if outcome.acked {
        accepted()
    } else {
        plain(NOT_FOUND, "Not found")
    };
    (reply, outcome.notified)
}

/// GET /inbox/{id}/ack - Reply "true", "false", or 404 if no message exists.
pub fn ack_handler<R: Repository>(list: &WaitingList<R>, now: i64, id: &str) -> (reply: Reply)
    requires
        list.wf(),
    ensures
        if is_too_long(id@) {
            reply@ == too_long_reply("Inbox ID"@)
        } else {
            exists|status: Option<bool>|
                reply@ == ack_reply(status) && #[trigger] list.ack_status(now, id@, status)
        },
        !is_too_long(id@) ==> exists|status: Option<bool>|
            reply@ == ack_reply(status) && #[trigger] call_ensures(
                WaitingList::<R>::is_acked_at,
                (list, now, id),
                status,
            ),
{
    if let Err(reply) = validate_id_length(id, "Inbox ID") {
        return reply;
    }
    let status: Option<bool> = list.is_acked_at(now, id);
    match status {
        Some(true) => plain(OK, "true"),
        Some(false) => plain(OK, "false"),
        None => plain(NOT_FOUND, "Not found"),
    }
}

/// GET /inbox/{id}/await - Wait for ACK with timeout.
pub fn await_handler<R: Repository>(
    list: &mut WaitingList<R>,
    config: &Config,
    now: i64,
    id: &str,
    handle: u64,
) -> (step: Step)
    requires
        old(list).wf(),
    ensures
        if is_too_long(id@) {
            &&& step@ == StepView::Respond(too_long_reply("Inbox ID"@))
            &&& *final(list) == *old(list)
        } else {
            ||| step@ == StepView::Respond(empty_reply()) && *final(list) == *old(list)
                && old(list).ack_status(now, id@, Some(true))
            ||| exists|result: Result<AckSubscription, SubscribeError>|
                #[trigger] WaitingList::ack_subscribed(
                    *old(list),
                    now,
                    id@,
                    handle,
                    result,
                    *final(list),
                ) && step@ == await_step(result, config.inbox_timeout)
        },
        !is_too_long(id@) ==> {
            ||| step@ == StepView::Respond(empty_reply()) && *final(list) == *old(list)
                && call_ensures(WaitingList::<R>::is_acked_at, (&*old(list), now, id), Some(true))
            ||| exists|
                waiting: &mut WaitingList<R>,
                result: Result<AckSubscription, SubscribeError>,
            |
                *waiting == *old(list) && *final(waiting) == *final(list) && step@ == await_step(
                    result,
                    config.inbox_timeout,
                ) && #[trigger] call_ensures(
                    WaitingList::<R>::subscribe_ack_at,
                    (waiting, now, id, handle),
                    result,
                )
        },
{
    if let Err(reply) = validate_id_length(id, "Inbox ID") {
        return Step::Respond(reply);
    }
    // Check if already acked or subscribe for notification
    if let Some(true) = list.is_acked_at(now, id) {
        return Step::Respond(accepted());
    }
    let result: Result<AckSubscription, SubscribeError> = list.subscribe_ack_at(now, id, handle);
    answer_await(result, config.inbox_timeout)
}

/// Turns the waiting list's answer to a wait for the acknowledgement into the next step.
pub fn answer_await(
    result: Result<AckSubscription, SubscribeError>,
    timeout: Duration,
) -> (step: Step)
    ensures
        step@ == await_step(result, timeout),
{
    match result {
        Ok(AckSubscription::AlreadyAcked) => Step::Respond(accepted()),
        Ok(AckSubscription::Waiting(_)) => Step::Wait(timeout),
        Err(SubscribeError::NotFound) => Step::Respond(plain(NOT_FOUND, "Not found")),
        Err(SubscribeError::WaiterLimitReached) => Step::Respond(
            plain(SERVICE_UNAVAILABLE, "Too many concurrent requests"),
        ),
    }
}

/// Replies to a GET on /inbox/{id}/await that had to wait.
pub fn await_resume(waited: Waited<()>) -> (reply: Reply)
    ensures
        reply@ == match waited {
            Waited::Received(_) => empty_reply(),
            Waited::Closed => text_reply(NOT_FOUND, "Not found"@),
            Waited::TimedOut => text_reply(REQUEST_TIMEOUT, "Request timed out"@),
        },
{
    match waited {
        Waited::Received(_) => accepted(),
        // Dropped without notice - entry expired or was removed
        Waited::Closed => plain(NOT_FOUND, "Not found"),
        Waited::TimedOut => plain(REQUEST_TIMEOUT, "Request timed out"),
    }
}

/// What a producer posts to an inbox, and is told was stored, is what a consumer gets from it until
/// it expires: the same bytes, under the same content type where that is readable text. The
/// consumer need not have been there, and getting it takes nothing away. This holds where the
/// repository answers.
pub proof fn posted_message_is_replied<R: Repository>(
    before: WaitingList<R>,
    now: i64,
    id: Seq<char>,
    header: Option<&HeaderValue>,
    body: Bytes,
    message: MessageView,
    ttl: Duration,
    outcome: StoreOutcome,
    between: WaitingList<R>,
    later: i64,
    handle: u64,
    reading: Reading,
    result: Result<GetOrSubscribeResult, SubscribeError>,
    timeout: Duration,
    after: WaitingList<R>,
)
    requires
        request_message(header, body, message),
        WaitingList::stored(before, now, id, message, ttl, outcome, between),
        WaitingList::requested_given(between, later, id, handle, reading, result, after),
        before.exclusive(),
        outcome.persisted is Ok,
        reading !is Failed,
        !has_expired(later, deadline(now, ttl)),
    ensures
        post_reply(outcome.persisted is Ok) == empty_reply(),
        get_step(result, timeout) == StepView::Respond(
            ReplyView {
                status: OK,
                body: bytes_content(&body),
                content_type: match header {
                    Some(value) => if is_visible_text(header_bytes(value)) {
                        Some(header_bytes(value))
                    } else {
                        None
                    },
                    None => None,
                },
                deprecated: false,
            },
        ),
        after.rows() == between.rows(),
{
    stored_message_is_read(
        before,
        now,
        id,
        message,
        ttl,
        outcome,
        between,
        later,
        handle,
        reading,
        result,
        after,
    );
    if header is Some && message.content_type is Some {
        content_type_survives(header->0, message.content_type->0);
    }
}

/// What holds of an entry that a DELETE succeeded on: it was live, it is still counted, and it is
/// marked as acknowledged until it expires.
pub proof fn deletion_marks_entry<R: Repository>(
    before: WaitingList<R>,
    now: i64,
    id: Seq<char>,
    reading: Reading,
    outcome: AckOutcome,
    after: WaitingList<R>,
)
    requires
        before.wf(),
        before.exclusive(),
        before.certain() || is_consistent(before.rows()),
        WaitingList::acked_given(before, now, id, reading, outcome, after),
        delete_reply(outcome.acked) == empty_reply(),
    ensures
        is_live(before.rows(), id, now),
        after.rows().len() == before.rows().len(),
        after.rows()[id].entry.acked,
        is_consistent(after.rows()),
{
    if before.certain() {
        before.rows_are_consistent();
    }
    ack_marks_entry(before, now, id, reading, outcome, after);
    ack_keeps_consistency(before, now, id, reading, outcome, after);
}

/// After a DELETE that succeeded, the question whether the entry was acknowledged is answered with
/// "true" until it expires. This holds where the repository answers.
pub proof fn deletion_is_reported<R: Repository>(
    before: WaitingList<R>,
    now: i64,
    id: Seq<char>,
    delete_reading: Reading,
    outcome: AckOutcome,
    after: WaitingList<R>,
    later: i64,
    reading: Reading,
    status: Option<bool>,
)
    requires
        before.exclusive(),
        WaitingList::acked_given(before, now, id, delete_reading, outcome, after),
        delete_reply(outcome.acked) == empty_reply(),
        after.status_given(later, id, reading, status),
        reading !is Failed,
        is_live(before.rows(), id, later),
    ensures
        ack_reply(status) == text_reply(OK, "true"@),
{
    ack_is_reported(before, now, id, delete_reading, outcome, after, later, reading, status);
}

/// After a DELETE that succeeded, a GET no longer replies with the message: it waits, or is refused
/// for want of room.
pub proof fn deleted_message_is_withheld<R: Repository>(
    before: WaitingList<R>,
    now: i64,
    id: Seq<char>,
    delete_reading: Reading,
    outcome: AckOutcome,
    between: WaitingList<R>,
    later: i64,
    handle: u64,
    reading: Reading,
    result: Result<GetOrSubscribeResult, SubscribeError>,
    timeout: Duration,
    after: WaitingList<R>,
)
    requires
        before.wf(),
        before.exclusive(),
        before.certain() || is_consistent(before.rows()),
        WaitingList::acked_given(before, now, id, delete_reading, outcome, between),
        delete_reply(outcome.acked) == empty_reply(),
        WaitingList::requested_given(between, later, id, handle, reading, result, after),
    ensures
        get_step(result, timeout) == StepView::Wait(timeout) || get_step(result, timeout)
            == StepView::Respond(text_reply(SERVICE_UNAVAILABLE, "Too many concurrent requests"@)),
{
    if before.certain() {
        before.rows_are_consistent();
    }
    acked_message_is_withheld(
        before,
        now,
        id,
        delete_reading,
        outcome,
        between,
        later,
        handle,
        reading,
        result,
        after,
    );
}

/// A second DELETE before the entry expires succeeds as well, and wakes nobody. This holds where
/// the repository answers.
pub proof fn second_deletion_succeeds<R: Repository>(
    before: WaitingList<R>,
    now: i64,
    id: Seq<char>,
    first_reading: Reading,
    first: AckOutcome,
    between: WaitingList<R>,
    later: i64,
    second_reading: Reading,
    second: AckOutcome,
    after: WaitingList<R>,
)
    requires
        before.exclusive(),
        WaitingList::acked_given(before, now, id, first_reading, first, between),
        delete_reply(first.acked) == empty_reply(),
        WaitingList::acked_given(between, later, id, second_reading, second, after),
        second_reading !is Failed,
        is_live(before.rows(), id, later),
    ensures
        delete_reply(second.acked) == empty_reply(),
        second.notified@.len() == 0,
        after.rows() == between.rows(),
{
    ack_is_idempotent(
        before,
        now,
        id,
        first_reading,
        first,
        between,
        later,
        second_reading,
        second,
        after,
    );
}

} // verus!
