//! What every call of the endpoints on a waiting list does, and of the functions that make replies.
//!
//! Each statement is about one call, or about two in a row: if a call can end with this result,
//! then what is stated holds, whatever the arguments. `before` is the waiting list before the call,
//! and `after` the list after it.

use crate::clock::duration_millis;
use crate::entries::StoredEntry;
use crate::inbox_handler;
use crate::link_handler::{self, ConsumerStep, ConsumerStepView};
use crate::payload::{
    bytes_content, clone_text, empty, from_text, optional_text, Message, MessageView,
};
use crate::persistence::EntryRepository;
use crate::rendezvous::Producer;
use crate::repository::{Repository, StorageError};
use crate::request::{read_message, request_message, Step, StepView, Waited};
use crate::response::{
    accepted, build_response, content_type_survives, content_type_text, deprecate, empty_reply,
    fits_header, forward, header_bytes, is_header_byte, is_visible_byte, is_visible_text,
    message_reply, plain, text_reply, validate_id_length, Reply,
};
use crate::server::{
    decimal, decimal_text, root_handler, url_text, AppState, Config, HttpRelay, HttpRelayBuilder,
    IpAddress, SocketAddress,
};
use crate::verbosity::{log_level, LevelFilter};
use crate::waiting_calls::{live_entries_are_acked, stored_messages_live_their_lifetime};
use crate::waiting_list::{
    live_entry, AckOutcome, AckSubscription, GetOrSubscribeResult, StoreOutcome, SubscribeError,
    WaitingList,
};
use axum::http::HeaderValue;
use bytes::Bytes;
use std::path::PathBuf;
use std::time::Duration;
use url::Url;
use vstd::prelude::*;
use vstd::utf8::{encode_utf8, is_ascii_chars, is_ascii_chars_encode_utf8};

verus! {

/// A plain reply has the status and the text that it was made of, and no header.
pub proof fn plain_replies_say_what_they_are_given(status: u16, text: &str, reply: Reply)
    requires
        call_ensures(plain, (status, text), reply),
    ensures
        reply.status == status,
        bytes_content(&reply.body) == encode_utf8(text@),
        reply.content_type is None,
        !reply.deprecated,
{
}

/// An acceptance is a bare 200.
pub proof fn acceptances_are_bare(reply: Reply)
    requires
        call_ensures(accepted, (), reply),
    ensures
        reply.status == 200,
        bytes_content(&reply.body).len() == 0,
        reply.content_type is None,
        !reply.deprecated,
{
}

/// An id is refused exactly if it takes more than 256 bytes: with a 400 that names it.
pub proof fn ids_are_refused_beyond_256_bytes(id: &str, id_name: &str, result: Result<(), Reply>)
    requires
        call_ensures(validate_id_length, (id, id_name), result),
    ensures
        encode_utf8(id@).len() <= 256 ==> result is Ok,
        encode_utf8(id@).len() > 256 ==> (result matches Err(reply) && reply.status == 400
            && bytes_content(&reply.body) == encode_utf8(id_name@ + " too long"@)
            && reply.content_type is None && !reply.deprecated),
{
}

/// A reply is built of what it is given. A content type goes into its header exactly if none of its
/// bytes is a control character other than a tab, and then byte by byte.
pub proof fn replies_are_built_of_their_parts(
    status: u16,
    body: Bytes,
    content_type: Option<String>,
    reply: Reply,
)
    requires
        call_ensures(build_response, (status, body, content_type), reply),
    ensures
        reply.status == status,
        bytes_content(&reply.body) == bytes_content(&body),
        !reply.deprecated,
        content_type is None ==> reply.content_type is None,
        content_type matches Some(text) ==> (reply.content_type is Some <==> forall|i: int|
            0 <= i < encode_utf8(text@).len() ==> {
                ||| #[trigger] encode_utf8(text@)[i] == 9
                ||| encode_utf8(text@)[i] >= 32 && encode_utf8(text@)[i] != 127
            }),
        reply.content_type matches Some(value)
            ==> header_bytes(&value) == encode_utf8(content_type->0@),
{
    if content_type is Some {
        let bytes = encode_utf8(content_type->0@);
        if reply.content_type is Some {
            assert(fits_header(bytes));
            assert forall|i: int| 0 <= i < bytes.len() implies {
                ||| #[trigger] bytes[i] == 9
                ||| bytes[i] >= 32 && bytes[i] != 127
            } by {
                assert(is_header_byte(bytes[i]));
            }
        } else {
            assert(!fits_header(bytes));
            let i = choose|i: int| 0 <= i < bytes.len() && !is_header_byte(#[trigger] bytes[i]);
            assert(!(bytes[i] == 9 || bytes[i] >= 32 && bytes[i] != 127));
        }
    }
}

/// A message is forwarded as it is, with a 200: its body byte by byte, and its content type
/// wherever a header can hold it.
pub proof fn messages_are_forwarded_as_they_are(message: Message, reply: Reply)
    requires
        call_ensures(forward, (message,), reply),
    ensures
        reply@ == message_reply(message@),
        reply.status == 200,
        bytes_content(&reply.body) == bytes_content(&message.body),
        !reply.deprecated,
        message.content_type is None ==> reply.content_type is None,
        message.content_type matches Some(text) ==> (reply.content_type is Some <==> forall|i: int|
            0 <= i < encode_utf8(text@).len() ==> {
                ||| #[trigger] encode_utf8(text@)[i] == 9
                ||| encode_utf8(text@)[i] >= 32 && encode_utf8(text@)[i] != 127
            }),
        reply.content_type matches Some(value)
            ==> header_bytes(&value) == encode_utf8(message.content_type->0@),
{
    if message.content_type is Some {
        let bytes = encode_utf8(message.content_type->0@);
        if reply.content_type is Some {
            assert(fits_header(bytes));
            assert forall|i: int| 0 <= i < bytes.len() implies {
                ||| #[trigger] bytes[i] == 9
                ||| bytes[i] >= 32 && bytes[i] != 127
            } by {
                assert(is_header_byte(bytes[i]));
            }
        } else {
            assert(!fits_header(bytes));
            let i = choose|i: int| 0 <= i < bytes.len() && !is_header_byte(#[trigger] bytes[i]);
            assert(!(bytes[i] == 9 || bytes[i] >= 32 && bytes[i] != 127));
        }
    }
}

/// Marking a reply as deprecated adds the mark and changes nothing else.
pub proof fn deprecation_adds_a_mark(reply: Reply, marked: Reply)
    requires
        call_ensures(deprecate, (reply,), marked),
    ensures
        marked.deprecated,
        marked.status == reply.status,
        bytes_content(&marked.body) == bytes_content(&reply.body),
        marked@.content_type == reply@.content_type,
{
}

/// A content type is read from a header exactly if all its bytes are visible ASCII, blanks or tabs,
/// and then byte by byte.
pub proof fn content_types_are_read_from_visible_text(
    header: Option<&HeaderValue>,
    content_type: Option<String>,
)
    requires
        call_ensures(content_type_text, (header,), content_type),
    ensures
        header is None ==> content_type is None,
        header matches Some(value) ==> (content_type is Some <==> forall|i: int|
            0 <= i < header_bytes(value).len() ==> {
                ||| #[trigger] header_bytes(value)[i] == 9
                ||| 32 <= header_bytes(value)[i] <= 126
            }),
        content_type matches Some(text) ==> encode_utf8(text@) == header_bytes(header->0),
{
    if header is Some {
        let bytes = header_bytes(header->0);
        if content_type is Some {
            assert(is_visible_text(bytes));
            assert forall|i: int| 0 <= i < bytes.len() implies {
                ||| #[trigger] bytes[i] == 9
                ||| 32 <= bytes[i] <= 126
            } by {
                assert(is_visible_byte(bytes[i]));
            }
        } else {
            assert(!is_visible_text(bytes));
            let i = choose|i: int| 0 <= i < bytes.len() && !is_visible_byte(#[trigger] bytes[i]);
            assert(!(bytes[i] == 9 || 32 <= bytes[i] <= 126));
        }
    }
}

/// The message of a request is its body, byte by byte, and its content type where that can be read.
pub proof fn requests_bring_their_body(header: Option<&HeaderValue>, body: Bytes, message: Message)
    requires
        call_ensures(read_message, (header, body), message),
    ensures
        bytes_content(&message.body) == bytes_content(&body),
        header is None ==> message.content_type is None,
        header matches Some(value) ==> (message.content_type is Some <==> forall|i: int|
            0 <= i < header_bytes(value).len() ==> {
                ||| #[trigger] header_bytes(value)[i] == 9
                ||| 32 <= header_bytes(value)[i] <= 126
            }),
        message.content_type matches Some(text) ==> encode_utf8(text@) == header_bytes(header->0),
{
    if header is Some {
        let bytes = header_bytes(header->0);
        if message.content_type is Some {
            assert(is_visible_text(bytes));
            assert forall|i: int| 0 <= i < bytes.len() implies {
                ||| #[trigger] bytes[i] == 9
                ||| 32 <= bytes[i] <= 126
            } by {
                assert(is_visible_byte(bytes[i]));
            }
        } else {
            assert(!is_visible_text(bytes));
            let i = choose|i: int| 0 <= i < bytes.len() && !is_visible_byte(#[trigger] bytes[i]);
            assert(!(bytes[i] == 9 || 32 <= bytes[i] <= 126));
        }
    }
}

/// What a request brings is fixed by it: the same body, and the same bytes of a content type.
pub proof fn request_messages_are_fixed(
    header: Option<&HeaderValue>,
    body: Bytes,
    message: MessageView,
)
    requires
        request_message(header, body, message),
    ensures
        message.body == bytes_content(&body),
        header is None ==> message.content_type is None,
        message.content_type matches Some(text) ==> header is Some
            && encode_utf8(text) == header_bytes(header->0),
        (message_reply(message).content_type is Some) == (message.content_type is Some),
        message.content_type is Some
            ==> message_reply(message).content_type == Some(header_bytes(header->0)),
        header matches Some(value) ==> (message.content_type is Some <==> forall|i: int|
            0 <= i < header_bytes(value).len() ==> {
                ||| #[trigger] header_bytes(value)[i] == 9
                ||| 32 <= header_bytes(value)[i] <= 126
            }),
{
    if message.content_type is Some {
        content_type_survives(header->0, message.content_type->0);
    }
    if header is Some {
        let bytes = header_bytes(header->0);
        if message.content_type is Some {
            assert(is_visible_text(bytes));
            assert forall|i: int| 0 <= i < bytes.len() implies {
                ||| #[trigger] bytes[i] == 9
                ||| 32 <= bytes[i] <= 126
            } by {
                assert(is_visible_byte(bytes[i]));
            }
        } else {
            assert(!is_visible_text(bytes));
            let i = choose|i: int| 0 <= i < bytes.len() && !is_visible_byte(#[trigger] bytes[i]);
            assert(!(bytes[i] == 9 || 32 <= bytes[i] <= 126));
        }
    }
}

/// An entry that was looked up is live exactly while its expiry lies ahead; a failed lookup finds
/// nothing.
pub proof fn lookups_count_until_expiry(
    answer: Result<Option<StoredEntry>, StorageError>,
    now: i64,
    entry: Option<StoredEntry>,
)
    requires
        call_ensures(live_entry, (answer, now), entry),
    ensures
        entry is Some <==> (answer matches Ok(Some(found)) && now < found.expires_at),
        entry matches Some(live) ==> answer == Ok::<_, StorageError>(Some(live)),
{
}

/// A POST to an inbox stores what was sent, for the lifetime configured, under any id of up to 256
/// bytes. It is answered with a bare 200 if the message was kept, and with a 500 if not. A longer
/// id is refused, and nothing happens.
pub proof fn inbox_posts_store_what_is_sent<R: Repository>(
    list: Ghost<&mut WaitingList<R>>,
    before: WaitingList<R>,
    config: &Config,
    now: i64,
    id: String,
    content_type: Option<&HeaderValue>,
    body: Bytes,
    answer: (Reply, Option<StoreOutcome>),
    after: WaitingList<R>,
)
    requires
        call_ensures(
            inbox_handler::post_handler::<R>,
            (list@, config, now, id, content_type, body),
            answer,
        ),
        before == *list@,
        after == *final(list@),
    ensures
        encode_utf8(id@).len() > 256 ==> answer.0@ == text_reply(400, "Inbox ID"@ + " too long"@)
            && answer.1 is None && after == before,
        encode_utf8(id@).len() <= 256 ==> answer.1 is Some,
        encode_utf8(id@).len() <= 256 ==> exists|waiting: &mut WaitingList<R>, message: Message|
            {
                &&& *waiting == before
                &&& *final(waiting) == after
                &&& bytes_content(&message.body) == bytes_content(&body)
                &&& request_message(content_type, body, message@)
                &&& #[trigger] call_ensures(
                    WaitingList::<R>::store_at,
                    (waiting, now, id, message, config.inbox_cache_ttl),
                    answer.1->0,
                )
            },
        encode_utf8(id@).len() <= 256 && answer.1->0.persisted is Ok ==> answer.0@ == empty_reply(),
        encode_utf8(id@).len() <= 256 && answer.1->0.persisted is Err
            ==> answer.0@ == text_reply(500, "Failed to store message"@),
{
}

/// A GET on an inbox asks for the message under any id of up to 256 bytes: what is there is
/// forwarded, a request that waits does so for the time configured, and one for which there is no
/// room is answered with a 503. A longer id is refused, and nothing happens.
pub proof fn inbox_gets_forward_or_wait<R: Repository>(
    list: Ghost<&mut WaitingList<R>>,
    before: WaitingList<R>,
    config: &Config,
    now: i64,
    id: &str,
    handle: u64,
    step: Step,
    after: WaitingList<R>,
)
    requires
        call_ensures(inbox_handler::get_handler::<R>, (list@, config, now, id, handle), step),
        before == *list@,
        after == *final(list@),
    ensures
        encode_utf8(id@).len() > 256
            ==> step@ == StepView::Respond(text_reply(400, "Inbox ID"@ + " too long"@))
            && after == before,
        encode_utf8(id@).len() <= 256 ==> exists|
            waiting: &mut WaitingList<R>,
            result: Result<GetOrSubscribeResult, SubscribeError>,
        |
            {
                &&& *waiting == before
                &&& *final(waiting) == after
                &&& #[trigger] call_ensures(
                    WaitingList::<R>::get_or_subscribe_at,
                    (waiting, now, id, handle),
                    result,
                )
                &&& result matches Ok(GetOrSubscribeResult::Message(message)) ==> step@
                    == StepView::Respond(message_reply(message@))
                &&& result matches Ok(GetOrSubscribeResult::Waiting(_)) ==> step@
                    == StepView::Wait(config.inbox_timeout)
                &&& result is Err ==> step@ == StepView::Respond(
                    text_reply(503, "Too many concurrent requests"@),
                )
            },
{
}

/// A DELETE on an inbox acknowledges the entry under any id of up to 256 bytes, hands on whom to
/// tell, and is answered with a bare 200 exactly if that succeeded. A longer id is refused, and
/// nothing happens.
pub proof fn inbox_deletes_acknowledge<R: Repository>(
    list: Ghost<&mut WaitingList<R>>,
    before: WaitingList<R>,
    now: i64,
    id: &str,
    answer: (Reply, Vec<u64>),
    after: WaitingList<R>,
)
    requires
        call_ensures(inbox_handler::delete_handler::<R>, (list@, now, id), answer),
        before == *list@,
        after == *final(list@),
    ensures
        encode_utf8(id@).len() > 256 ==> answer.0@ == text_reply(400, "Inbox ID"@ + " too long"@)
            && answer.1@.len() == 0 && after == before,
        encode_utf8(id@).len() <= 256 ==> exists|waiting: &mut WaitingList<R>, outcome: AckOutcome|
            {
                &&& *waiting == before
                &&& *final(waiting) == after
                &&& #[trigger] call_ensures(WaitingList::<R>::ack_at, (waiting, now, id), outcome)
                &&& answer.1@ == outcome.notified@
                &&& outcome.acked ==> answer.0@ == empty_reply()
                &&& !outcome.acked ==> answer.0@ == text_reply(404, "Not found"@)
            },
{
}

/// A DELETE on an inbox whose entry is there, with its expiry ahead, is answered with a bare 200
/// and marks the entry, whatever its id of up to 256 bytes, where the entry can be read and marked.
pub proof fn inbox_deletes_take_live_entries<R: Repository>(
    list: Ghost<&mut WaitingList<R>>,
    before: WaitingList<R>,
    now: i64,
    id: &str,
    answer: (Reply, Vec<u64>),
    after: WaitingList<R>,
)
    requires
        call_ensures(inbox_handler::delete_handler::<R>, (list@, now, id), answer),
        before == *list@,
        after == *final(list@),
        encode_utf8(id@).len() <= 256,
        before.exclusive(),
        !before.reading_may_fail(id@),
        !before.marking_may_fail(id@),
        before.rows().contains_key(id@),
        now < before.rows()[id@].entry.expires_at,
    ensures
        answer.0.status == 200,
        after.rows().contains_key(id@),
        after.rows()[id@].entry.acked,
{
    let (waiting, outcome) = choose|waiting: &mut WaitingList<R>, outcome: AckOutcome|
        {
            &&& *waiting == before
            &&& *final(waiting) == after
            &&& answer.0@ == inbox_handler::delete_reply(outcome.acked)
            &&& #[trigger] call_ensures(WaitingList::<R>::ack_at, (waiting, now, id), outcome)
        };
    live_entries_are_acked(Ghost(waiting), before, now, id, outcome, after);
}

/// The question whether an inbox was acknowledged is answered as the entry says, under any id of up
/// to 256 bytes, and with a 404 where there is none. A longer id is refused.
pub proof fn inbox_status_is_told<R: Repository>(
    list: WaitingList<R>,
    now: i64,
    id: &str,
    reply: Reply,
)
    requires
        call_ensures(inbox_handler::ack_handler::<R>, (&list, now, id), reply),
    ensures
        encode_utf8(id@).len() > 256 ==> reply@ == text_reply(400, "Inbox ID"@ + " too long"@),
        encode_utf8(id@).len() <= 256 ==> exists|status: Option<bool>|
            {
                &&& #[trigger] call_ensures(WaitingList::<R>::is_acked_at, (&list, now, id), status)
                &&& status == Some(true) ==> reply@ == text_reply(200, "true"@)
                &&& status == Some(false) ==> reply@ == text_reply(200, "false"@)
                &&& status is None ==> reply@ == text_reply(404, "Not found"@)
            },
{
}

/// A GET that waits for an inbox to be acknowledged is answered at once where it was, and otherwise
/// subscribes, under any id of up to 256 bytes: it waits for the time configured, or is told that
/// there is no such entry or no room. A longer id is refused, and nothing happens.
pub proof fn inbox_awaits_subscribe<R: Repository>(
    list: Ghost<&mut WaitingList<R>>,
    before: WaitingList<R>,
    config: &Config,
    now: i64,
    id: &str,
    handle: u64,
    step: Step,
    after: WaitingList<R>,
)
    requires
        call_ensures(inbox_handler::await_handler::<R>, (list@, config, now, id, handle), step),
        before == *list@,
        after == *final(list@),
    ensures
        encode_utf8(id@).len() > 256
            ==> step@ == StepView::Respond(text_reply(400, "Inbox ID"@ + " too long"@))
            && after == before,
        encode_utf8(id@).len() <= 256 ==> {
            ||| step@ == StepView::Respond(empty_reply()) && after == before && call_ensures(
                WaitingList::<R>::is_acked_at,
                (&before, now, id),
                Some(true),
            )
            ||| exists|
                waiting: &mut WaitingList<R>,
                result: Result<AckSubscription, SubscribeError>,
            |
                {
                    &&& *waiting == before
                    &&& *final(waiting) == after
                    &&& #[trigger] call_ensures(
                        WaitingList::<R>::subscribe_ack_at,
                        (waiting, now, id, handle),
                        result,
                    )
                    &&& result matches Ok(AckSubscription::AlreadyAcked) ==> step@
                        == StepView::Respond(empty_reply())
                    &&& result matches Ok(AckSubscription::Waiting(_)) ==> step@ == StepView::Wait(
                        config.inbox_timeout,
                    )
                    &&& result == Err::<AckSubscription, _>(SubscribeError::NotFound) ==> step@
                        == StepView::Respond(text_reply(404, "Not found"@))
                    &&& result == Err::<AckSubscription, _>(SubscribeError::WaiterLimitReached)
                        ==> step@ == StepView::Respond(
                        text_reply(503, "Too many concurrent requests"@),
                    )
                }
        },
{
}

/// What a wait on an inbox came to is told: the message that arrived, that the acknowledgement
/// came, that the entry is gone, or that time ran out.
pub proof fn inbox_waits_are_answered(
    message: Waited<Message>,
    first: Reply,
    ack: Waited<()>,
    second: Reply,
)
    requires
        call_ensures(inbox_handler::get_resume, (message,), first),
        call_ensures(inbox_handler::await_resume, (ack,), second),
    ensures
        message matches Waited::Received(given) ==> first@ == message_reply(given@),
        message is Closed ==> first@ == text_reply(404, "Entry expired"@),
        message is TimedOut ==> first@ == text_reply(408, "Request timed out"@),
        ack is Received ==> second@ == empty_reply(),
        ack is Closed ==> second@ == text_reply(404, "Not found"@),
        ack is TimedOut ==> second@ == text_reply(408, "Request timed out"@),
{
}

/// What was posted to an inbox and kept is what a GET is answered with until the lifetime
/// configured is over, byte by byte, where the entry can be read; from then on no GET is answered
/// with it.
pub proof fn inbox_messages_live_for_the_configured_time<R: Repository>(
    list: Ghost<&mut WaitingList<R>>,
    config: &Config,
    before: WaitingList<R>,
    now: i64,
    id: String,
    content_type: Option<&HeaderValue>,
    body: Bytes,
    answer: (Reply, Option<StoreOutcome>),
    between: WaitingList<R>,
    next: Ghost<&mut WaitingList<R>>,
    later: i64,
    name: &str,
    handle: u64,
    step: Step,
)
    requires
        call_ensures(
            inbox_handler::post_handler::<R>,
            (list@, config, now, id, content_type, body),
            answer,
        ),
        before == *list@,
        between == *final(list@),
        call_ensures(inbox_handler::get_handler::<R>, (next@, config, later, name, handle), step),
        between == *next@,
        name@ == id@,
        before.exclusive(),
        answer.0.status == 200,
        now + duration_millis(config.inbox_cache_ttl) <= i64::MAX,
    ensures
        later - now < duration_millis(config.inbox_cache_ttl) && !between.reading_may_fail(id@)
            ==> (
        step matches Step::Respond(reply) && reply.status == 200 && bytes_content(&reply.body)
            == bytes_content(&body)),
        later - now >= duration_millis(config.inbox_cache_ttl) ==> step@ == StepView::Wait(
            config.inbox_timeout,
        ) || step@ == StepView::Respond(text_reply(503, "Too many concurrent requests"@)),
{
    let outcome = answer.1->0;
    let (waiting, message) = choose|waiting: &mut WaitingList<R>, message: Message|
        {
            &&& *waiting == before
            &&& *final(waiting) == between
            &&& request_message(content_type, body, message@)
            &&& #[trigger] call_ensures(
                WaitingList::<R>::store_at,
                (waiting, now, id, message, config.inbox_cache_ttl),
                outcome,
            )
        };
    let (reading, result) = choose|
        reading: &mut WaitingList<R>,
        result: Result<GetOrSubscribeResult, SubscribeError>,
    |
        {
            &&& *reading == between
            &&& step@ == inbox_handler::get_step(result, config.inbox_timeout)
            &&& #[trigger] call_ensures(
                WaitingList::<R>::get_or_subscribe_at,
                (reading, later, name, handle),
                result,
            )
        };
    stored_messages_live_their_lifetime(
        Ghost(waiting),
        before,
        now,
        id,
        message,
        config.inbox_cache_ttl,
        outcome,
        between,
        Ghost(reading),
        later,
        name,
        handle,
        result,
    );
}

/// A GET on a link asks for the message under any id of up to 256 bytes: what is there is
/// delivered, a request that waits does so for the time configured, and one for which there is no
/// room is answered with a 503. A longer id is refused, and nothing happens.
pub proof fn link_gets_deliver_or_wait<R: Repository>(
    list: Ghost<&mut WaitingList<R>>,
    before: WaitingList<R>,
    config: &Config,
    now: i64,
    id: &str,
    handle: u64,
    step: ConsumerStep,
    after: WaitingList<R>,
)
    requires
        call_ensures(link_handler::get_handler::<R>, (list@, config, now, id, handle), step),
        before == *list@,
        after == *final(list@),
    ensures
        encode_utf8(id@).len() > 256
            ==> step@ == ConsumerStepView::Respond(text_reply(400, "Channel ID"@ + " too long"@))
            && after == before,
        encode_utf8(id@).len() <= 256 ==> exists|
            waiting: &mut WaitingList<R>,
            result: Result<GetOrSubscribeResult, SubscribeError>,
        |
            {
                &&& *waiting == before
                &&& *final(waiting) == after
                &&& #[trigger] call_ensures(
                    WaitingList::<R>::get_or_subscribe_at,
                    (waiting, now, id, handle),
                    result,
                )
                &&& result matches Ok(GetOrSubscribeResult::Message(message)) ==> step@
                    == ConsumerStepView::Deliver(message@)
                &&& result matches Ok(GetOrSubscribeResult::Waiting(_)) ==> step@
                    == ConsumerStepView::Wait(config.link_timeout)
                &&& result is Err ==> step@ == ConsumerStepView::Respond(
                    text_reply(503, "Too many concurrent requests"@),
                )
            },
{
}

/// A delivery on a link forwards the message as it is, marked as deprecated, and acknowledges its
/// entry, handing on whom to tell.
pub proof fn link_deliveries_acknowledge<R: Repository>(
    list: Ghost<&mut WaitingList<R>>,
    before: WaitingList<R>,
    now: i64,
    id: &str,
    message: Message,
    answer: (Reply, Vec<u64>),
    after: WaitingList<R>,
)
    requires
        call_ensures(link_handler::deliver::<R>, (list@, now, id, message), answer),
        before == *list@,
        after == *final(list@),
    ensures
        answer.0.status == 200,
        bytes_content(&answer.0.body) == bytes_content(&message.body),
        answer.0.deprecated,
        answer.0@.content_type == message_reply(message@).content_type,
        exists|waiting: &mut WaitingList<R>, outcome: AckOutcome|
            {
                &&& *waiting == before
                &&& *final(waiting) == after
                &&& #[trigger] call_ensures(WaitingList::<R>::ack_at, (waiting, now, id), outcome)
                &&& answer.1@ == outcome.notified@
            },
{
}

/// A POST to a link stores what was sent for as long as its request waits, under any id of up to
/// 256 bytes. One whose message was not kept is answered with a 500; one whose message was kept
/// subscribes to its acknowledgement. A longer id is refused, and nothing happens.
pub proof fn link_posts_store_and_subscribe<R: Repository>(
    list: Ghost<&mut WaitingList<R>>,
    before: WaitingList<R>,
    config: &Config,
    now: i64,
    id: String,
    content_type: Option<&HeaderValue>,
    body: Bytes,
    handle: u64,
    answer: link_handler::ProducerAnswer,
    after: WaitingList<R>,
)
    requires
        call_ensures(
            link_handler::post_handler::<R>,
            (list@, config, now, id, content_type, body, handle),
            answer,
        ),
        before == *list@,
        after == *final(list@),
    ensures
        encode_utf8(id@).len() > 256
            ==> answer.step@ == StepView::Respond(text_reply(400, "Channel ID"@ + " too long"@))
            && answer.stored is None && after == before,
        encode_utf8(id@).len() <= 256 ==> answer.stored is Some,
        encode_utf8(id@).len() <= 256 && answer.stored->0.persisted is Err
            ==> answer.step@ == StepView::Respond(
            text_reply(500, "Failed to store message"@),
        ) && exists|waiting: &mut WaitingList<R>, name: String, message: Message|
            {
                &&& *waiting == before
                &&& *final(waiting) == after
                &&& name@ == id@
                &&& bytes_content(&message.body) == bytes_content(&body)
                &&& #[trigger] call_ensures(
                    WaitingList::<R>::store_at,
                    (waiting, now, name, message, config.link_timeout),
                    answer.stored->0,
                )
            },
        encode_utf8(id@).len() <= 256 && answer.stored->0.persisted is Ok ==> exists|
            waiting: &mut WaitingList<R>,
            name: String,
            message: Message,
            next: &mut WaitingList<R>,
            text: &str,
            result: Result<AckSubscription, SubscribeError>,
        |
            {
                &&& *waiting == before
                &&& *final(waiting) == *next
                &&& *final(next) == after
                &&& name@ == id@
                &&& text@ == id@
                &&& bytes_content(&message.body) == bytes_content(&body)
                &&& request_message(content_type, body, message@)
                &&& #[trigger] call_ensures(
                    WaitingList::<R>::store_at,
                    (waiting, now, name, message, config.link_timeout),
                    answer.stored->0,
                )
                &&& #[trigger] call_ensures(
                    WaitingList::<R>::subscribe_ack_at,
                    (next, now, text, handle),
                    result,
                )
                &&& result matches Ok(AckSubscription::AlreadyAcked) ==> (
                answer.step matches Step::Respond(reply) && reply.status == 200 && bytes_content(
                    &reply.body,
                ).len() == 0 && reply.deprecated)
                &&& result matches Ok(AckSubscription::Waiting(_)) ==> answer.step@
                    == StepView::Wait(config.link_timeout)
                &&& result == Err::<AckSubscription, _>(SubscribeError::NotFound) ==> answer.step@
                    == StepView::Respond(text_reply(503, "Server at capacity"@))
                &&& result == Err::<AckSubscription, _>(SubscribeError::WaiterLimitReached)
                    ==> answer.step@ == StepView::Respond(
                    text_reply(503, "Too many concurrent requests"@),
                )
            },
{
}

/// What a wait on a link came to is told: a message that arrived is delivered; a producer is told
/// that its message was taken; or that the entry is gone, or that time ran out. A producer's reply
/// is marked as deprecated.
pub proof fn link_waits_are_answered(
    message: Waited<Message>,
    first: ConsumerStep,
    ack: Waited<()>,
    second: Reply,
)
    requires
        call_ensures(link_handler::get_resume, (message,), first),
        call_ensures(link_handler::post_resume, (ack,), second),
    ensures
        message matches Waited::Received(given) ==> first@ == ConsumerStepView::Deliver(given@),
        message is Closed
            ==> first@ == ConsumerStepView::Respond(text_reply(404, "Entry expired"@)),
        message is TimedOut
            ==> first@ == ConsumerStepView::Respond(text_reply(408, "Request timed out"@)),
        second.deprecated,
        second.content_type is None,
        ack is Received ==> second.status == 200 && bytes_content(&second.body).len() == 0,
        ack is Closed ==> second.status == 404
            && bytes_content(&second.body) == encode_utf8("Entry expired"@),
        ack is TimedOut ==> second.status == 408
            && bytes_content(&second.body) == encode_utf8("Request timed out"@),
{
}

/// A relay that nothing was configured of listens on the loopback address, on a free port, waits
/// ten minutes or twenty-five seconds, keeps messages for five minutes, takes bodies of two
/// kilobytes and ten thousand of everything else, keeps its entries in memory, and lets browsers
/// call from anywhere.
pub proof fn defaults_are_as_documented(config: Config)
    requires
        call_ensures(Config::default, (), config),
    ensures
        config.bind_address == IpAddress::V4(127, 0, 0, 1),
        config.http_port == 0,
        duration_millis(config.link_timeout) == 600_000,
        duration_millis(config.inbox_timeout) == 25_000,
        duration_millis(config.inbox_cache_ttl) == 300_000,
        duration_millis(config.request_timeout) == 600_000,
        duration_millis(config.link2_timeout) == 25_000,
        duration_millis(config.cache_ttl) == 300_000,
        config.max_body_size == 2048,
        config.max_entries == 10_000,
        config.max_pending == 10_000,
        config.max_cache == 10_000,
        config.persist_db is None,
        config.cors_allow_all,
{
}

/// A builder starts from the defaults.
pub proof fn builders_start_from_the_defaults(builder: HttpRelayBuilder)
    requires
        call_ensures(HttpRelay::builder, (), builder)
            || call_ensures(HttpRelayBuilder::default, (), builder),
    ensures
        builder.config().bind_address == IpAddress::V4(127, 0, 0, 1),
        builder.config().http_port == 0,
        duration_millis(builder.config().link_timeout) == 600_000,
        duration_millis(builder.config().inbox_timeout) == 25_000,
        duration_millis(builder.config().inbox_cache_ttl) == 300_000,
        duration_millis(builder.config().request_timeout) == 600_000,
        duration_millis(builder.config().link2_timeout) == 25_000,
        duration_millis(builder.config().cache_ttl) == 300_000,
        builder.config().max_body_size == 2048,
        builder.config().max_entries == 10_000,
        builder.config().max_pending == 10_000,
        builder.config().max_cache == 10_000,
        builder.config().persist_db is None,
        builder.config().cors_allow_all,
{
}

/// The root tells what this server is, as plain text.
pub proof fn root_tells_its_name(reply: Reply)
    requires
        call_ensures(root_handler, (), reply),
    ensures
        reply.status == 200,
        bytes_content(&reply.body) == encode_utf8("Http Relay"@),
        !reply.deprecated,
        reply.content_type matches Some(value)
            && header_bytes(&value) == encode_utf8("text/plain; charset=utf-8"@),
{
    reveal_strlit("text/plain; charset=utf-8");
    let text = "text/plain; charset=utf-8"@;
    assert(is_ascii_chars(text));
    is_ascii_chars_encode_utf8(text);
    assert forall|i: int| 0 <= i < encode_utf8(text).len() implies is_header_byte(
        #[trigger] encode_utf8(text)[i],
    ) by {
        assert(encode_utf8(text)[i] == text[i] as u8);
        assert(32 <= text[i] as u8 <= 126);
    }
    assert(fits_header(encode_utf8(text)));
}

/// Quiet is off; otherwise each further `-v` tells more, from warnings to everything.
pub proof fn verbosity_is_stepwise(verbose: u8, quiet: bool, level: LevelFilter)
    requires
        call_ensures(log_level, (verbose, quiet), level),
    ensures
        level is OFF <==> quiet,
        level is WARN <==> !quiet && verbose == 0,
        level is INFO <==> !quiet && verbose == 1,
        level is DEBUG <==> !quiet && verbose == 2,
        level is TRACE <==> !quiet && verbose >= 3,
{
}

/// A list's answer to a request for a message becomes the next step, on the inbox and on the link.
pub proof fn list_answers_to_gets_become_steps(
    result: Result<GetOrSubscribeResult, SubscribeError>,
    timeout: Duration,
    inbox: Step,
    link: ConsumerStep,
)
    requires
        call_ensures(inbox_handler::answer_get, (result, timeout), inbox),
        call_ensures(link_handler::answer_get, (result, timeout), link),
    ensures
        result matches Ok(GetOrSubscribeResult::Message(message)) ==> inbox@ == StepView::Respond(
            message_reply(message@),
        ) && link@ == ConsumerStepView::Deliver(message@),
        result matches Ok(GetOrSubscribeResult::Waiting(_)) ==> inbox@ == StepView::Wait(timeout)
            && link@ == ConsumerStepView::Wait(timeout),
        result is Err
            ==> inbox@ == StepView::Respond(text_reply(503, "Too many concurrent requests"@))
            && link@ == ConsumerStepView::Respond(text_reply(503, "Too many concurrent requests"@)),
{
}

/// A list's answer to a wait for an acknowledgement becomes the next step, on the inbox and on the
/// link.
pub proof fn list_answers_to_waits_become_steps(
    result: Result<AckSubscription, SubscribeError>,
    timeout: Duration,
    inbox: Step,
    link: Step,
)
    requires
        call_ensures(inbox_handler::answer_await, (result, timeout), inbox),
        call_ensures(link_handler::answer_post, (result, timeout), link),
    ensures
        result matches Ok(AckSubscription::AlreadyAcked)
            ==> inbox@ == StepView::Respond(empty_reply()),
        result matches Ok(AckSubscription::AlreadyAcked) ==> (link matches Step::Respond(reply)
            && reply.status == 200 && bytes_content(&reply.body).len() == 0
                && reply.content_type is None
            && reply.deprecated),
        result matches Ok(AckSubscription::Waiting(_)) ==> inbox@ == StepView::Wait(timeout)
            && link@ == StepView::Wait(timeout),
        result == Err::<AckSubscription, _>(SubscribeError::NotFound)
            ==> inbox@ == StepView::Respond(
            text_reply(404, "Not found"@),
        ) && link@ == StepView::Respond(text_reply(503, "Server at capacity"@)),
        result == Err::<AckSubscription, _>(SubscribeError::WaiterLimitReached) ==> inbox@
            == StepView::Respond(text_reply(503, "Too many concurrent requests"@)) && link@
            == StepView::Respond(text_reply(503, "Too many concurrent requests"@)),
{
}

/// Buffers hold what they are made of, and copies what was copied.
pub proof fn buffers_hold_what_they_are_made_of(
    nothing: Bytes,
    text: &str,
    made: Bytes,
    message: Message,
    copy: Message,
    name: Option<String>,
    same: Option<String>,
)
    requires
        call_ensures(empty, (), nothing),
        call_ensures(from_text, (text,), made),
        call_ensures(Message::clone, (&message,), copy),
        call_ensures(clone_text, (&name,), same),
    ensures
        bytes_content(&nothing).len() == 0,
        bytes_content(&made) == encode_utf8(text@),
        bytes_content(&copy.body) == bytes_content(&message.body),
        optional_text(copy.content_type) == optional_text(message.content_type),
        same is Some <==> name is Some,
        same is Some ==> same->0@ == name->0@,
{
}

/// A relay starts with its settings, its file, its limits and its entries as configured, and with
/// nobody waiting and nothing cached.
pub proof fn relays_start_as_configured(config: Config, result: Result<AppState, StorageError>)
    requires
        call_ensures(AppState::new, (config,), result),
        result is Ok,
    ensures
        result->Ok_0.config == config,
        result->Ok_0.waiting_list.wf(),
        result->Ok_0.pending_list.wf(),
        result->Ok_0.waiting_list.limit() == config.max_entries,
        result->Ok_0.waiting_list.file() == config.persist_db,
        forall|id: Seq<char>| !#[trigger] result->Ok_0.waiting_list.waiters().contains_key(id),
        config.persist_db is None ==> result->Ok_0.waiting_list.exclusive()
            && forall|id: Seq<char>| !#[trigger] result->Ok_0.waiting_list.rows().contains_key(id),
        result->Ok_0.pending_list@.max_pending == config.max_pending,
        result->Ok_0.pending_list@.max_cache == config.max_cache,
        forall|id: Seq<char>| !#[trigger] result->Ok_0.pending_list@.producers.contains_key(id),
        forall|id: Seq<char>| !#[trigger] result->Ok_0.pending_list@.consumers.contains_key(id),
        forall|id: Seq<char>| !#[trigger] result->Ok_0.pending_list@.cache.contains_key(id),
{
}

/// The settings agree but for the one that `but` numbers, in the order in which they are declared.
pub open spec fn agree_but(left: Config, right: Config, but: int) -> bool {
    &&& but == 0 || left.bind_address == right.bind_address
    &&& but == 1 || left.http_port == right.http_port
    &&& but == 2 || left.link_timeout == right.link_timeout
    &&& but == 3 || left.inbox_timeout == right.inbox_timeout
    &&& but == 4 || left.inbox_cache_ttl == right.inbox_cache_ttl
    &&& but == 5 || left.request_timeout == right.request_timeout
    &&& but == 6 || left.link2_timeout == right.link2_timeout
    &&& but == 7 || left.cache_ttl == right.cache_ttl
    &&& but == 8 || left.max_body_size == right.max_body_size
    &&& but == 9 || left.max_entries == right.max_entries
    &&& but == 10 || left.max_pending == right.max_pending
    &&& but == 11 || left.max_cache == right.max_cache
    &&& but == 12 || left.persist_db == right.persist_db
    &&& but == 13 || left.cors_allow_all == right.cors_allow_all
}

/// Each setting of a builder is set to exactly what is asked for, and no other setting changes.
pub proof fn builders_set_one_setting(
    builder: HttpRelayBuilder,
    next: HttpRelayBuilder,
    bind_address: IpAddress,
    http_port: u16,
    link_timeout: Duration,
    inbox_timeout: Duration,
    inbox_cache_ttl: Duration,
    link2_timeout: Duration,
    cache_ttl: Duration,
    max_body_size: usize,
    max_entries: usize,
    max_pending: usize,
    max_cache: usize,
    persist_db: Option<PathBuf>,
    cors_allow_all: bool,
)
    ensures
        call_ensures(HttpRelayBuilder::bind_address, (builder, bind_address), next)
            ==> next.config().bind_address == bind_address
            && agree_but(next.config(), builder.config(), 0),
        call_ensures(HttpRelayBuilder::http_port, (builder, http_port), next)
            ==> next.config().http_port == http_port
            && agree_but(next.config(), builder.config(), 1),
        call_ensures(HttpRelayBuilder::link_timeout, (builder, link_timeout), next)
            ==> next.config().link_timeout == link_timeout
            && agree_but(next.config(), builder.config(), 2),
        call_ensures(HttpRelayBuilder::inbox_timeout, (builder, inbox_timeout), next)
            ==> next.config().inbox_timeout == inbox_timeout
            && agree_but(next.config(), builder.config(), 3),
        call_ensures(HttpRelayBuilder::inbox_cache_ttl, (builder, inbox_cache_ttl), next)
            ==> next.config().inbox_cache_ttl == inbox_cache_ttl
            && agree_but(next.config(), builder.config(), 4),
        call_ensures(HttpRelayBuilder::link2_timeout, (builder, link2_timeout), next)
            ==> next.config().link2_timeout == link2_timeout
            && agree_but(next.config(), builder.config(), 6),
        call_ensures(HttpRelayBuilder::cache_ttl, (builder, cache_ttl), next)
            ==> next.config().cache_ttl == cache_ttl
            && agree_but(next.config(), builder.config(), 7),
        call_ensures(HttpRelayBuilder::max_body_size, (builder, max_body_size), next)
            ==> next.config().max_body_size == max_body_size
            && agree_but(next.config(), builder.config(), 8),
        call_ensures(HttpRelayBuilder::max_entries, (builder, max_entries), next)
            ==> next.config().max_entries == max_entries
            && agree_but(next.config(), builder.config(), 9),
        call_ensures(HttpRelayBuilder::max_pending, (builder, max_pending), next)
            ==> next.config().max_pending == max_pending
            && agree_but(next.config(), builder.config(), 10),
        call_ensures(HttpRelayBuilder::max_cache, (builder, max_cache), next)
            ==> next.config().max_cache == max_cache
            && agree_but(next.config(), builder.config(), 11),
        call_ensures(HttpRelayBuilder::persist_db, (builder, persist_db), next)
            ==> next.config().persist_db == persist_db
            && agree_but(next.config(), builder.config(), 12),
        call_ensures(HttpRelayBuilder::cors_allow_all, (builder, cors_allow_all), next)
            ==> next.config().cors_allow_all == cors_allow_all
            && agree_but(next.config(), builder.config(), 13),
{
}

/// A builder hands out its settings as they were made.
pub proof fn builders_hand_out_their_settings(builder: HttpRelayBuilder, config: Config)
    requires
        call_ensures(HttpRelayBuilder::into_config, (builder,), config),
    ensures
        config == builder.config(),
{
}

/// The number that a text of decimal digits stands for.
pub open spec fn number_of(digits: Seq<char>) -> int
    decreases digits.len(),
{
    if digits.len() == 0 {
        0
    } else {
        number_of(digits.drop_last()) * 10 + (digits.last() as u32 - '0' as u32)
    }
}

/// The text is a number as it is usually written: of digits, at least one of them, the first of
/// which is no zero unless it is the only one.
pub open spec fn is_numeral(digits: Seq<char>) -> bool {
    &&& digits.len() > 0
    &&& digits[0] == '0' ==> digits.len() == 1
    &&& forall|i: int| 0 <= i < digits.len() ==> '0' <= #[trigger] digits[i] <= '9'
}

proof fn decimal_is_numeral(n: nat)
    ensures
        is_numeral(decimal(n)),
        number_of(decimal(n)) == n,
        n > 0 ==> decimal(n)[0] != '0',
    decreases n,
{
    if n < 10 {
        let digits = decimal(n);
        assert(digits.drop_last() =~= Seq::empty());
        assert(number_of(digits.drop_last()) == 0);
    } else {
        decimal_is_numeral(n / 10);
        let digits = decimal(n);
        assert(digits.drop_last() =~= decimal(n / 10));
        assert(digits[0] == decimal(n / 10)[0]);
        assert forall|i: int| 0 <= i < digits.len() implies '0' <= #[trigger] digits[i] <= '9' by {
            if i < digits.len() - 1 {
                assert(digits[i] == decimal(n / 10)[i]);
            }
        }
    }
}

/// A number is written so that reading its digits gives the number back, without leading zeros.
pub proof fn numbers_are_written_to_be_read(n: u16, text: String)
    requires
        call_ensures(decimal_text, (n,), text),
    ensures
        is_numeral(text@),
        number_of(text@) == n,
{
    decimal_is_numeral(n as nat);
}

/// The URL of a relay names this machine and the port that the relay listens on, unless that is the
/// default port of HTTP; that of its link endpoints lies below it.
pub proof fn urls_name_the_port(relay: HttpRelay, url: Url, link: Url, address: SocketAddress)
    requires
        call_ensures(HttpRelay::local_url, (&relay,), url),
        call_ensures(HttpRelay::local_link_url, (&relay,), link),
        call_ensures(HttpRelay::http_address, (&relay,), address),
    ensures
        address == relay.address(),
        address.port == 80 ==> url_text(&url) == "http://localhost/"@,
        address.port != 80 ==> exists|digits: Seq<char>| #[trigger]
            is_numeral(digits) && number_of(digits) == address.port && url_text(&url)
                == "http://localhost:"@ + digits + "/"@,
        url_text(&link) == url_text(&url) + "link"@,
{
    decimal_is_numeral(address.port as nat);
}

/// A relay listens where it was told.
pub proof fn relays_listen_where_told(address: SocketAddress, relay: HttpRelay)
    requires
        call_ensures(HttpRelay::new, (address,), relay),
    ensures
        relay.address() == address,
{
}

/// A relay keeps its entries in the repository that was opened for it: on the file configured, or
/// in memory, and with the limit configured.
pub proof fn relays_open_their_repository(
    config: Config,
    result: Result<AppState, StorageError>,
)
    requires
        call_ensures(AppState::new, (config,), result),
        result is Ok,
    ensures
        exists|path: Option<&PathBuf>, repository: EntryRepository|
            {
                &&& path is Some <==> config.persist_db is Some
                &&& path is Some ==> *path->0 == config.persist_db->0
                &&& result->Ok_0.waiting_list.repository() == repository
                &&& #[trigger] call_ensures(
                    EntryRepository::new,
                    (path, config.max_entries),
                    Ok(repository),
                )
            },
{
}

/// A value's mathematical counterpart shows all of it: a message its bytes and its content type, an
/// entry its columns, and a reply its status, its bytes and its headers.
pub proof fn views_show_all(
    message: Message,
    entry: StoredEntry,
    reply: Reply,
    producer: Producer,
)
    ensures
        message@.body == bytes_content(&message.body),
        message@.content_type is Some <==> message.content_type is Some,
        message.content_type is Some ==> message@.content_type->0 == message.content_type->0@,
        entry@.message_body is Some <==> entry.message_body is Some,
        entry.message_body is Some ==> entry@.message_body->0 == entry.message_body->0@,
        entry@.content_type is Some <==> entry.content_type is Some,
        entry.content_type is Some ==> entry@.content_type->0 == entry.content_type->0@,
        entry@.acked == entry.acked,
        entry@.expires_at == entry.expires_at,
        reply@.status == reply.status,
        reply@.body == bytes_content(&reply.body),
        reply@.deprecated == reply.deprecated,
        reply@.content_type is Some <==> reply.content_type is Some,
        reply.content_type is Some
            ==> reply@.content_type->0 == header_bytes(&reply.content_type->0),
        producer@.message == producer.message@,
        producer@.completion == producer.completion,
{
}

} // verus!
