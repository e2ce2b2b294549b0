//! Link handler - synchronous producer/consumer handoff with auto-ACK.
//!
//! As with the inbox, a request is answered in steps: the first looks at the waiting list and
//! either replies or asks the caller to wait. A consumer's request takes one step more, the
//! delivery, which acknowledges the message.
//!
//! # Deprecation Notice
//!
//! The `/link/` endpoint is deprecated. Use `/inbox/` instead for new integrations.
//! Link provides backwards-compatible synchronous handoff by auto-acknowledging on GET.
//!
//! # Security
//!
//! Channel IDs act as shared secrets. Anyone who knows an ID can read/write to that
//! channel. IDs must be cryptographically random (e.g., 128-bit UUIDs). Predictable
//! IDs allow attackers to intercept messages.

use crate::clock::has_expired;
use crate::request::{read_message, request_message, Step, StepView, Waited};
use crate::laws::{deadline, store_writes_and_spares};
use crate::payload::{Message, MessageView};
use crate::repository::Repository;
use crate::response::{
    accepted, deprecate, empty_reply, forward, is_too_long, marked_deprecated, message_reply, plain,
    text_reply, too_long_reply, validate_id_length, Reply, ReplyView, INTERNAL_SERVER_ERROR,
    NOT_FOUND, REQUEST_TIMEOUT, SERVICE_UNAVAILABLE,
};
use crate::server::Config;
use crate::waiters::acks_of;
use crate::waiting_list::{
    AckOutcome, AckSubscription, GetOrSubscribeResult, Reading, StoreOutcome, SubscribeError,
    WaitingList,
};
use axum::http::HeaderValue;
use bytes::Bytes;
use std::time::Duration;
use vstd::prelude::*;

verus! {

/// What to do about a consumer's request.
pub enum ConsumerStep {
    /// Reply to it.
    Respond(Reply),
    /// Wait until a message arrives, the request is let go, or this much time has passed.
    Wait(Duration),
    /// Acknowledge this message and reply with it, by [`deliver`].
    Deliver(Message),
}

/// What to do about a consumer's request, as a mathematical value.
pub enum ConsumerStepView {
    Respond(ReplyView),
    Wait(Duration),
    Deliver(MessageView),
}

impl View for ConsumerStep {
    type V = ConsumerStepView;

    open spec fn view(&self) -> ConsumerStepView {
        match self {
            ConsumerStep::Respond(reply) => ConsumerStepView::Respond(reply@),
            ConsumerStep::Wait(timeout) => ConsumerStepView::Wait(*timeout),
            ConsumerStep::Deliver(message) => ConsumerStepView::Deliver(message@),
        }
    }
}

/// What to do about a consumer's request, by what the waiting list answered.
pub open spec fn consumer_step(
    result: Result<GetOrSubscribeResult, SubscribeError>,
    timeout: Duration,
) -> ConsumerStepView {
    match result {
        Ok(GetOrSubscribeResult::Message(message)) => ConsumerStepView::Deliver(message@),
        Ok(GetOrSubscribeResult::Waiting(_)) => ConsumerStepView::Wait(timeout),
        Err(_) => ConsumerStepView::Respond(
            text_reply(SERVICE_UNAVAILABLE, "Too many concurrent requests"@),
        ),
    }
}

/// What to do about a producer's request whose message was stored, by what the waiting list
/// answered to the subscription.
pub open spec fn producer_step(
    result: Result<AckSubscription, SubscribeError>,
    timeout: Duration,
) -> StepView {
    match result {
        Ok(AckSubscription::AlreadyAcked) => StepView::Respond(marked_deprecated(empty_reply())),
        Ok(AckSubscription::Waiting(_)) => StepView::Wait(timeout),
        Err(SubscribeError::NotFound) => StepView::Respond(
            text_reply(SERVICE_UNAVAILABLE, "Server at capacity"@),
        ),
        Err(SubscribeError::WaiterLimitReached) => StepView::Respond(
            text_reply(SERVICE_UNAVAILABLE, "Too many concurrent requests"@),
        ),
    }
}

/// GET /link/{id} - Consumer waits for producer.
/// This maintains backwards compatibility with the synchronous handoff model.
pub fn get_handler<R: Repository>(
    list: &mut WaitingList<R>,
    config: &Config,
    now: i64,
    id: &str,
    handle: u64,
) -> (step: ConsumerStep)
    requires
        old(list).wf(),
    ensures
        if is_too_long(id@) {
            &&& step@ == ConsumerStepView::Respond(too_long_reply("Channel ID"@))
            &&& *final(list) == *old(list)
        } else {
            exists|result: Result<GetOrSubscribeResult, SubscribeError>|
                #[trigger] WaitingList::message_requested(
                    *old(list),
                    now,
                    id@,
                    handle,
                    result,
                    *final(list),
                ) && step@ == consumer_step(result, config.link_timeout)
        },
        !is_too_long(id@) ==> exists|
            waiting: &mut WaitingList<R>,
            result: Result<GetOrSubscribeResult, SubscribeError>,
        |
            *waiting == *old(list) && *final(waiting) == *final(list) && step@ == consumer_step(
                result,
                config.link_timeout,
            ) && #[trigger] call_ensures(
                WaitingList::<R>::get_or_subscribe_at,
                (waiting, now, id, handle),
                result,
            ),
{
    if let Err(reply) = validate_id_length(id, "Channel ID") {
        return ConsumerStep::Respond(reply);
    }
    // Get message or wait for it
    let result: Result<GetOrSubscribeResult, SubscribeError> = list.get_or_subscribe_at(
        now,
        id,
        handle,
    );
    answer_get(result, config.link_timeout)
}

/// Turns the waiting list's answer to a consumer into the next step.
pub fn answer_get(
    result: Result<GetOrSubscribeResult, SubscribeError>,
    timeout: Duration,
) -> (step: ConsumerStep)
    ensures
        step@ == consumer_step(result, timeout),
{
    match result {
        Ok(GetOrSubscribeResult::Message(message)) => ConsumerStep::Deliver(message),
        Ok(GetOrSubscribeResult::Waiting(_)) => ConsumerStep::Wait(timeout),
        Err(_) => ConsumerStep::Respond(
            plain(SERVICE_UNAVAILABLE, "Too many concurrent requests"),
        ),
    }
}

/// What to do about a consumer's request that had to wait.
pub fn get_resume(waited: Waited<Message>) -> (step: ConsumerStep)
    ensures
        step@ == match waited {
            Waited::Received(message) => ConsumerStepView::Deliver(message@),
            Waited::Closed => ConsumerStepView::Respond(text_reply(NOT_FOUND, "Entry expired"@)),
            Waited::TimedOut => ConsumerStepView::Respond(
                text_reply(REQUEST_TIMEOUT, "Request timed out"@),
            ),
        },
{
    match waited {
        Waited::Received(message) => ConsumerStep::Deliver(message),
        Waited::Closed => ConsumerStep::Respond(plain(NOT_FOUND, "Entry expired")),
        Waited::TimedOut => ConsumerStep::Respond(plain(REQUEST_TIMEOUT, "Request timed out")),
    }
}

/// Auto-ACK to signal the producer that the consumer received the message, and reply with it.
/// Hands back the requests to notify.
pub fn deliver<R: Repository>(
    list: &mut WaitingList<R>,
    now: i64,
    id: &str,
    message: Message,
) -> (answer: (Reply, Vec<u64>))
    requires
        old(list).wf(),
    ensures
        answer.0@ == marked_deprecated(message_reply(message@)),
        exists|outcome: AckOutcome|
            answer.1 == outcome.notified && #[trigger] WaitingList::acked_at(
                *old(list),
                now,
                id@,
                outcome,
                *final(list),
            ),
        exists|waiting: &mut WaitingList<R>, outcome: AckOutcome|
            *waiting == *old(list) && *final(waiting) == *final(list) && answer.1
                == outcome.notified && #[trigger] call_ensures(
                WaitingList::<R>::ack_at,
                (waiting, now, id),
                outcome,
            ),
{
    let outcome: AckOutcome = list.ack_at(now, id);
    (deprecate(forward(message)), outcome.notified)
}

/// What comes of a producer's request at first.
pub struct ProducerAnswer {
    /// What to do about the request.
    pub step: Step,
    /// What came of storing its message, unless the id was refused.
    pub stored: Option<StoreOutcome>,
}

/// How a producer's request at `now` is answered, and how it changes the list, where the list once
/// the message is stored is `between`: if the message was persisted, the request then subscribes
/// to its acknowledgement, and reading the entry for that comes to `reading`. A message lives as
/// long as the request for it waits, `ttl`.
pub open spec fn produced_through<R: Repository>(
    before: WaitingList<R>,
    now: i64,
    id: Seq<char>,
    message: MessageView,
    ttl: Duration,
    handle: u64,
    answer: ProducerAnswer,
    between: WaitingList<R>,
    reading: Reading,
    after: WaitingList<R>,
) -> bool {
    &&& answer.stored matches Some(outcome)
    &&& WaitingList::stored(before, now, id, message, ttl, outcome, between)
    &&& if outcome.persisted is Ok {
        exists|result: Result<AckSubscription, SubscribeError>|
            answer.step@ == producer_step(result, ttl) && #[trigger] WaitingList::subscribed_given(
                between,
                now,
                id,
                handle,
                reading,
                result,
                after,
            )
    } else {
        &&& answer.step@ == StepView::Respond(
            text_reply(INTERNAL_SERVER_ERROR, "Failed to store message"@),
        )
        &&& after == between
    }
}

/// How a producer's request at `now` is answered, and how it changes the list: the message is
/// stored, and then the request subscribes to its acknowledgement.
pub open spec fn produced<R: Repository>(
    before: WaitingList<R>,
    now: i64,
    id: Seq<char>,
    message: MessageView,
    ttl: Duration,
    handle: u64,
    answer: ProducerAnswer,
    after: WaitingList<R>,
) -> bool {
    exists|between: WaitingList<R>, reading: Reading| #[trigger]
        produced_through(before, now, id, message, ttl, handle, answer, between, reading, after)
}

/// POST /link/{id} - Producer sends and waits for consumer ACK.
/// This maintains backwards compatibility with the synchronous handoff model.
pub fn post_handler<R: Repository>(
    list: &mut WaitingList<R>,
    config: &Config,
    now: i64,
    id: String,
    content_type: Option<&HeaderValue>,
    body: Bytes,
    handle: u64,
) -> (answer: ProducerAnswer)
    requires
        old(list).wf(),
    ensures
        if is_too_long(id@) {
            &&& answer.step@ == StepView::Respond(too_long_reply("Channel ID"@))
            &&& answer.stored is None
            &&& *final(list) == *old(list)
        } else {
            exists|message: MessageView|
                request_message(content_type, body, message) && #[trigger] produced(
                    *old(list),
                    now,
                    id@,
                    message,
                    config.link_timeout,
                    handle,
                    answer,
                    *final(list),
                )
        },
        !is_too_long(id@) ==> answer.stored is Some && exists|
            waiting: &mut WaitingList<R>,
            name: String,
            message: Message,
        |
            {
                &&& *waiting == *old(list)
                &&& name@ == id@
                &&& request_message(content_type, body, message@)
                &&& #[trigger] call_ensures(
                    WaitingList::<R>::store_at,
                    (waiting, now, name, message, config.link_timeout),
                    answer.stored->0,
                )
                &&& answer.stored->0.persisted is Err ==> {
                    &&& *final(waiting) == *final(list)
                    &&& answer.step@ == StepView::Respond(
                        text_reply(INTERNAL_SERVER_ERROR, "Failed to store message"@),
                    )
                }
            },
        !is_too_long(id@) && answer.stored->0.persisted is Ok ==> exists|
            waiting: &mut WaitingList<R>,
            name: String,
            message: Message,
            next: &mut WaitingList<R>,
            text: &str,
            result: Result<AckSubscription, SubscribeError>,
        |
            {
                &&& *waiting == *old(list)
                &&& name@ == id@
                &&& request_message(content_type, body, message@)
                &&& #[trigger] call_ensures(
                    WaitingList::<R>::store_at,
                    (waiting, now, name, message, config.link_timeout),
                    answer.stored->0,
                )
                &&& *final(waiting) == *next
                &&& *final(next) == *final(list)
                &&& text@ == id@
                &&& answer.step@ == producer_step(result, config.link_timeout)
                &&& #[trigger] call_ensures(
                    WaitingList::<R>::subscribe_ack_at,
                    (next, now, text, handle),
                    result,
                )
            },
{
    if let Err(reply) = validate_id_length(id.as_str(), "Channel ID") {
        return ProducerAnswer { step: Step::Respond(reply), stored: None };
    }
    let timeout: Duration = config.link_timeout;
    let message: Message = read_message(content_type, body);
    // Store message and subscribe for ACK notification
    let outcome: StoreOutcome = list.store_at(now, id.clone(), message, timeout);
    let ghost between = *list;
    if outcome.persisted.is_err() {
        let answer = ProducerAnswer {
            step: Step::Respond(plain(INTERNAL_SERVER_ERROR, "Failed to store message")),
            stored: Some(outcome),
        };
        assert(produced_through(
            *old(list),
            now,
            id@,
            message@,
            timeout,
            handle,
            answer,
            between,
            Reading::Absent,
            *list,
        ));
        assert(produced(*old(list), now, id@, message@, timeout, handle, answer, *list));
        return answer;
    }
    // Subscribe to get notified when consumer ACKs
    let result: Result<AckSubscription, SubscribeError> = list.subscribe_ack_at(
        now,
        id.as_str(),
        handle,
    );
    let answer = ProducerAnswer { step: answer_post(result, timeout), stored: Some(outcome) };
    let ghost reading = choose|reading: Reading| #[trigger]
        WaitingList::subscribed_given(between, now, id@, handle, reading, result, *list);
    assert(produced_through(
        *old(list),
        now,
        id@,
        message@,
        timeout,
        handle,
        answer,
        between,
        reading,
        *list,
    ));
    assert(produced(*old(list), now, id@, message@, timeout, handle, answer, *list));
    answer
}

/// Turns the waiting list's answer to a producer's subscription into the next step.
pub fn answer_post(
    result: Result<AckSubscription, SubscribeError>,
    timeout: Duration,
) -> (step: Step)
    ensures
        step@ == producer_step(result, timeout),
{
    match result {
        Ok(AckSubscription::AlreadyAcked) => Step::Respond(deprecate(accepted())),
        Ok(AckSubscription::Waiting(_)) => Step::Wait(timeout),
        // Entry was immediately evicted (shouldn't happen normally)
        Err(SubscribeError::NotFound) => Step::Respond(
            plain(SERVICE_UNAVAILABLE, "Server at capacity"),
        ),
        Err(SubscribeError::WaiterLimitReached) => Step::Respond(
            plain(SERVICE_UNAVAILABLE, "Too many concurrent requests"),
        ),
    }
}

/// Replies to a producer that waited for the consumer to ACK (i.e., GET the message).
pub fn post_resume(waited: Waited<()>) -> (reply: Reply)
    ensures
        reply@ == marked_deprecated(
            match waited {
                Waited::Received(_) => empty_reply(),
                Waited::Closed => text_reply(NOT_FOUND, "Entry expired"@),
                Waited::TimedOut => text_reply(REQUEST_TIMEOUT, "Request timed out"@),
            },
        ),
{
    deprecate(
        match waited {
            Waited::Received(_) => accepted(),
            // Entry expired or was evicted
            Waited::Closed => plain(NOT_FOUND, "Entry expired"),
            Waited::TimedOut => plain(REQUEST_TIMEOUT, "Request timed out"),
        },
    )
}

/// The handoff: a producer whose message was stored waits, unless the message expired at once; a
/// consumer who comes before it expires is given that very message; and its delivery tells the
/// producer. This holds where the repository answers.
pub proof fn handoff<R: Repository>(
    before: WaitingList<R>,
    now: i64,
    id: Seq<char>,
    message: MessageView,
    ttl: Duration,
    producer: u64,
    answer: ProducerAnswer,
    between: WaitingList<R>,
    producer_reading: Reading,
    waiting: WaitingList<R>,
    later: i64,
    consumer: u64,
    consumer_reading: Reading,
    result: Result<GetOrSubscribeResult, SubscribeError>,
    fetched: WaitingList<R>,
    delivery: i64,
    delivery_reading: Reading,
    outcome: AckOutcome,
    after: WaitingList<R>,
)
    requires
        produced_through(
            before,
            now,
            id,
            message,
            ttl,
            producer,
            answer,
            between,
            producer_reading,
            waiting,
        ),
        WaitingList::requested_given(
            waiting,
            later,
            id,
            consumer,
            consumer_reading,
            result,
            fetched,
        ),
        WaitingList::acked_given(fetched, delivery, id, delivery_reading, outcome, after),
        before.exclusive(),
        answer.stored->0.persisted is Ok,
        producer_reading !is Failed,
        consumer_reading !is Failed,
        before.certain() || outcome.acked,
        !has_expired(now, deadline(now, ttl)),
        !has_expired(later, deadline(now, ttl)),
        !has_expired(delivery, deadline(now, ttl)),
    ensures
        answer.step@ == StepView::Wait(ttl),
        consumer_step(result, ttl) == ConsumerStepView::Deliver(message),
        outcome.acked,
        outcome.notified@ == seq![producer],
        acks_of(after.waiters(), id).len() == 0,
{
    let stored = answer.stored->0;
    store_writes_and_spares(before, now, id, message, ttl, stored, between);
    assert(acks_of(between.waiters(), id) =~= Seq::empty());
    let subscription = choose|result: Result<AckSubscription, SubscribeError>|
        answer.step@ == producer_step(result, ttl) && #[trigger] WaitingList::subscribed_given(
            between,
            now,
            id,
            producer,
            producer_reading,
            result,
            waiting,
        );
    assert(subscription == Ok::<_, SubscribeError>(AckSubscription::Waiting(producer)));
    assert(acks_of(waiting.waiters(), id) =~= seq![producer]);
    assert(waiting.rows() == between.rows());
}

/// The handoff to a consumer who came first: the consumer is sent the message of the next producer,
/// whether or not it could be kept; where it was kept and has not expired, and the repository
/// answers, its delivery tells the producer.
pub proof fn early_handoff<R: Repository>(
    before: WaitingList<R>,
    now: i64,
    id: Seq<char>,
    consumer: u64,
    subscribed: WaitingList<R>,
    later: i64,
    message: MessageView,
    ttl: Duration,
    producer: u64,
    answer: ProducerAnswer,
    between: WaitingList<R>,
    producer_reading: Reading,
    waiting: WaitingList<R>,
    delivery: i64,
    delivery_reading: Reading,
    outcome: AckOutcome,
    after: WaitingList<R>,
)
    requires
        WaitingList::message_requested(
            before,
            now,
            id,
            consumer,
            Ok(GetOrSubscribeResult::Waiting(consumer)),
            subscribed,
        ),
        produced_through(
            subscribed,
            later,
            id,
            message,
            ttl,
            producer,
            answer,
            between,
            producer_reading,
            waiting,
        ),
        WaitingList::acked_given(waiting, delivery, id, delivery_reading, outcome, after),
    ensures
        answer.stored matches Some(stored) && stored.message@ == message
            && stored.notified@.contains(consumer),
        before.exclusive() && answer.stored->0.persisted is Ok && producer_reading !is Failed && (
        before.certain() || outcome.acked) && !has_expired(later, deadline(later, ttl))
            && !has_expired(delivery, deadline(later, ttl)) ==> outcome.acked && outcome.notified@
            == seq![producer],
{
    let stored = answer.stored->0;
    assert(stored.notified@.last() == consumer);
    if before.exclusive() && stored.persisted is Ok && producer_reading !is Failed && (
    before.certain() || outcome.acked) && !has_expired(later, deadline(later, ttl))
        && !has_expired(delivery, deadline(later, ttl)) {
        store_writes_and_spares(subscribed, later, id, message, ttl, stored, between);
        assert(acks_of(between.waiters(), id) =~= Seq::empty());
        let subscription = choose|result: Result<AckSubscription, SubscribeError>|
            answer.step@ == producer_step(result, ttl) && #[trigger] WaitingList::subscribed_given(
                between,
                later,
                id,
                producer,
                producer_reading,
                result,
                waiting,
            );
        assert(subscription == Ok::<_, SubscribeError>(AckSubscription::Waiting(producer)));
        assert(acks_of(waiting.waiters(), id) =~= seq![producer]);
    }
}

} // verus!
