//! Link endpoint with caching enabled for mobile retry support.
//!
//! After a successful delivery the value is cached, so that a consumer whose connection dropped
//! can retry and still receive it.
//!
//! A request is answered in one or two steps: the first looks at the pending list and either
//! replies or asks the caller to wait. What the wait came to is answered by
//! [`consumer_resume`](crate::rendezvous::consumer_resume) and
//! [`producer_resume`](crate::rendezvous::producer_resume).

use crate::clock::has_expired;
use crate::request::{read_message, request_message, Step, StepView};
use crate::payload::{Message, MessageView};
use crate::rendezvous::{
    cache_insertion, cached_value, consumer_waits, enqueue_consumer, enqueue_producer,
    producer_waits, Cache, ConsumerAnswer, PendingList, PendingView, ProducerAnswer,
};
use crate::response::{accepted, empty_reply, forward, message_reply};
use crate::server::Config;
use axum::http::HeaderValue;
use bytes::Bytes;
use std::time::Duration;
use vstd::prelude::*;

verus! {

/// `after` is `before` with the message handed over at `now` put into the cache.
pub open spec fn cached_into(
    before: PendingView,
    now: i64,
    id: Seq<char>,
    message: MessageView,
    ttl: Duration,
    after: PendingView,
) -> bool {
    exists|cache: Cache|
        after == #[trigger] before.with_cache(cache) && cache_insertion(
            before.cache,
            before.max_cache,
            id,
            cached_value(now, message, ttl),
            cache,
        )
}

/// How a consumer's request at `now` is answered, and how it changes the list: a cached value is
/// forwarded; failing that, a producer that waits is told, and its message cached and forwarded;
/// otherwise the consumer waits.
pub open spec fn consumed(
    before: PendingView,
    now: i64,
    id: Seq<char>,
    handle: u64,
    timeout: Duration,
    ttl: Duration,
    answer: ConsumerAnswer,
    after: PendingView,
) -> bool {
    match before.cached_message(now, id) {
        Some(message) => {
            &&& answer.step@ == StepView::Respond(message_reply(message))
            &&& answer.completed is None
            &&& answer.dropped is None
            &&& after == before
        },
        None => if before.producers.contains_key(id) {
            let producer = before.producers[id];
            &&& answer.step@ == StepView::Respond(message_reply(producer.message))
            &&& answer.completed == Some(producer.completion)
            &&& answer.dropped is None
            &&& cached_into(before.without_producer(id), now, id, producer.message, ttl, after)
        } else {
            consumer_waits(before, id, handle, timeout, answer, after)
        },
    }
}

/// How a producer's request at `now` is answered, and how it changes the list: what was cached is
/// forgotten; a consumer that waits gets the message, which is cached; otherwise the producer
/// waits.
pub open spec fn produced(
    before: PendingView,
    now: i64,
    id: Seq<char>,
    message: MessageView,
    handle: u64,
    timeout: Duration,
    ttl: Duration,
    answer: ProducerAnswer,
    after: PendingView,
) -> bool {
    let forgotten = before.with_cache(before.cache.remove(id));
    if before.consumers.contains_key(id) {
        &&& answer.step@ == StepView::Respond(empty_reply())
        &&& answer.delivery matches Some((consumer, sent)) && consumer == before.consumers[id]
            && sent@ == message
        &&& answer.dropped is None
        &&& cached_into(forgotten.without_consumer(id), now, id, message, ttl, after)
    } else {
        producer_waits(forgotten, id, message, handle, timeout, answer, after)
    }
}

/// A consumer requests data using GET method.
pub fn get_handler(
    list: &mut PendingList,
    config: &Config,
    now: i64,
    id: &str,
    handle: u64,
) -> (answer: ConsumerAnswer)
    requires
        old(list).wf(),
    ensures
        final(list).wf(),
        consumed(
            old(list)@,
            now,
            id@,
            handle,
            config.link2_timeout,
            config.cache_ttl,
            answer,
            final(list)@,
        ),
{
    // First, check if there's a cached value
    if let Some(cached) = list.get_cached(now, id) {
        return ConsumerAnswer {
            step: Step::Respond(forward(cached)),
            completed: None,
            dropped: None,
        };
    }
    if let Some(producer) = list.remove_producer(id) {
        // Producer is ready to send data - cache it for future consumers
        list.insert_cached(now, id, producer.message.clone(), config.cache_ttl);
        return ConsumerAnswer {
            step: Step::Respond(forward(producer.message)),
            completed: Some(producer.completion),
            dropped: None,
        };
    }
    // No producer ready. Insert consumer into pending list and wait.
    assert(list@ =~= old(list)@);
    enqueue_consumer(list, id, handle, config.link2_timeout)
}

/// A producer sends data using POST method.
pub fn post_handler(
    list: &mut PendingList,
    config: &Config,
    now: i64,
    channel: &str,
    content_type: Option<&HeaderValue>,
    body: Bytes,
    handle: u64,
) -> (answer: ProducerAnswer)
    requires
        old(list).wf(),
    ensures
        final(list).wf(),
        exists|message: MessageView|
            request_message(content_type, body, message) && #[trigger] produced(
                old(list)@,
                now,
                channel@,
                message,
                handle,
                config.link2_timeout,
                config.cache_ttl,
                answer,
                final(list)@,
            ),
{
    let (timeout, ttl): (Duration, Duration) = (config.link2_timeout, config.cache_ttl);
    let message: Message = read_message(content_type, body);
    let ghost content = message@;
    // If there's a cached value, remove it (new POST overwrites)
    list.remove_cached(channel);
    let ghost forgotten = list@;
    if let Some(consumer) = list.remove_consumer(channel) {
        // Consumer is ready to receive data - also cache it
        list.insert_cached(now, channel, message.clone(), ttl);
        let answer = ProducerAnswer {
            step: Step::Respond(accepted()),
            delivery: Some((consumer, message)),
            dropped: None,
        };
        assert(produced(old(list)@, now, channel@, content, handle, timeout, ttl, answer, list@));
        return answer;
    }
    // No consumer ready. Insert producer into pending list and wait.
    assert(list@ =~= forgotten);
    let answer: ProducerAnswer = enqueue_producer(list, channel, message, handle, timeout);
    assert(produced(old(list)@, now, channel@, content, handle, timeout, ttl, answer, list@));
    answer
}

/// Where anything may be cached at all, a message that was handed over stands in the cache with
/// its expiry, and who waits is as before.
proof fn handed_over_is_cached(
    before: PendingView,
    now: i64,
    id: Seq<char>,
    message: MessageView,
    ttl: Duration,
    after: PendingView,
)
    requires
        cached_into(before, now, id, message, ttl, after),
        before.max_cache > 0,
    ensures
        after.cache.contains_key(id),
        after.cache[id] == cached_value(now, message, ttl),
        after.producers == before.producers,
        after.consumers == before.consumers,
{
}

/// A message given to a consumer who came after the producer can be fetched again by any number of
/// consumers until it expires, and each fetch leaves everything as it was.
pub proof fn late_consumer_can_retry(
    timeout: Duration,
    before: PendingView,
    now: i64,
    id: Seq<char>,
    consumer: u64,
    ttl: Duration,
    first: ConsumerAnswer,
    between: PendingView,
    later: i64,
    other: u64,
    second: ConsumerAnswer,
    after: PendingView,
)
    requires
        consumed(before, now, id, consumer, timeout, ttl, first, between),
        before.producers.contains_key(id),
        before.cached_message(now, id) is None,
        before.max_cache > 0,
        !has_expired(later, cached_value(now, before.producers[id].message, ttl).expires_at),
        consumed(between, later, id, other, timeout, ttl, second, after),
    ensures
        first.step@ == StepView::Respond(message_reply(before.producers[id].message)),
        first.completed == Some(before.producers[id].completion),
        second.step@ == first.step@,
        second.completed is None,
        after == between,
{
    handed_over_is_cached(
        before.without_producer(id),
        now,
        id,
        before.producers[id].message,
        ttl,
        between,
    );
}

/// A message sent to a consumer who came before the producer can be fetched by others until it
/// expires, and each fetch leaves everything as it was.
pub proof fn early_consumer_can_retry(
    timeout: Duration,
    before: PendingView,
    now: i64,
    id: Seq<char>,
    message: MessageView,
    producer: u64,
    ttl: Duration,
    offer: ProducerAnswer,
    between: PendingView,
    later: i64,
    other: u64,
    answer: ConsumerAnswer,
    after: PendingView,
)
    requires
        produced(before, now, id, message, producer, timeout, ttl, offer, between),
        before.consumers.contains_key(id),
        before.max_cache > 0,
        !has_expired(later, cached_value(now, message, ttl).expires_at),
        consumed(between, later, id, other, timeout, ttl, answer, after),
    ensures
        offer.delivery matches Some((receiver, sent)) && receiver == before.consumers[id] && sent@
            == message,
        answer.step@ == StepView::Respond(message_reply(message)),
        after == between,
{
    handed_over_is_cached(
        before.with_cache(before.cache.remove(id)).without_consumer(id),
        now,
        id,
        message,
        ttl,
        between,
    );
}

/// A new POST overwrites: whatever was cached under the id, a consumer who comes after a producer
/// that waits is given that producer's message, and the producer is told.
pub proof fn post_overwrites(
    timeout: Duration,
    before: PendingView,
    now: i64,
    id: Seq<char>,
    message: MessageView,
    producer: u64,
    ttl: Duration,
    offer: ProducerAnswer,
    between: PendingView,
    later: i64,
    consumer: u64,
    answer: ConsumerAnswer,
    after: PendingView,
)
    requires
        produced(before, now, id, message, producer, timeout, ttl, offer, between),
        offer.step@ is Wait,
        consumed(between, later, id, consumer, timeout, ttl, answer, after),
    ensures
        answer.step@ == StepView::Respond(message_reply(message)),
        answer.completed == Some(producer),
        !after.producers.contains_key(id),
        before.max_cache > 0 ==> after.cache.contains_key(id) && after.cache[id] == cached_value(
            later,
            message,
            ttl,
        ),
{
    assert(!between.cache.contains_key(id));
    if before.max_cache > 0 {
        handed_over_is_cached(between.without_producer(id), later, id, message, ttl, after);
    }
}

/// A producer that has to wait caches nothing, and that nobody came in time for leaves nothing
/// behind: nothing is cached under the id, and no producer waits there.
pub proof fn timed_out_producer_leaves_nothing(
    timeout: Duration,
    before: PendingView,
    now: i64,
    id: Seq<char>,
    message: MessageView,
    producer: u64,
    ttl: Duration,
    offer: ProducerAnswer,
    between: PendingView,
)
    requires
        produced(before, now, id, message, producer, timeout, ttl, offer, between),
        offer.step@ is Wait,
    ensures
        between.cache == before.cache.remove(id),
        between.without_producer(id) == before.with_cache(
            before.cache.remove(id),
        ).without_producer(id),
        forall|later: i64|
            #[trigger] between.without_producer(id).cached_message(later, id) is None,
{
    assert(between.without_producer(id) =~= before.with_cache(
        before.cache.remove(id),
    ).without_producer(id));
}

/// Where under no id a producer and a consumer both wait, that stays so after a consumer's
/// request.
pub proof fn consumer_keeps_settled(
    timeout: Duration,
    ttl: Duration,
    before: PendingView,
    now: i64,
    id: Seq<char>,
    handle: u64,
    answer: ConsumerAnswer,
    after: PendingView,
)
    requires
        before.is_settled(),
        consumed(before, now, id, handle, timeout, ttl, answer, after),
    ensures
        after.is_settled(),
{
    assert forall|other: Seq<char>| !(#[trigger] after.producers.contains_key(other)
        && #[trigger] after.consumers.contains_key(other)) by {
        assert(!(before.producers.contains_key(other) && before.consumers.contains_key(other)));
    }
}

/// Where under no id a producer and a consumer both wait, that stays so after a producer's
/// request.
pub proof fn producer_keeps_settled(
    timeout: Duration,
    ttl: Duration,
    before: PendingView,
    now: i64,
    id: Seq<char>,
    message: MessageView,
    handle: u64,
    answer: ProducerAnswer,
    after: PendingView,
)
    requires
        before.is_settled(),
        produced(before, now, id, message, handle, timeout, ttl, answer, after),
    ensures
        after.is_settled(),
{
    assert forall|other: Seq<char>| !(#[trigger] after.producers.contains_key(other)
        && #[trigger] after.consumers.contains_key(other)) by {
        assert(!(before.producers.contains_key(other) && before.consumers.contains_key(other)));
    }
}

} // verus!
