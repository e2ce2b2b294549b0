//! Standard link endpoint without caching - closer to the httprelay.io model.
//!
//! A request is answered in one or two steps: the first looks at the pending list and either
//! replies or asks the caller to wait. What the wait came to is answered by
//! [`consumer_resume`](crate::rendezvous::consumer_resume) and
//! [`producer_resume`](crate::rendezvous::producer_resume).

use crate::request::{read_message, request_message, Step, StepView};
use crate::payload::{Message, MessageView};
use crate::rendezvous::{
    consumer_waits, enqueue_consumer, enqueue_producer, producer_waits, ConsumerAnswer, PendingList,
    PendingView, ProducerAnswer,
};
use crate::response::{accepted, empty_reply, forward, message_reply};
use crate::server::Config;
use axum::http::HeaderValue;
use bytes::Bytes;
use std::time::Duration;
use vstd::prelude::*;

verus! {

/// How a consumer's request is answered, and how it changes the list: a producer that waits is
/// told, and its message forwarded; otherwise the consumer waits.
pub open spec fn consumed(
    before: PendingView,
    id: Seq<char>,
    handle: u64,
    timeout: Duration,
    answer: ConsumerAnswer,
    after: PendingView,
) -> bool {
    if before.producers.contains_key(id) {
        &&& answer.step@ == StepView::Respond(message_reply(before.producers[id].message))
        &&& answer.completed == Some(before.producers[id].completion)
        &&& answer.dropped is None
        &&& after == before.without_producer(id)
    } else {
        consumer_waits(before, id, handle, timeout, answer, after)
    }
}

/// How a producer's request is answered, and how it changes the list: a consumer that waits gets
/// the message; otherwise the producer waits.
pub open spec fn produced(
    before: PendingView,
    id: Seq<char>,
    message: MessageView,
    handle: u64,
    timeout: Duration,
    answer: ProducerAnswer,
    after: PendingView,
) -> bool {
    if before.consumers.contains_key(id) {
        &&& answer.step@ == StepView::Respond(empty_reply())
        &&& answer.delivery matches Some((consumer, sent)) && consumer == before.consumers[id]
            && sent@ == message
        &&& answer.dropped is None
        &&& after == before.without_consumer(id)
    } else {
        producer_waits(before, id, message, handle, timeout, answer, after)
    }
}

/// A consumer requests data using GET method.
pub fn get_handler(list: &mut PendingList, config: &Config, id: &str, handle: u64) -> (answer:
    ConsumerAnswer)
    requires
        old(list).wf(),
    ensures
        final(list).wf(),
        consumed(old(list)@, id@, handle, config.request_timeout, answer, final(list)@),
{
    if let Some(producer) = list.remove_producer(id) {
        return ConsumerAnswer {
            step: Step::Respond(forward(producer.message)),
            completed: Some(producer.completion),
            dropped: None,
        };
    }
    // No producer ready. Insert consumer into pending list and wait.
    assert(list@ =~= old(list)@);
    enqueue_consumer(list, id, handle, config.request_timeout)
}

/// A producer sends data using POST method.
pub fn post_handler(
    list: &mut PendingList,
    config: &Config,
    channel: &str,
    content_type: Option<&HeaderValue>,
    body: Bytes,
    handle: u64,
) -> (answer: ProducerAnswer)
    requires
        old(list).wf(),
    ensures
        final(list).wf(),
        exists|message: MessageView|
            request_message(content_type, body, message) && #[trigger] produced(
                old(list)@,
                channel@,
                message,
                handle,
                config.request_timeout,
                answer,
                final(list)@,
            ),
{
    let timeout: Duration = config.request_timeout;
    let message: Message = read_message(content_type, body);
    let ghost content = message@;
    if let Some(consumer) = list.remove_consumer(channel) {
        let answer = ProducerAnswer {
            step: Step::Respond(accepted()),
            delivery: Some((consumer, message)),
            dropped: None,
        };
        assert(produced(old(list)@, channel@, content, handle, timeout, answer, list@));
        return answer;
    }
    // No consumer ready. Insert producer into pending list and wait.
    assert(list@ =~= old(list)@);
    let answer: ProducerAnswer = enqueue_producer(list, channel, message, handle, timeout);
    assert(produced(old(list)@, channel@, content, handle, timeout, answer, list@));
    answer
}

/// The handoff to a consumer who comes after the producer: the consumer is given the producer's
/// message, and the producer is told. Neither waits any longer, and others wait as before.
pub proof fn late_consumer_is_served(
    timeout: Duration,
    before: PendingView,
    id: Seq<char>,
    message: MessageView,
    producer: u64,
    offer: ProducerAnswer,
    between: PendingView,
    consumer: u64,
    answer: ConsumerAnswer,
    after: PendingView,
)
    requires
        produced(before, id, message, producer, timeout, offer, between),
        offer.step@ is Wait,
        consumed(between, id, consumer, timeout, answer, after),
    ensures
        answer.step@ == StepView::Respond(message_reply(message)),
        answer.completed == Some(producer),
        after == before.without_producer(id),
{
    assert(after =~= before.without_producer(id));
}

/// The handoff to a consumer who comes before the producer: the consumer is sent the producer's
/// message, and the producer is answered at once. Neither waits any longer, and others wait as
/// before.
pub proof fn early_consumer_is_served(
    timeout: Duration,
    before: PendingView,
    id: Seq<char>,
    consumer: u64,
    answer: ConsumerAnswer,
    between: PendingView,
    message: MessageView,
    producer: u64,
    offer: ProducerAnswer,
    after: PendingView,
)
    requires
        consumed(before, id, consumer, timeout, answer, between),
        answer.step@ is Wait,
        produced(between, id, message, producer, timeout, offer, after),
    ensures
        offer.step@ == StepView::Respond(empty_reply()),
        offer.delivery matches Some((receiver, sent)) && receiver == consumer && sent@ == message,
        after == before.without_consumer(id),
{
    assert(after =~= before.without_consumer(id));
}

/// A message is handed over once: a second consumer waits, or is refused for want of room.
pub proof fn second_consumer_waits(
    timeout: Duration,
    before: PendingView,
    id: Seq<char>,
    first_handle: u64,
    first: ConsumerAnswer,
    between: PendingView,
    second_handle: u64,
    second: ConsumerAnswer,
    after: PendingView,
)
    requires
        consumed(before, id, first_handle, timeout, first, between),
        consumed(between, id, second_handle, timeout, second, after),
    ensures
        second.completed is None,
        consumer_waits(between, id, second_handle, timeout, second, after),
{
}

/// A consumer that waited and timed out leaves nothing behind: but for the place that it waited
/// in, the list is as it was before.
pub proof fn timed_out_consumer_leaves_nothing(
    timeout: Duration,
    before: PendingView,
    id: Seq<char>,
    handle: u64,
    answer: ConsumerAnswer,
    after: PendingView,
)
    requires
        consumed(before, id, handle, timeout, answer, after),
        answer.step@ is Wait,
    ensures
        after.without_consumer(id) == before.without_consumer(id),
{
    assert(after.without_consumer(id) =~= before.without_consumer(id));
}

/// A producer that waited and timed out leaves nothing behind: but for the place that it waited
/// in, the list is as it was before.
pub proof fn timed_out_producer_leaves_nothing(
    timeout: Duration,
    before: PendingView,
    id: Seq<char>,
    message: MessageView,
    handle: u64,
    answer: ProducerAnswer,
    after: PendingView,
)
    requires
        produced(before, id, message, handle, timeout, answer, after),
        answer.step@ is Wait,
    ensures
        after.without_producer(id) == before.without_producer(id),
{
    assert(after.without_producer(id) =~= before.without_producer(id));
}

/// A consumer's request reads nothing from the cache and puts nothing in.
pub proof fn consumer_leaves_cache(
    timeout: Duration,
    before: PendingView,
    id: Seq<char>,
    handle: u64,
    answer: ConsumerAnswer,
    after: PendingView,
)
    requires
        consumed(before, id, handle, timeout, answer, after),
    ensures
        after.cache == before.cache,
{
}

/// A producer's request takes nothing from the cache and puts nothing in.
pub proof fn producer_leaves_cache(
    timeout: Duration,
    before: PendingView,
    id: Seq<char>,
    message: MessageView,
    handle: u64,
    answer: ProducerAnswer,
    after: PendingView,
)
    requires
        produced(before, id, message, handle, timeout, answer, after),
    ensures
        after.cache == before.cache,
{
}

/// Where under no id a producer and a consumer both wait, that stays so after a consumer's
/// request.
pub proof fn consumer_keeps_settled(
    timeout: Duration,
    before: PendingView,
    id: Seq<char>,
    handle: u64,
    answer: ConsumerAnswer,
    after: PendingView,
)
    requires
        before.is_settled(),
        consumed(before, id, handle, timeout, answer, after),
    ensures
        after.is_settled(),
{
    assert forall|other: Seq<char>| !(#[trigger] after.producers.contains_key(other)
        && #[trigger] after.consumers.contains_key(other)) by {
        assert(!(before.producers.contains_key(other) && before.consumers.contains_key(other)));
    }
}

/// Where under no id a producer and a consumer both wait, that stays so after a producer's
/// request.
pub proof fn producer_keeps_settled(
    timeout: Duration,
    before: PendingView,
    id: Seq<char>,
    message: MessageView,
    handle: u64,
    answer: ProducerAnswer,
    after: PendingView,
)
    requires
        before.is_settled(),
        produced(before, id, message, handle, timeout, answer, after),
    ensures
        after.is_settled(),
{
    assert forall|other: Seq<char>| !(#[trigger] after.producers.contains_key(other)
        && #[trigger] after.consumers.contains_key(other)) by {
        assert(!(before.producers.contains_key(other) && before.consumers.contains_key(other)));
    }
}

} // verus!
