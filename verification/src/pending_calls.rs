//! What every call of a pending list's operations does, and of the link endpoints that work on it.
//!
//! Each statement is about one call, or about two in a row: if a call on the list behind `list` can
//! end with this result, then what is stated holds, whatever the list and the arguments. `before`
//! is what the list holds before the call, and `after` what it holds after it.

use crate::clock::{duration_millis, lifetime_is_exact, wrapped};
use crate::link;
use crate::link2;
use crate::payload::{bytes_content, optional_text, Message};
use crate::rendezvous::{
    consumer_resume, expires_first, producer_resume, AtCapacity, ConsumerAnswer, PendingList,
    PendingView, Producer, ProducerAnswer,
};
use crate::request::{request_message, StepView, Waited};
use crate::response::{empty_reply, message_reply, text_reply, Reply};
use crate::server::Config;
use axum::http::HeaderValue;
use bytes::Bytes;
use std::time::Duration;
use vstd::prelude::*;

verus! {

/// A producer is refused only where as many requests wait as may, on both sides together, and a
/// refusal changes nothing.
pub proof fn producers_are_refused_at_capacity(
    list: Ghost<&mut PendingList>,
    before: PendingView,
    id: &str,
    message: Message,
    completion: u64,
    result: Result<Option<u64>, AtCapacity>,
    after: PendingView,
)
    requires
        call_ensures(PendingList::insert_producer, (list@, id, message, completion), result),
        before == list@@,
        after == final(list@)@,
        result is Err,
    ensures
        before.producers.len() + before.consumers.len() >= before.max_pending,
        after == before,
{
}

/// While fewer requests wait than may, a producer waits with its message under its id. The producer
/// whose place it takes is handed back, and nobody else's place changes.
pub proof fn producers_wait_below_capacity(
    list: Ghost<&mut PendingList>,
    before: PendingView,
    id: &str,
    message: Message,
    completion: u64,
    result: Result<Option<u64>, AtCapacity>,
    after: PendingView,
)
    requires
        call_ensures(PendingList::insert_producer, (list@, id, message, completion), result),
        before == list@@,
        after == final(list@)@,
        before.producers.len() + before.consumers.len() < before.max_pending,
    ensures
        result matches Ok(replaced) && (replaced is Some <==> before.producers.contains_key(id@))
            && (replaced matches Some(handle) ==> handle == before.producers[id@].completion),
        after.producers.contains_key(id@),
        after.producers[id@].message.body == bytes_content(&message.body),
        after.producers[id@].message.content_type == optional_text(message.content_type),
        after.producers[id@].completion == completion,
        after.producers.remove(id@) == before.producers.remove(id@),
        after.consumers == before.consumers,
        after.cache == before.cache,
        after.max_pending == before.max_pending,
        after.max_cache == before.max_cache,
{
    assert(after.producers.remove(id@) =~= before.producers.remove(id@));
}

/// A consumer is refused only where as many requests wait as may, on both sides together, and a
/// refusal changes nothing.
pub proof fn consumers_are_refused_at_capacity(
    list: Ghost<&mut PendingList>,
    before: PendingView,
    id: &str,
    handle: u64,
    result: Result<Option<u64>, AtCapacity>,
    after: PendingView,
)
    requires
        call_ensures(PendingList::insert_consumer, (list@, id, handle), result),
        before == list@@,
        after == final(list@)@,
        result is Err,
    ensures
        before.producers.len() + before.consumers.len() >= before.max_pending,
        after == before,
{
}

/// While fewer requests wait than may, a consumer waits under its id. The consumer whose place it
/// takes is handed back, and nobody else's place changes.
pub proof fn consumers_wait_below_capacity(
    list: Ghost<&mut PendingList>,
    before: PendingView,
    id: &str,
    handle: u64,
    result: Result<Option<u64>, AtCapacity>,
    after: PendingView,
)
    requires
        call_ensures(PendingList::insert_consumer, (list@, id, handle), result),
        before == list@@,
        after == final(list@)@,
        before.producers.len() + before.consumers.len() < before.max_pending,
    ensures
        result matches Ok(replaced) && (replaced is Some <==> before.consumers.contains_key(id@))
            && (replaced matches Some(other) ==> other == before.consumers[id@]),
        after.consumers.contains_key(id@),
        after.consumers[id@] == handle,
        after.consumers.remove(id@) == before.consumers.remove(id@),
        after.producers == before.producers,
        after.cache == before.cache,
        after.max_pending == before.max_pending,
        after.max_cache == before.max_cache,
{
    assert(after.consumers.remove(id@) =~= before.consumers.remove(id@));
}

/// A producer that is taken off the list is handed over with its message, and everybody else stays.
pub proof fn removed_producers_are_handed_over(
    list: Ghost<&mut PendingList>,
    before: PendingView,
    id: &str,
    producer: Option<Producer>,
    after: PendingView,
)
    requires
        call_ensures(PendingList::remove_producer, (list@, id), producer),
        before == list@@,
        after == final(list@)@,
    ensures
        producer is Some <==> before.producers.contains_key(id@),
        producer matches Some(taken) ==> bytes_content(&taken.message.body)
            == before.producers[id@].message.body && optional_text(taken.message.content_type)
            == before.producers[id@].message.content_type && taken.completion
            == before.producers[id@].completion,
        !after.producers.contains_key(id@),
        forall|other: Seq<char>| other != id@ ==> (#[trigger] after.producers.contains_key(other)
            <==> before.producers.contains_key(other)),
        forall|other: Seq<char>| #[trigger] after.producers.contains_key(other)
            ==> after.producers[other] == before.producers[other],
        after.consumers == before.consumers,
        after.cache == before.cache,
        after.max_pending == before.max_pending,
        after.max_cache == before.max_cache,
{
}

/// A consumer that is taken off the list is handed back, and everybody else stays.
pub proof fn removed_consumers_are_handed_back(
    list: Ghost<&mut PendingList>,
    before: PendingView,
    id: &str,
    handle: Option<u64>,
    after: PendingView,
)
    requires
        call_ensures(PendingList::remove_consumer, (list@, id), handle),
        before == list@@,
        after == final(list@)@,
    ensures
        handle is Some <==> before.consumers.contains_key(id@),
        handle matches Some(taken) ==> taken == before.consumers[id@],
        !after.consumers.contains_key(id@),
        forall|other: Seq<char>| other != id@ ==> (#[trigger] after.consumers.contains_key(other)
            <==> before.consumers.contains_key(other)),
        forall|other: Seq<char>| #[trigger] after.consumers.contains_key(other)
            ==> after.consumers[other] == before.consumers[other],
        after.producers == before.producers,
        after.cache == before.cache,
        after.max_pending == before.max_pending,
        after.max_cache == before.max_cache,
{
}

/// What is cached stands in the cache as it came, and expires its whole lifetime later, counted in
/// the sixty-four bits of a timestamp. Who waits is not touched.
pub proof fn cached_values_keep_their_lifetime(
    list: Ghost<&mut PendingList>,
    before: PendingView,
    now: i64,
    id: &str,
    message: Message,
    ttl: Duration,
    after: PendingView,
)
    requires
        call_ensures(PendingList::insert_cached, (list@, now, id, message, ttl), ()),
        before == list@@,
        after == final(list@)@,
        before.max_cache > 0,
    ensures
        after.cache.contains_key(id@),
        after.cache[id@].message.body == bytes_content(&message.body),
        after.cache[id@].message.content_type == optional_text(message.content_type),
        (after.cache[id@].expires_at - now - duration_millis(ttl)) % 0x1_0000_0000_0000_0000 == 0,
        now + duration_millis(ttl) <= i64::MAX
            ==> after.cache[id@].expires_at == now + duration_millis(ttl),
        after.producers == before.producers,
        after.consumers == before.consumers,
        after.max_pending == before.max_pending,
        after.max_cache == before.max_cache,
{
    let (sum, two64) = (now + duration_millis(ttl), 0x1_0000_0000_0000_0000int);
    assert(after.cache[id@].expires_at == wrapped(sum));
    assert((after.cache[id@].expires_at - sum) % two64 == 0);
}

/// While fewer values are cached than may be, and whenever one is replaced, caching takes no other
/// value away and touches none. Where nothing may be cached, nothing changes.
pub proof fn caching_spares_values_below_limit(
    list: Ghost<&mut PendingList>,
    before: PendingView,
    now: i64,
    id: &str,
    message: Message,
    ttl: Duration,
    after: PendingView,
)
    requires
        call_ensures(PendingList::insert_cached, (list@, now, id, message, ttl), ()),
        before == list@@,
        after == final(list@)@,
        before.max_cache == 0 || before.cache.len() < before.max_cache
            || before.cache.contains_key(id@),
    ensures
        forall|other: Seq<char>| other != id@ ==> (#[trigger] after.cache.contains_key(other)
            <==> before.cache.contains_key(other)),
        forall|other: Seq<char>| other != id@ && #[trigger] after.cache.contains_key(other)
            ==> after.cache[other] == before.cache[other],
        before.max_cache == 0 ==> after == before,
{
}

/// A new value that meets as many as may be cached takes the place of one of them: of one that none
/// expires before. No other value goes or is touched.
pub proof fn caching_evicts_what_expires_first_at_limit(
    list: Ghost<&mut PendingList>,
    before: PendingView,
    now: i64,
    id: &str,
    message: Message,
    ttl: Duration,
    after: PendingView,
)
    requires
        call_ensures(PendingList::insert_cached, (list@, now, id, message, ttl), ()),
        before == list@@,
        after == final(list@)@,
        before.max_cache > 0,
        before.cache.len() >= before.max_cache,
        !before.cache.contains_key(id@),
    ensures
        exists|victim: Seq<char>|
            {
                &&& #[trigger] before.cache.contains_key(victim)
                &&& !after.cache.contains_key(victim)
                &&& forall|other: Seq<char>| #[trigger]
                    before.cache.contains_key(other) ==> before.cache[victim].expires_at
                        <= before.cache[other].expires_at
                &&& forall|other: Seq<char>| #[trigger]
                    before.cache.contains_key(other) && other != victim
                        ==> after.cache.contains_key(other) && after.cache[other]
                        == before.cache[other]
            },
        forall|other: Seq<char>| #[trigger] after.cache.contains_key(other) && other != id@
            ==> before.cache.contains_key(other),
{
    let victim = choose|victim: Seq<char>| #[trigger]
        expires_first(before.cache, victim) && after.cache == before.cache.remove(victim).insert(
            id@,
            after.cache[id@],
        );
    assert(before.cache.contains_key(victim) && !after.cache.contains_key(victim));
}

/// The cache gives out a value exactly while its expiry lies ahead, and as it was put in.
pub proof fn cached_values_are_given_until_expiry(
    list: PendingList,
    now: i64,
    id: &str,
    message: Option<Message>,
)
    requires
        call_ensures(PendingList::get_cached, (&list, now, id), message),
    ensures
        message is Some <==> list@.cache.contains_key(id@) && now < list@.cache[id@].expires_at,
        message matches Some(given) ==> bytes_content(&given.body) == list@.cache[id@].message.body
            && optional_text(given.content_type) == list@.cache[id@].message.content_type,
{
}

/// Taking a value out of the cache takes that one and nothing else.
pub proof fn uncaching_takes_one_value(
    list: Ghost<&mut PendingList>,
    before: PendingView,
    id: &str,
    after: PendingView,
)
    requires
        call_ensures(PendingList::remove_cached, (list@, id), ()),
        before == list@@,
        after == final(list@)@,
    ensures
        !after.cache.contains_key(id@),
        forall|other: Seq<char>| other != id@ ==> (#[trigger] after.cache.contains_key(other)
            <==> before.cache.contains_key(other)),
        forall|other: Seq<char>| #[trigger] after.cache.contains_key(other)
            ==> after.cache[other] == before.cache[other],
        after.producers == before.producers,
        after.consumers == before.consumers,
        after.max_pending == before.max_pending,
        after.max_cache == before.max_cache,
{
}

/// Cleaning up the cache takes out every value whose expiry has come, keeps every other as it is,
/// and counts what it took out.
pub proof fn cache_cleanups_take_what_has_expired(
    list: Ghost<&mut PendingList>,
    before: PendingView,
    now: i64,
    removed: usize,
    after: PendingView,
)
    requires
        call_ensures(PendingList::cleanup_expired_cache, (list@, now), removed),
        before == list@@,
        after == final(list@)@,
    ensures
        forall|id: Seq<char>| #[trigger] after.cache.contains_key(id)
            <==> before.cache.contains_key(id) && now < before.cache[id].expires_at,
        forall|id: Seq<char>| #[trigger] after.cache.contains_key(id)
            ==> after.cache[id] == before.cache[id],
        removed + after.cache.len() == before.cache.len(),
        after.producers == before.producers,
        after.consumers == before.consumers,
        after.max_pending == before.max_pending,
        after.max_cache == before.max_cache,
{
}

/// Requests that have gone away no longer wait, all others do, each in its place, and those that
/// did wait are named.
pub proof fn closed_requests_stop_waiting(
    list: Ghost<&mut PendingList>,
    before: PendingView,
    closed: &Vec<u64>,
    dropped: Vec<u64>,
    after: PendingView,
)
    requires
        call_ensures(PendingList::remove_closed, (list@, closed), dropped),
        before == list@@,
        after == final(list@)@,
    ensures
        forall|id: Seq<char>| #[trigger] after.producers.contains_key(id)
            <==> before.producers.contains_key(id)
            && !closed@.contains(before.producers[id].completion),
        forall|id: Seq<char>| #[trigger] after.producers.contains_key(id)
            ==> after.producers[id] == before.producers[id],
        forall|id: Seq<char>| #[trigger] after.consumers.contains_key(id)
            <==> before.consumers.contains_key(id) && !closed@.contains(before.consumers[id]),
        forall|id: Seq<char>| #[trigger] after.consumers.contains_key(id)
            ==> after.consumers[id] == before.consumers[id],
        forall|id: Seq<char>| #[trigger] before.producers.contains_key(id) && closed@.contains(
            before.producers[id].completion,
        ) ==> dropped@.contains(before.producers[id].completion),
        forall|id: Seq<char>| #[trigger] before.consumers.contains_key(id) && closed@.contains(
            before.consumers[id],
        ) ==> dropped@.contains(before.consumers[id]),
        forall|handle: u64| #[trigger] dropped@.contains(handle) ==> closed@.contains(handle) && (
        (exists|id: Seq<char>| #[trigger]
            before.producers.contains_key(id) && before.producers[id].completion == handle)
            || exists|id: Seq<char>| #[trigger]
            before.consumers.contains_key(id) && before.consumers[id] == handle),
        before.each_once() ==> forall|i: int, j: int| 0 <= i < j < dropped@.len()
            ==> #[trigger] dropped@[i] != #[trigger] dropped@[j],
        after.cache == before.cache,
        after.max_pending == before.max_pending,
        after.max_cache == before.max_cache,
{
}

/// The counts are of what is there.
pub proof fn pending_counts_are_true(list: PendingList, len: usize, empty: bool)
    requires
        call_ensures(PendingList::cache_len, (&list,), len),
        call_ensures(PendingList::is_empty, (&list,), empty),
    ensures
        len == list@.cache.len(),
        empty <==> list@.producers.len() == 0 && list@.consumers.len() == 0,
{
}

/// On the link endpoint without caching, a consumer who finds a producer waiting is given its
/// message as it is, and the producer is told. It waits no more, and nobody else is touched.
pub proof fn link_hands_over_to_a_consumer(
    list: Ghost<&mut PendingList>,
    before: PendingView,
    config: &Config,
    id: &str,
    handle: u64,
    answer: ConsumerAnswer,
    after: PendingView,
)
    requires
        call_ensures(link::get_handler, (list@, config, id, handle), answer),
        before == list@@,
        after == final(list@)@,
        before.producers.contains_key(id@),
    ensures
        answer.step@ == StepView::Respond(message_reply(before.producers[id@].message)),
        answer.completed == Some(before.producers[id@].completion),
        answer.dropped is None,
        !after.producers.contains_key(id@),
        after.producers == before.producers.remove(id@),
        after.consumers == before.consumers,
        after.cache == before.cache,
        after.max_pending == before.max_pending,
        after.max_cache == before.max_cache,
{
}

/// On the link endpoint without caching, a consumer who finds nothing waits for the time
/// configured, if fewer requests wait than may. It takes the place of a consumer under the same id,
/// and of nobody else.
pub proof fn link_lets_consumers_wait(
    list: Ghost<&mut PendingList>,
    before: PendingView,
    config: &Config,
    id: &str,
    handle: u64,
    answer: ConsumerAnswer,
    after: PendingView,
)
    requires
        call_ensures(link::get_handler, (list@, config, id, handle), answer),
        before == list@@,
        after == final(list@)@,
        !before.producers.contains_key(id@),
        before.producers.len() + before.consumers.len() < before.max_pending,
    ensures
        answer.step@ == StepView::Wait(config.request_timeout),
        answer.completed is None,
        answer.dropped is Some <==> before.consumers.contains_key(id@),
        answer.dropped matches Some(other) ==> other == before.consumers[id@],
        after.consumers == before.consumers.insert(id@, handle),
        after.producers == before.producers,
        after.cache == before.cache,
        after.max_pending == before.max_pending,
        after.max_cache == before.max_cache,
{
}

/// On the link endpoint without caching, a consumer is refused only where it finds nothing and as
/// many requests wait as may. That changes nothing.
pub proof fn link_refuses_consumers_at_capacity(
    list: Ghost<&mut PendingList>,
    before: PendingView,
    config: &Config,
    id: &str,
    handle: u64,
    answer: ConsumerAnswer,
    after: PendingView,
)
    requires
        call_ensures(link::get_handler, (list@, config, id, handle), answer),
        before == list@@,
        after == final(list@)@,
        !before.producers.contains_key(id@),
        before.producers.len() + before.consumers.len() >= before.max_pending,
    ensures
        answer.step@ == StepView::Respond(text_reply(503, "Server at capacity"@)),
        answer.completed is None,
        answer.dropped is None,
        after == before,
{
}

/// On the link endpoint without caching, a producer who finds a consumer waiting is answered at
/// once, and the consumer is sent what was posted. It waits no more, and nobody else is touched.
pub proof fn link_hands_over_to_a_waiting_consumer(
    list: Ghost<&mut PendingList>,
    before: PendingView,
    config: &Config,
    channel: &str,
    content_type: Option<&HeaderValue>,
    body: Bytes,
    handle: u64,
    answer: ProducerAnswer,
    after: PendingView,
)
    requires
        call_ensures(
            link::post_handler,
            (list@, config, channel, content_type, body, handle),
            answer,
        ),
        before == list@@,
        after == final(list@)@,
        before.consumers.contains_key(channel@),
    ensures
        answer.step@ == StepView::Respond(empty_reply()),
        answer.delivery matches Some((consumer, sent)) && consumer == before.consumers[channel@]
            && request_message(content_type, body, sent@),
        answer.dropped is None,
        after.consumers == before.consumers.remove(channel@),
        after.producers == before.producers,
        after.cache == before.cache,
        after.max_pending == before.max_pending,
        after.max_cache == before.max_cache,
{
}

/// On the link endpoint without caching, a producer who finds no consumer waits for the time
/// configured, if fewer requests wait than may. It takes the place of a producer under the same id,
/// and of nobody else.
pub proof fn link_lets_producers_wait(
    list: Ghost<&mut PendingList>,
    before: PendingView,
    config: &Config,
    channel: &str,
    content_type: Option<&HeaderValue>,
    body: Bytes,
    handle: u64,
    answer: ProducerAnswer,
    after: PendingView,
)
    requires
        call_ensures(
            link::post_handler,
            (list@, config, channel, content_type, body, handle),
            answer,
        ),
        before == list@@,
        after == final(list@)@,
        !before.consumers.contains_key(channel@),
        before.producers.len() + before.consumers.len() < before.max_pending,
    ensures
        answer.step@ == StepView::Wait(config.request_timeout),
        answer.delivery is None,
        answer.dropped is Some <==> before.producers.contains_key(channel@),
        answer.dropped matches Some(other) ==> other == before.producers[channel@].completion,
        after.producers.contains_key(channel@),
        after.producers[channel@].completion == handle,
        request_message(content_type, body, after.producers[channel@].message),
        after.producers.remove(channel@) == before.producers.remove(channel@),
        after.consumers == before.consumers,
        after.cache == before.cache,
        after.max_pending == before.max_pending,
        after.max_cache == before.max_cache,
{
    assert(after.producers.remove(channel@) =~= before.producers.remove(channel@));
}

/// On the link endpoint without caching, a producer is refused only where it finds no consumer and
/// as many requests wait as may. Nobody's place changes.
pub proof fn link_refuses_producers_at_capacity(
    list: Ghost<&mut PendingList>,
    before: PendingView,
    config: &Config,
    channel: &str,
    content_type: Option<&HeaderValue>,
    body: Bytes,
    handle: u64,
    answer: ProducerAnswer,
    after: PendingView,
)
    requires
        call_ensures(
            link::post_handler,
            (list@, config, channel, content_type, body, handle),
            answer,
        ),
        before == list@@,
        after == final(list@)@,
        !before.consumers.contains_key(channel@),
        before.producers.len() + before.consumers.len() >= before.max_pending,
    ensures
        answer.step@ == StepView::Respond(text_reply(503, "Server at capacity"@)),
        answer.delivery is None,
        answer.dropped is None,
        after.producers == before.producers,
        after.consumers == before.consumers,
        after.cache == before.cache,
        after.max_pending == before.max_pending,
        after.max_cache == before.max_cache,
{
}

/// On the link endpoint with caching, a consumer is given the value cached under the id while its
/// expiry lies ahead, and that changes nothing.
pub proof fn link2_replies_from_the_cache(
    list: Ghost<&mut PendingList>,
    before: PendingView,
    config: &Config,
    now: i64,
    id: &str,
    handle: u64,
    answer: ConsumerAnswer,
    after: PendingView,
)
    requires
        call_ensures(link2::get_handler, (list@, config, now, id, handle), answer),
        before == list@@,
        after == final(list@)@,
        before.cache.contains_key(id@),
        now < before.cache[id@].expires_at,
    ensures
        answer.step@ == StepView::Respond(message_reply(before.cache[id@].message)),
        answer.completed is None,
        answer.dropped is None,
        after == before,
{
}

/// On the link endpoint with caching, a consumer who finds a producer waiting is given its message
/// as it is, and the producer is told. It waits no more, and nobody else is touched.
pub proof fn link2_hands_over_to_a_consumer(
    list: Ghost<&mut PendingList>,
    before: PendingView,
    config: &Config,
    now: i64,
    id: &str,
    handle: u64,
    answer: ConsumerAnswer,
    after: PendingView,
)
    requires
        call_ensures(link2::get_handler, (list@, config, now, id, handle), answer),
        before == list@@,
        after == final(list@)@,
        !(before.cache.contains_key(id@) && now < before.cache[id@].expires_at),
        before.producers.contains_key(id@),
    ensures
        answer.step@ == StepView::Respond(message_reply(before.producers[id@].message)),
        answer.completed == Some(before.producers[id@].completion),
        answer.dropped is None,
        !after.producers.contains_key(id@),
        after.producers == before.producers.remove(id@),
        after.consumers == before.consumers,
        before.max_cache > 0 ==> after.cache.contains_key(id@)
            && after.cache[id@].message == before.producers[id@].message,
        before.max_cache > 0 && now + duration_millis(config.cache_ttl) <= i64::MAX
            ==> after.cache[id@].expires_at == now + duration_millis(config.cache_ttl),
        before.max_cache == 0 ==> after.cache == before.cache,
        after.max_pending == before.max_pending,
        after.max_cache == before.max_cache,
        forall|other: Seq<char>| other != id@ && #[trigger] after.cache.contains_key(other)
            ==> before.cache.contains_key(other) && after.cache[other] == before.cache[other],
        before.cache.len() < before.max_cache || before.cache.contains_key(id@) ==> forall|
            other: Seq<char>,
        | #[trigger]
            before.cache.contains_key(other) ==> after.cache.contains_key(other),
        forall|lost: Seq<char>, other: Seq<char>|
            #[trigger] before.cache.contains_key(lost) && !after.cache.contains_key(lost)
                && #[trigger] before.cache.contains_key(other) ==> before.cache[lost].expires_at
                <= before.cache[other].expires_at && (other == lost || after.cache.contains_key(
                other,
            )),
{
}

/// On the link endpoint with caching, a consumer who finds nothing waits for the time configured,
/// if fewer requests wait than may. It takes the place of a consumer under the same id, and of
/// nobody else.
pub proof fn link2_lets_consumers_wait(
    list: Ghost<&mut PendingList>,
    before: PendingView,
    config: &Config,
    now: i64,
    id: &str,
    handle: u64,
    answer: ConsumerAnswer,
    after: PendingView,
)
    requires
        call_ensures(link2::get_handler, (list@, config, now, id, handle), answer),
        before == list@@,
        after == final(list@)@,
        !(before.cache.contains_key(id@) && now < before.cache[id@].expires_at),
        !before.producers.contains_key(id@),
        before.producers.len() + before.consumers.len() < before.max_pending,
    ensures
        answer.step@ == StepView::Wait(config.link2_timeout),
        answer.completed is None,
        answer.dropped is Some <==> before.consumers.contains_key(id@),
        answer.dropped matches Some(other) ==> other == before.consumers[id@],
        after.consumers == before.consumers.insert(id@, handle),
        after.producers == before.producers,
        after.cache == before.cache,
        after.max_pending == before.max_pending,
        after.max_cache == before.max_cache,
{
}

/// On the link endpoint with caching, a consumer is refused only where it finds nothing and as many
/// requests wait as may. That changes nothing.
pub proof fn link2_refuses_consumers_at_capacity(
    list: Ghost<&mut PendingList>,
    before: PendingView,
    config: &Config,
    now: i64,
    id: &str,
    handle: u64,
    answer: ConsumerAnswer,
    after: PendingView,
)
    requires
        call_ensures(link2::get_handler, (list@, config, now, id, handle), answer),
        before == list@@,
        after == final(list@)@,
        !(before.cache.contains_key(id@) && now < before.cache[id@].expires_at),
        !before.producers.contains_key(id@),
        before.producers.len() + before.consumers.len() >= before.max_pending,
    ensures
        answer.step@ == StepView::Respond(text_reply(503, "Server at capacity"@)),
        answer.completed is None,
        answer.dropped is None,
        after == before,
{
}

/// On the link endpoint with caching, a producer who finds a consumer waiting is answered at once,
/// and the consumer is sent what was posted. It waits no more, and nobody else is touched.
pub proof fn link2_hands_over_to_a_waiting_consumer(
    list: Ghost<&mut PendingList>,
    before: PendingView,
    config: &Config,
    now: i64,
    channel: &str,
    content_type: Option<&HeaderValue>,
    body: Bytes,
    handle: u64,
    answer: ProducerAnswer,
    after: PendingView,
)
    requires
        call_ensures(
            link2::post_handler,
            (list@, config, now, channel, content_type, body, handle),
            answer,
        ),
        before == list@@,
        after == final(list@)@,
        before.consumers.contains_key(channel@),
    ensures
        answer.step@ == StepView::Respond(empty_reply()),
        answer.delivery matches Some((consumer, sent)) && consumer == before.consumers[channel@]
            && request_message(content_type, body, sent@),
        answer.dropped is None,
        after.consumers == before.consumers.remove(channel@),
        after.producers == before.producers,
        before.max_cache > 0 ==> after.cache.contains_key(channel@)
            && after.cache[channel@].message.body
            == bytes_content(&body),
        before.max_cache > 0 && now + duration_millis(config.cache_ttl) <= i64::MAX
            ==> after.cache[channel@].expires_at == now + duration_millis(config.cache_ttl),
        before.max_cache == 0 ==> after.cache == before.cache.remove(channel@),
        after.max_pending == before.max_pending,
        after.max_cache == before.max_cache,
        forall|other: Seq<char>| other != channel@ && #[trigger] after.cache.contains_key(other)
            ==> before.cache.contains_key(other) && after.cache[other] == before.cache[other],
        before.cache.remove(channel@).len() < before.max_cache
            ==> forall|other: Seq<char>| #[trigger]
            before.cache.contains_key(other) ==> after.cache.contains_key(other),
        before.max_cache > 0 ==> forall|lost: Seq<char>, other: Seq<char>|
            #[trigger] before.cache.contains_key(lost) && !after.cache.contains_key(lost)
                && #[trigger] before.cache.contains_key(other) && other != channel@
                ==> before.cache[lost].expires_at <= before.cache[other].expires_at
                    && (other == lost
                || after.cache.contains_key(other)),
{
    let forgotten = before.cache.remove(channel@);
    assert forall|lost: Seq<char>, other: Seq<char>|
        #[trigger] before.cache.contains_key(lost) && !after.cache.contains_key(lost)
            && #[trigger] before.cache.contains_key(other) && other != channel@ && before.max_cache
            > 0 implies before.cache[lost].expires_at <= before.cache[other].expires_at && (other
        == lost || after.cache.contains_key(other)) by {
        assert(forgotten.contains_key(other));
        assert(lost != channel@ ==> forgotten.contains_key(lost));
    }
}

/// On the link endpoint with caching, a producer who finds no consumer waits for the time
/// configured, if fewer requests wait than may. It takes the place of a producer under the same id,
/// and of nobody else.
pub proof fn link2_lets_producers_wait(
    list: Ghost<&mut PendingList>,
    before: PendingView,
    config: &Config,
    now: i64,
    channel: &str,
    content_type: Option<&HeaderValue>,
    body: Bytes,
    handle: u64,
    answer: ProducerAnswer,
    after: PendingView,
)
    requires
        call_ensures(
            link2::post_handler,
            (list@, config, now, channel, content_type, body, handle),
            answer,
        ),
        before == list@@,
        after == final(list@)@,
        !before.consumers.contains_key(channel@),
        before.producers.len() + before.consumers.len() < before.max_pending,
    ensures
        answer.step@ == StepView::Wait(config.link2_timeout),
        answer.delivery is None,
        answer.dropped is Some <==> before.producers.contains_key(channel@),
        answer.dropped matches Some(other) ==> other == before.producers[channel@].completion,
        after.producers.contains_key(channel@),
        after.producers[channel@].completion == handle,
        request_message(content_type, body, after.producers[channel@].message),
        after.producers.remove(channel@) == before.producers.remove(channel@),
        after.consumers == before.consumers,
        after.cache == before.cache.remove(channel@),
        after.max_pending == before.max_pending,
        after.max_cache == before.max_cache,
{
    assert(after.producers.remove(channel@) =~= before.producers.remove(channel@));
}

/// On the link endpoint with caching, a producer is refused only where it finds no consumer and as
/// many requests wait as may. Nobody's place changes.
pub proof fn link2_refuses_producers_at_capacity(
    list: Ghost<&mut PendingList>,
    before: PendingView,
    config: &Config,
    now: i64,
    channel: &str,
    content_type: Option<&HeaderValue>,
    body: Bytes,
    handle: u64,
    answer: ProducerAnswer,
    after: PendingView,
)
    requires
        call_ensures(
            link2::post_handler,
            (list@, config, now, channel, content_type, body, handle),
            answer,
        ),
        before == list@@,
        after == final(list@)@,
        !before.consumers.contains_key(channel@),
        before.producers.len() + before.consumers.len() >= before.max_pending,
    ensures
        answer.step@ == StepView::Respond(text_reply(503, "Server at capacity"@)),
        answer.delivery is None,
        answer.dropped is None,
        after.producers == before.producers,
        after.consumers == before.consumers,
        after.cache == before.cache.remove(channel@),
        after.max_pending == before.max_pending,
        after.max_cache == before.max_cache,
{
}

/// A message handed over on the link endpoint with caching can be fetched again for as long as is
/// configured, by a consumer who comes to a list that was left alone since: the handoff was to a
/// consumer who came after the producer.
pub proof fn late_handoffs_are_kept_for_the_configured_time(
    list: Ghost<&mut PendingList>,
    config: &Config,
    before: PendingView,
    now: i64,
    id: &str,
    handle: u64,
    first: ConsumerAnswer,
    between: PendingView,
    next: Ghost<&mut PendingList>,
    later: i64,
    name: &str,
    other: u64,
    second: ConsumerAnswer,
)
    requires
        call_ensures(link2::get_handler, (list@, config, now, id, handle), first),
        before == list@@,
        between == final(list@)@,
        call_ensures(link2::get_handler, (next@, config, later, name, other), second),
        between == next@@,
        name@ == id@,
        before.producers.contains_key(id@),
        !(before.cache.contains_key(id@) && now < before.cache[id@].expires_at),
        before.max_cache > 0,
        now + duration_millis(config.cache_ttl) <= i64::MAX,
    ensures
        later - now < duration_millis(config.cache_ttl) ==> second.step@ == StepView::Respond(
            message_reply(before.producers[id@].message),
        ) && final(next@)@ == between,
        later - now >= duration_millis(config.cache_ttl) ==> second.completed is None
            && (second.step@
            == StepView::Wait(config.link2_timeout)
                || second.step@ == StepView::Respond(text_reply(503, "Server at capacity"@))),
{
    lifetime_is_exact(now, duration_millis(config.cache_ttl), later);
}

/// A message handed over on the link endpoint with caching can be fetched again for as long as is
/// configured, by a consumer who comes to a list that was left alone since: the handoff was to a
/// consumer who came before the producer.
pub proof fn early_handoffs_are_kept_for_the_configured_time(
    list: Ghost<&mut PendingList>,
    config: &Config,
    before: PendingView,
    now: i64,
    channel: &str,
    content_type: Option<&HeaderValue>,
    body: Bytes,
    handle: u64,
    first: ProducerAnswer,
    between: PendingView,
    next: Ghost<&mut PendingList>,
    later: i64,
    name: &str,
    other: u64,
    second: ConsumerAnswer,
)
    requires
        call_ensures(
            link2::post_handler,
            (list@, config, now, channel, content_type, body, handle),
            first,
        ),
        before == list@@,
        between == final(list@)@,
        call_ensures(link2::get_handler, (next@, config, later, name, other), second),
        between == next@@,
        name@ == channel@,
        before.consumers.contains_key(channel@),
        !before.producers.contains_key(channel@),
        before.max_cache > 0,
        now + duration_millis(config.cache_ttl) <= i64::MAX,
    ensures
        later - now < duration_millis(config.cache_ttl) ==> (first.delivery matches Some((_, sent))
            && second.step@ == StepView::Respond(message_reply(sent@)) && final(next@)@
            == between),
        later - now >= duration_millis(config.cache_ttl) ==> second.completed is None
            && (second.step@
            == StepView::Wait(config.link2_timeout)
                || second.step@ == StepView::Respond(text_reply(503, "Server at capacity"@))),
{
    lifetime_is_exact(now, duration_millis(config.cache_ttl), later);
}

/// A consumer that waited is given what arrived, or told that it was let go; one that waited in
/// vain is told so and takes its place off the list. Nobody else is touched.
pub proof fn waiting_consumers_are_answered(
    list: Ghost<&mut PendingList>,
    before: PendingView,
    id: &str,
    waited: Waited<Message>,
    answer: (Reply, Option<u64>),
    after: PendingView,
)
    requires
        call_ensures(consumer_resume, (list@, id, waited), answer),
        before == list@@,
        after == final(list@)@,
    ensures
        waited matches Waited::Received(message) ==> answer.0@ == message_reply(message@),
        waited is Closed ==> answer.0@ == text_reply(404, "Not Found"@),
        waited is TimedOut ==> answer.0@ == text_reply(408, "Request timed out"@),
        !(waited is TimedOut) ==> after == before && answer.1 is None,
        waited is TimedOut ==> after.consumers == before.consumers.remove(id@) && (answer.1 is Some
            <==> before.consumers.contains_key(id@)) && (answer.1 matches Some(handle) ==> handle
            == before.consumers[id@]),
        after.producers == before.producers,
        after.cache == before.cache,
        after.max_pending == before.max_pending,
        after.max_cache == before.max_cache,
{
}

/// A producer that waited is told that its message was taken; one that waited in vain is told so
/// and takes its place off the list. Nobody else is touched.
pub proof fn waiting_producers_are_answered(
    list: Ghost<&mut PendingList>,
    before: PendingView,
    id: &str,
    waited: Waited<()>,
    answer: (Reply, Option<u64>),
    after: PendingView,
)
    requires
        call_ensures(producer_resume, (list@, id, waited), answer),
        before == list@@,
        after == final(list@)@,
    ensures
        waited is TimedOut ==> answer.0@ == text_reply(408, "Request timed out"@),
        !(waited is TimedOut) ==> answer.0@ == empty_reply() && after == before && answer.1 is None,
        waited is TimedOut ==> after.producers == before.producers.remove(id@) && (answer.1 is Some
            <==> before.producers.contains_key(id@)) && (answer.1 matches Some(handle) ==> handle
            == before.producers[id@].completion),
        after.consumers == before.consumers,
        after.cache == before.cache,
        after.max_pending == before.max_pending,
        after.max_cache == before.max_cache,
{
}

/// A new list has the limits that it was given, nobody waits in it, and nothing is cached.
pub proof fn pending_lists_start_empty(max_pending: usize, max_cache: usize, list: PendingList)
    requires
        call_ensures(PendingList::new, (max_pending, max_cache), list),
    ensures
        list.wf(),
        list@.max_pending == max_pending,
        list@.max_cache == max_cache,
        forall|id: Seq<char>| !#[trigger] list@.producers.contains_key(id),
        forall|id: Seq<char>| !#[trigger] list@.consumers.contains_key(id),
        forall|id: Seq<char>| !#[trigger] list@.cache.contains_key(id),
{
}

/// In a list that is in order no more requests wait than may, on both sides together, and no more
/// values are cached than may be.
pub proof fn pending_lists_keep_their_limits(list: PendingList)
    requires
        list.wf(),
    ensures
        list@.producers.len() + list@.consumers.len() <= list@.max_pending,
        list@.cache.len() <= list@.max_cache,
{
    list.keeps_limits();
}

} // verus!
