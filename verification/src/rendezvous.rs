//! Producers and consumers that wait for each other, and the cache of what was handed over.
//!
//! A waiting request is known by a handle, a number by which the caller finds the channel that
//! wakes the request up.

use crate::clock::{duration_millis, expires_at, expiry, has_expired, is_expired};
use crate::request::{Step, StepView, Waited};
use crate::keyed::Keyed;
use crate::payload::{Message, MessageView};
use crate::response::{
    accepted, empty_reply, forward, message_reply, plain, text_reply, Reply, NOT_FOUND,
    REQUEST_TIMEOUT, SERVICE_UNAVAILABLE,
};
use crate::waiters::lists;
use std::time::Duration;
use vstd::prelude::*;

verus! {

/// Default maximum number of requests that wait at a time.
pub const DEFAULT_MAX_PENDING: usize = 10_000;

/// Default maximum number of cached values.
pub const DEFAULT_MAX_CACHE: usize = 10_000;

/// A producer that waits for a consumer.
pub struct Producer {
    /// What it has to hand over.
    pub message: Message,
    /// The request to tell that the message was taken.
    pub completion: u64,
}

/// A waiting producer, as a mathematical value.
pub struct ProducerView {
    pub message: MessageView,
    pub completion: u64,
}

impl View for Producer {
    type V = ProducerView;

    open spec fn view(&self) -> ProducerView {
        ProducerView { message: self.message@, completion: self.completion }
    }
}

/// A value that was handed over and is kept for consumers who ask again.
struct Cached {
    message: Message,
    expires_at: i64,
}

/// A cached value, as a mathematical value.
pub struct CachedView {
    pub message: MessageView,
    pub expires_at: i64,
}

impl View for Cached {
    type V = CachedView;

    closed spec fn view(&self) -> CachedView {
        CachedView { message: self.message@, expires_at: self.expires_at }
    }
}

/// The cached values, by id.
pub type Cache = Map<Seq<char>, CachedView>;

/// A pending list, as a mathematical value.
#[verifier::ext_equal]
pub struct PendingView {
    /// The producers that wait, by id.
    pub producers: Map<Seq<char>, ProducerView>,
    /// The handles of the consumers that wait, by id.
    pub consumers: Map<Seq<char>, u64>,
    /// The cached values, by id.
    pub cache: Cache,
    /// The number of requests that may wait at a time.
    pub max_pending: usize,
    /// The number of values that may be cached.
    pub max_cache: usize,
}

impl PendingView {
    /// The number of requests that wait.
    pub open spec fn pending(self) -> nat {
        self.producers.len() + self.consumers.len()
    }

    /// No further request may wait.
    pub open spec fn is_full(self) -> bool {
        self.pending() >= self.max_pending
    }

    /// There are finitely many of everything, and no more than there may be.
    pub open spec fn within_limits(self) -> bool {
        &&& self.producers.dom().finite()
        &&& self.consumers.dom().finite()
        &&& self.cache.dom().finite()
        &&& self.pending() <= self.max_pending
        &&& self.cache.len() <= self.max_cache
    }

    /// Under no id do a producer and a consumer both wait.
    pub open spec fn is_settled(self) -> bool {
        forall|id: Seq<char>| !(#[trigger] self.producers.contains_key(id)
            && #[trigger] self.consumers.contains_key(id))
    }

    /// The value cached under `id`, unless it has expired at `now`.
    pub open spec fn cached_message(self, now: i64, id: Seq<char>) -> Option<MessageView> {
        if self.cache.contains_key(id) && !has_expired(now, self.cache[id].expires_at) {
            Some(self.cache[id].message)
        } else {
            None
        }
    }

    /// The list with one more producer, or another in place of the one that waited.
    pub open spec fn with_producer(self, id: Seq<char>, producer: ProducerView) -> PendingView {
        PendingView { producers: self.producers.insert(id, producer), ..self }
    }

    /// The list without the producer under `id`.
    pub open spec fn without_producer(self, id: Seq<char>) -> PendingView {
        PendingView { producers: self.producers.remove(id), ..self }
    }

    /// The list with one more consumer, or another in place of the one that waited.
    pub open spec fn with_consumer(self, id: Seq<char>, handle: u64) -> PendingView {
        PendingView { consumers: self.consumers.insert(id, handle), ..self }
    }

    /// The list without the consumer under `id`.
    pub open spec fn without_consumer(self, id: Seq<char>) -> PendingView {
        PendingView { consumers: self.consumers.remove(id), ..self }
    }

    /// The list with another cache.
    pub open spec fn with_cache(self, cache: Cache) -> PendingView {
        PendingView { cache, ..self }
    }

    /// The list without the requests in `closed`.
    pub open spec fn without_closed(self, closed: Seq<u64>) -> PendingView {
        PendingView {
            producers: self.producers.restrict(
                self.producers.dom().filter(
                    |id: Seq<char>| !closed.contains(self.producers[id].completion),
                ),
            ),
            consumers: self.consumers.restrict(
                self.consumers.dom().filter(|id: Seq<char>| !closed.contains(self.consumers[id])),
            ),
            ..self
        }
    }

    /// `handle` waits, on whichever side.
    pub open spec fn waits(self, handle: u64) -> bool {
        ||| exists|id: Seq<char>| #[trigger]
            self.producers.contains_key(id) && self.producers[id].completion == handle
        ||| exists|id: Seq<char>| #[trigger]
            self.consumers.contains_key(id) && self.consumers[id] == handle
    }

    /// No producer's request waits twice.
    pub open spec fn producers_are_distinct(self) -> bool {
        forall|one: Seq<char>, two: Seq<char>|
            #[trigger] self.producers.contains_key(one) && #[trigger] self.producers.contains_key(
                two,
            ) && one != two ==> self.producers[one].completion != self.producers[two].completion
    }

    /// No consumer's request waits twice.
    pub open spec fn consumers_are_distinct(self) -> bool {
        forall|one: Seq<char>, two: Seq<char>|
            #[trigger] self.consumers.contains_key(one) && #[trigger] self.consumers.contains_key(
                two,
            ) && one != two ==> self.consumers[one] != self.consumers[two]
    }

    /// No request waits twice, on either side or on both.
    pub open spec fn each_once(self) -> bool {
        &&& self.producers_are_distinct()
        &&& self.consumers_are_distinct()
        &&& forall|one: Seq<char>, two: Seq<char>|
            #[trigger] self.producers.contains_key(one) && #[trigger] self.consumers.contains_key(
                two,
            ) ==> self.producers[one].completion != self.consumers[two]
    }

    /// The request of the producer that waits under `id`, if there is one.
    pub open spec fn producer_handle(self, id: Seq<char>) -> Option<u64> {
        if self.producers.contains_key(id) {
            Some(self.producers[id].completion)
        } else {
            None
        }
    }

    /// The request of the consumer that waits under `id`, if there is one.
    pub open spec fn consumer_handle(self, id: Seq<char>) -> Option<u64> {
        if self.consumers.contains_key(id) {
            Some(self.consumers[id])
        } else {
            None
        }
    }
}

/// What is cached of a message handed over at `now`.
pub open spec fn cached_value(now: i64, message: MessageView, ttl: Duration) -> CachedView {
    CachedView { message, expires_at: expiry(now, duration_millis(ttl)) as i64 }
}

/// No cached value expires before the one under `id`.
pub open spec fn expires_first(cache: Cache, id: Seq<char>) -> bool {
    &&& cache.contains_key(id)
    &&& forall|other: Seq<char>| #[trigger]
        cache.contains_key(other) ==> cache[id].expires_at <= cache[other].expires_at
}

/// How the cache after a value was put in relates to the cache before. A full cache gives up the
/// value that expires first; one that may hold nothing stays as it is.
pub open spec fn cache_insertion(
    before: Cache,
    limit: usize,
    id: Seq<char>,
    value: CachedView,
    after: Cache,
) -> bool {
    if limit == 0 {
        after == before
    } else if before.contains_key(id) || before.len() < limit {
        after == before.insert(id, value)
    } else {
        exists|victim: Seq<char>| #[trigger]
            expires_first(before, victim) && after == before.remove(victim).insert(id, value)
    }
}

/// The cached values that have not expired at `now`.
pub open spec fn fresh(cache: Cache, now: i64) -> Cache {
    cache.restrict(cache.dom().filter(|id: Seq<char>| !has_expired(now, cache[id].expires_at)))
}

proof fn pushed_contains(handles: Seq<u64>, handle: u64)
    ensures
        forall|h: u64| #[trigger]
            handles.push(handle).contains(h) <==> handles.contains(h) || h == handle,
{
    assert forall|h: u64| #[trigger]
        handles.push(handle).contains(h) <==> handles.contains(h) || h == handle by {
        assert(handles.push(handle)[handles.len() as int] == handle);
        if handles.contains(h) {
            let k = handles.index_of(h);
            assert(handles.push(handle)[k] == h);
        }
    }
}

proof fn pushed_once(handles: Seq<u64>, handle: u64)
    ensures
        handles.no_duplicates() && !handles.contains(handle) ==> handles.push(
            handle,
        ).no_duplicates(),
{
    if handles.no_duplicates() && !handles.contains(handle) {
        let pushed = handles.push(handle);
        assert forall|i: int, j: int| 0 <= i < pushed.len() && 0 <= j < pushed.len() && i
            != j implies pushed[i] != pushed[j] by {
            if i < handles.len() {
                assert(handles.contains(handles[i]));
            }
            if j < handles.len() {
                assert(handles.contains(handles[j]));
            }
        }
    }
}

/// No further request may wait.
#[derive(Debug, Clone, Copy, PartialEq, Eq, Structural)]
pub struct AtCapacity;

/// Producers and consumers that wait for each other, and the values cached.
pub struct PendingList {
    producers: Keyed<Producer>,
    consumers: Keyed<u64>,
    cache: Keyed<Cached>,
    max_pending: usize,
    max_cache: usize,
}

impl View for PendingList {
    type V = PendingView;

    closed spec fn view(&self) -> PendingView {
        PendingView {
            producers: self.producers@.map_values(|producer: Producer| producer@),
            consumers: self.consumers@,
            cache: self.cache@.map_values(|cached: Cached| cached@),
            max_pending: self.max_pending,
            max_cache: self.max_cache,
        }
    }
}

impl PendingList {
    /// The parts of the list are in order, and within their limits.
    pub closed spec fn wf(&self) -> bool {
        &&& self.producers.wf()
        &&& self.consumers.wf()
        &&& self.cache.wf()
        &&& self@.within_limits()
    }

    /// A list that is in order keeps its limits.
    pub proof fn keeps_limits(&self)
        requires
            self.wf(),
        ensures
            self@.within_limits(),
    {
    }

    proof fn domains(&self)
        ensures
            self@.producers.dom() == self.producers@.dom(),
            self@.cache.dom() == self.cache@.dom(),
            self@.producers.len() == self.producers@.len(),
            self@.cache.len() == self.cache@.len(),
    {
        assert(self@.producers.dom() =~= self.producers@.dom());
        assert(self@.cache.dom() =~= self.cache@.dom());
    }

    /// Makes an empty list.
    pub fn new(max_pending: usize, max_cache: usize) -> (list: Self)
        ensures
            list.wf(),
            list@ == (PendingView {
                producers: Map::empty(),
                consumers: Map::empty(),
                cache: Map::empty(),
                max_pending,
                max_cache,
            }),
    {
        let list = PendingList {
            producers: Keyed::new(),
            consumers: Keyed::new(),
            cache: Keyed::new(),
            max_pending,
            max_cache,
        };
        assert(list@.producers =~= Map::empty());
        assert(list@.cache =~= Map::empty());
        list
    }

    /// Whether no further request may wait.
    fn is_full(&self) -> (full: bool)
        requires
            self.wf(),
        ensures
            full == self@.is_full(),
    {
        proof {
            self.domains();
        }
        let producers: usize = self.producers.len();
        let consumers: usize = self.consumers.len();
        producers >= self.max_pending || consumers >= self.max_pending - producers
    }

    /// Lets a producer wait. The request of a producer that it takes the place of is handed back,
    /// to be let go.
    pub fn insert_producer(&mut self, id: &str, message: Message, completion: u64) -> (result:
        Result<Option<u64>, AtCapacity>)
        requires
            old(self).wf(),
        ensures
            final(self).wf(),
            if old(self)@.is_full() {
                result is Err && final(self)@ == old(self)@
            } else {
                &&& result == Ok::<_, AtCapacity>(old(self)@.producer_handle(id@))
                &&& final(self)@ == old(self)@.with_producer(
                    id@,
                    ProducerView { message: message@, completion },
                )
            },
    {
        if self.is_full() {
            return Err(AtCapacity);
        }
        let replaced: Option<Producer> = self.producers.insert(
            id.to_owned(),
            Producer { message, completion },
        );
        proof {
            assert(self@ =~= old(self)@.with_producer(
                id@,
                ProducerView { message: message@, completion },
            ));
            assert(self@.producers.dom() =~= old(self)@.producers.dom().insert(id@));
        }
        match replaced {
            Some(producer) => Ok(Some(producer.completion)),
            None => Ok(None),
        }
    }

    /// Takes the producer under `id` off the list.
    pub fn remove_producer(&mut self, id: &str) -> (producer: Option<Producer>)
        requires
            old(self).wf(),
        ensures
            final(self).wf(),
            final(self)@ == old(self)@.without_producer(id@),
            match producer {
                Some(p) => old(self)@.producers.contains_key(id@) && p@ == old(
                    self,
                )@.producers[id@],
                None => !old(self)@.producers.contains_key(id@),
            },
    {
        let producer: Option<Producer> = self.producers.remove(id);
        proof {
            assert(self@ =~= old(self)@.without_producer(id@));
            assert(self@.producers.dom() =~= old(self)@.producers.dom().remove(id@));
        }
        producer
    }

    /// Lets a consumer wait. The request of a consumer that it takes the place of is handed back,
    /// to be let go.
    pub fn insert_consumer(&mut self, id: &str, handle: u64) -> (result: Result<
        Option<u64>,
        AtCapacity,
    >)
        requires
            old(self).wf(),
        ensures
            final(self).wf(),
            if old(self)@.is_full() {
                result is Err && final(self)@ == old(self)@
            } else {
                &&& result == Ok::<_, AtCapacity>(old(self)@.consumer_handle(id@))
                &&& final(self)@ == old(self)@.with_consumer(id@, handle)
            },
    {
        if self.is_full() {
            return Err(AtCapacity);
        }
        let replaced: Option<u64> = self.consumers.insert(id.to_owned(), handle);
        proof {
            assert(self@ =~= old(self)@.with_consumer(id@, handle));
            assert(self@.consumers.dom() =~= old(self)@.consumers.dom().insert(id@));
        }
        Ok(replaced)
    }

    /// Takes the consumer under `id` off the list.
    pub fn remove_consumer(&mut self, id: &str) -> (handle: Option<u64>)
        requires
            old(self).wf(),
        ensures
            final(self).wf(),
            final(self)@ == old(self)@.without_consumer(id@),
            handle == old(self)@.consumer_handle(id@),
    {
        let handle: Option<u64> = self.consumers.remove(id);
        proof {
            assert(self@ =~= old(self)@.without_consumer(id@));
            assert(self@.consumers.dom() =~= old(self)@.consumers.dom().remove(id@));
        }
        handle
    }

    /// The key of a cached value that expires first.
    fn first_to_expire(&self) -> (first: Option<String>)
        requires
            self.wf(),
        ensures
            match first {
                Some(id) => expires_first(self@.cache, id@),
                None => self@.cache.len() == 0,
            },
    {
        proof {
            self.cache.keys_are_domain();
            self.domains();
        }
        let len: usize = self.cache.len();
        if len == 0 {
            return None;
        }
        let mut best: usize = 0;
        let mut i: usize = 1;
        while i < len
            invariant
                self.wf(),
                len == self.cache.keys().len(),
                best < i <= len,
                forall|j: int| #![trigger self.cache.keys()[j]]
                    0 <= j < i ==> self.cache@[self.cache.keys()[best as int]].expires_at
                        <= self.cache@[self.cache.keys()[j]].expires_at,
            decreases len - i,
        {
            if self.cache.entry(i).1.expires_at < self.cache.entry(best).1.expires_at {
                best = i;
            }
            i = i + 1;
        }
        let id: String = self.cache.entry(best).0.clone();
        proof {
            assert forall|other: Seq<char>| #[trigger] self@.cache.contains_key(other) implies
                self@.cache[id@].expires_at <= self@.cache[other].expires_at by {
                assert(self.cache.keys().to_set().contains(other));
                let j = self.cache.keys().index_of(other);
                assert(self.cache.keys()[j] == other);
            }
        }
        Some(id)
    }

    /// Caches a message that was handed over at `now`.
    pub fn insert_cached(&mut self, now: i64, id: &str, message: Message, ttl: Duration)
        requires
            old(self).wf(),
        ensures
            final(self).wf(),
            exists|cache: Cache|
                final(self)@ == #[trigger] old(self)@.with_cache(cache) && cache_insertion(
                    old(self)@.cache,
                    old(self)@.max_cache,
                    id@,
                    cached_value(now, message@, ttl),
                    cache,
                ),
    {
        proof {
            self.domains();
            self.cache.keys_are_domain();
        }
        if self.max_cache == 0 {
            assert(self@ =~= old(self)@.with_cache(old(self)@.cache));
            return;
        }
        if self.cache.len() >= self.max_cache && !self.cache.contains_key(id) {
            if let Some(first) = self.first_to_expire() {
                let _ = self.cache.remove(first.as_str());
                proof {
                    assert(self@.cache =~= old(self)@.cache.remove(first@));
                    assert(self@.cache.dom() =~= old(self)@.cache.dom().remove(first@));
                }
            }
        }
        let ghost between = *self;
        let value = Cached { message, expires_at: expires_at(now, ttl) };
        let _ = self.cache.insert(id.to_owned(), value);
        proof {
            assert(value@ == cached_value(now, message@, ttl));
            assert(self@.cache =~= between@.cache.insert(id@, value@));
            assert(self@.cache.dom() =~= between@.cache.dom().insert(id@));
            assert(self@ =~= old(self)@.with_cache(self@.cache));
        }
    }

    /// The value cached under `id`, unless it has expired at `now`.
    pub fn get_cached(&self, now: i64, id: &str) -> (message: Option<Message>)
        requires
            self.wf(),
        ensures
            match message {
                Some(m) => self@.cached_message(now, id@) == Some(m@),
                None => self@.cached_message(now, id@) is None,
            },
    {
        match self.cache.get(id) {
            Some(cached) => {
                if is_expired(now, cached.expires_at) {
                    None
                } else {
                    Some(cached.message.clone())
                }
            },
            None => None,
        }
    }

    /// Takes the value under `id` out of the cache.
    pub fn remove_cached(&mut self, id: &str)
        requires
            old(self).wf(),
        ensures
            final(self).wf(),
            final(self)@ == old(self)@.with_cache(old(self)@.cache.remove(id@)),
    {
        let _ = self.cache.remove(id);
        proof {
            assert(self@ =~= old(self)@.with_cache(old(self)@.cache.remove(id@)));
            assert(self@.cache.dom() =~= old(self)@.cache.dom().remove(id@));
        }
    }

    /// Takes the values that have expired at `now` out of the cache. Returns how many there were.
    pub fn cleanup_expired_cache(&mut self, now: i64) -> (removed: usize)
        requires
            old(self).wf(),
        ensures
            final(self).wf(),
            final(self)@ == old(self)@.with_cache(fresh(old(self)@.cache, now)),
            removed + final(self)@.cache.len() == old(self)@.cache.len(),
    {
        let ghost before = self.cache@;
        proof {
            self.domains();
            self.cache.keys_are_domain();
        }
        let mut removed: usize = 0;
        let total: usize = self.cache.len();
        let mut kept: Keyed<Cached> = Keyed::new();
        while self.cache.len() > 0
            invariant
                self.cache.wf(),
                kept.wf(),
                self.producers == old(self).producers,
                self.consumers == old(self).consumers,
                self.max_pending == old(self).max_pending,
                self.max_cache == old(self).max_cache,
                before.len() == total,
                removed + kept@.len() + self.cache@.len() == total,
                forall|key: Seq<char>| #[trigger]
                    self.cache@.contains_key(key) ==> before.contains_key(key) && self.cache@[key]
                        == before[key],
                forall|key: Seq<char>| #[trigger]
                    kept@.contains_key(key) <==> before.contains_key(key)
                        && !self.cache@.contains_key(key) && !has_expired(
                        now,
                        before[key].expires_at,
                    ),
                forall|key: Seq<char>| #[trigger]
                    kept@.contains_key(key) ==> kept@[key] == before[key],
            decreases self.cache@.len(),
        {
            if let Some((id, cached)) = self.cache.pop() {
                if is_expired(now, cached.expires_at) {
                    removed = removed + 1;
                } else {
                    kept.push(id, cached);
                }
            }
        }
        proof {
            self.cache.keys_are_domain();
            assert(self.cache@.dom() =~= Set::empty());
        }
        self.cache = kept;
        proof {
            self.domains();
            self.cache.keys_are_domain();
            assert(self@.cache =~= fresh(old(self)@.cache, now));
            assert(self@ =~= old(self)@.with_cache(fresh(old(self)@.cache, now)));
        }
        removed
    }

    /// Takes the producers whose request is in `closed` off the list. Their requests go onto
    /// `dropped`.
    fn remove_closed_producers(&mut self, closed: &Vec<u64>, dropped: &mut Vec<u64>)
        requires
            old(self).wf(),
        ensures
            final(self).wf(),
            final(self)@ == (PendingView {
                producers: old(self)@.without_closed(closed@).producers,
                ..old(self)@
            }),
            forall|handle: u64| #[trigger]
                final(dropped)@.contains(handle) <==> old(dropped)@.contains(handle) || (
                closed@.contains(handle) && exists|id: Seq<char>| #[trigger]
                    old(self)@.producers.contains_key(id) && old(self)@.producers[id].completion
                        == handle),
            old(self)@.producers_are_distinct() && old(dropped)@.len() == 0
                ==> final(dropped)@.no_duplicates(),
    {
        let ghost before = self.producers@;
        proof {
            self.domains();
            self.producers.keys_are_domain();
        }
        let mut kept: Keyed<Producer> = Keyed::new();
        while self.producers.len() > 0
            invariant
                self.producers.wf(),
                kept.wf(),
                self.cache == old(self).cache,
                self.consumers == old(self).consumers,
                self.max_pending == old(self).max_pending,
                self.max_cache == old(self).max_cache,
                kept@.len() + self.producers@.len() <= before.len(),
                forall|key: Seq<char>| #[trigger]
                    self.producers@.contains_key(key) ==> before.contains_key(key)
                        && self.producers@[key] == before[key],
                forall|key: Seq<char>| #[trigger]
                    kept@.contains_key(key) <==> before.contains_key(key)
                        && !self.producers@.contains_key(key) && !closed@.contains(
                        before[key].completion,
                    ),
                forall|key: Seq<char>| #[trigger]
                    kept@.contains_key(key) ==> kept@[key] == before[key],
                forall|handle: u64| #[trigger]
                    dropped@.contains(handle) <==> old(dropped)@.contains(handle) || (
                    closed@.contains(handle) && exists|key: Seq<char>| #[trigger]
                        before.contains_key(key) && !self.producers@.contains_key(key)
                            && before[key].completion == handle),
                before == old(self).producers@,
                old(self)@.producers_are_distinct() && old(dropped)@.len() == 0
                    ==> dropped@.no_duplicates(),
            decreases self.producers@.len(),
        {
            let ghost left = self.producers@;
            let ghost listed = dropped@;
            if let Some((id, producer)) = self.producers.pop() {
                let handle: u64 = producer.completion;
                if lists(closed, handle) {
                    dropped.push(handle);
                } else {
                    kept.push(id, producer);
                }
                proof {
                    if old(self)@.producers_are_distinct() && old(dropped)@.len() == 0 {
                        if listed.contains(handle) {
                            let key = choose|key: Seq<char>| #[trigger]
                                before.contains_key(key) && !left.contains_key(key)
                                    && before[key].completion == handle;
                            assert(old(self)@.producers.contains_key(key));
                            assert(old(self)@.producers.contains_key(id@));
                        }
                        pushed_once(listed, handle);
                    }
                    pushed_contains(listed, handle);
                    assert forall|h: u64| #[trigger]
                        dropped@.contains(h) <==> old(dropped)@.contains(h) || (closed@.contains(h)
                            && exists|key: Seq<char>| #[trigger]
                            before.contains_key(key) && !self.producers@.contains_key(key)
                                && before[key].completion == h) by {
                        assert(before.contains_key(id@) && !self.producers@.contains_key(id@));
                        assert(listed.contains(h) <==> old(dropped)@.contains(h) || (
                        closed@.contains(h) && exists|key: Seq<char>| #[trigger]
                            before.contains_key(key) && !left.contains_key(key)
                                && before[key].completion == h));
                        if listed.contains(h) && !old(dropped)@.contains(h) {
                            let key = choose|key: Seq<char>| #[trigger]
                                before.contains_key(key) && !left.contains_key(key)
                                    && before[key].completion == h;
                            assert(before.contains_key(key) && !self.producers@.contains_key(key));
                        }
                    }
                }
            }
        }
        proof {
            self.producers.keys_are_domain();
            assert(self.producers@.dom() =~= Set::empty());
        }
        self.producers = kept;
        proof {
            self.domains();
            self.producers.keys_are_domain();
            assert(self@.producers =~= old(self)@.without_closed(closed@).producers);
            assert forall|handle: u64| #[trigger]
                dropped@.contains(handle) <==> old(dropped)@.contains(handle) || (closed@.contains(
                    handle,
                ) && exists|id: Seq<char>| #[trigger]
                    old(self)@.producers.contains_key(id) && old(self)@.producers[id].completion
                        == handle) by {
                if exists|id: Seq<char>| #[trigger]
                    old(self)@.producers.contains_key(id) && old(self)@.producers[id].completion
                        == handle {
                    let id = choose|id: Seq<char>| #[trigger]
                        old(self)@.producers.contains_key(id) && old(
                            self,
                        )@.producers[id].completion == handle;
                    assert(before.contains_key(id) && before[id].completion == handle);
                }
                if exists|id: Seq<char>| #[trigger]
                    before.contains_key(id) && before[id].completion == handle {
                    let id = choose|id: Seq<char>| #[trigger]
                        before.contains_key(id) && before[id].completion == handle;
                    assert(old(self)@.producers.contains_key(id));
                }
            }
        }
    }

    /// Takes the consumers whose request is in `closed` off the list. Their requests go onto
    /// `dropped`.
    fn remove_closed_consumers(&mut self, closed: &Vec<u64>, dropped: &mut Vec<u64>)
        requires
            old(self).wf(),
        ensures
            final(self).wf(),
            final(self)@ == (PendingView {
                consumers: old(self)@.without_closed(closed@).consumers,
                ..old(self)@
            }),
            forall|handle: u64| #[trigger]
                final(dropped)@.contains(handle) <==> old(dropped)@.contains(handle) || (
                closed@.contains(handle) && exists|id: Seq<char>| #[trigger]
                    old(self)@.consumers.contains_key(id) && old(self)@.consumers[id] == handle),
            old(self)@.consumers_are_distinct() && old(dropped)@.no_duplicates() && (forall|
                id: Seq<char>,
            | #[trigger]
                old(self)@.consumers.contains_key(id) ==> !old(dropped)@.contains(
                    old(self)@.consumers[id],
                )) ==> final(dropped)@.no_duplicates(),
    {
        let ghost before = self.consumers@;
        let ghost distinct = self@.consumers_are_distinct() && dropped@.no_duplicates() && (forall|
            id: Seq<char>,
        | #[trigger] before.contains_key(id) ==> !dropped@.contains(before[id]));
        proof {
            self.consumers.keys_are_domain();
        }
        let mut kept: Keyed<u64> = Keyed::new();
        while self.consumers.len() > 0
            invariant
                self.consumers.wf(),
                kept.wf(),
                self.cache == old(self).cache,
                self.producers == old(self).producers,
                self.max_pending == old(self).max_pending,
                self.max_cache == old(self).max_cache,
                kept@.len() + self.consumers@.len() <= before.len(),
                forall|key: Seq<char>| #[trigger]
                    self.consumers@.contains_key(key) ==> before.contains_key(key)
                        && self.consumers@[key] == before[key],
                forall|key: Seq<char>| #[trigger]
                    kept@.contains_key(key) <==> before.contains_key(key)
                        && !self.consumers@.contains_key(key) && !closed@.contains(before[key]),
                forall|key: Seq<char>| #[trigger]
                    kept@.contains_key(key) ==> kept@[key] == before[key],
                forall|handle: u64| #[trigger]
                    dropped@.contains(handle) <==> old(dropped)@.contains(handle) || (
                    closed@.contains(handle) && exists|key: Seq<char>| #[trigger]
                        before.contains_key(key) && !self.consumers@.contains_key(key)
                            && before[key] == handle),
                before == old(self)@.consumers,
                distinct ==> dropped@.no_duplicates(),
                distinct ==> old(self)@.consumers_are_distinct(),
                distinct ==> forall|id: Seq<char>| #[trigger]
                    before.contains_key(id) ==> !old(dropped)@.contains(before[id]),
            decreases self.consumers@.len(),
        {
            let ghost left = self.consumers@;
            let ghost listed = dropped@;
            if let Some((id, handle)) = self.consumers.pop() {
                if lists(closed, handle) {
                    dropped.push(handle);
                } else {
                    kept.push(id, handle);
                }
                proof {
                    if distinct {
                        assert(before.contains_key(id@));
                        if listed.contains(handle) {
                            let key = choose|key: Seq<char>| #[trigger]
                                before.contains_key(key) && !left.contains_key(key) && before[key]
                                    == handle;
                            assert(old(self)@.consumers.contains_key(key));
                            assert(old(self)@.consumers.contains_key(id@));
                        }
                        pushed_once(listed, handle);
                    }
                    pushed_contains(listed, handle);
                    assert forall|h: u64| #[trigger]
                        dropped@.contains(h) <==> old(dropped)@.contains(h) || (closed@.contains(h)
                            && exists|key: Seq<char>| #[trigger]
                            before.contains_key(key) && !self.consumers@.contains_key(key)
                                && before[key] == h) by {
                        assert(before.contains_key(id@) && !self.consumers@.contains_key(id@));
                        assert(listed.contains(h) <==> old(dropped)@.contains(h) || (
                        closed@.contains(h) && exists|key: Seq<char>| #[trigger]
                            before.contains_key(key) && !left.contains_key(key) && before[key]
                                == h));
                        if listed.contains(h) && !old(dropped)@.contains(h) {
                            let key = choose|key: Seq<char>| #[trigger]
                                before.contains_key(key) && !left.contains_key(key) && before[key]
                                    == h;
                            assert(before.contains_key(key) && !self.consumers@.contains_key(key));
                        }
                    }
                }
            }
        }
        proof {
            self.consumers.keys_are_domain();
            assert(self.consumers@.dom() =~= Set::empty());
        }
        self.consumers = kept;
        proof {
            self.consumers.keys_are_domain();
            assert(self@.consumers =~= old(self)@.without_closed(closed@).consumers);
        }
    }

    /// Takes off the list the requests that have gone away, listed in `closed`, so that they no
    /// longer count as waiting. Hands back those that did.
    pub fn remove_closed(&mut self, closed: &Vec<u64>) -> (dropped: Vec<u64>)
        requires
            old(self).wf(),
        ensures
            final(self).wf(),
            final(self)@ == old(self)@.without_closed(closed@),
            forall|handle: u64| #[trigger]
                dropped@.contains(handle) <==> closed@.contains(handle) && old(self)@.waits(handle),
            old(self)@.each_once() ==> dropped@.no_duplicates(),
    {
        let mut dropped: Vec<u64> = Vec::new();
        self.remove_closed_producers(closed, &mut dropped);
        self.remove_closed_consumers(closed, &mut dropped);
        assert(self@ =~= old(self)@.without_closed(closed@));
        dropped
    }

    /// The number of cached values, expired ones that were not cleaned up included.
    pub fn cache_len(&self) -> (len: usize)
        requires
            self.wf(),
        ensures
            len == self@.cache.len(),
    {
        proof {
            self.domains();
        }
        self.cache.len()
    }

    /// Whether nobody waits.
    pub fn is_empty(&self) -> (empty: bool)
        requires
            self.wf(),
        ensures
            empty == (self@.pending() == 0),
    {
        proof {
            self.domains();
        }
        self.producers.len() == 0 && self.consumers.len() == 0
    }
}

/// What comes of a consumer's request at first.
pub struct ConsumerAnswer {
    /// What to do about the request.
    pub step: Step,
    /// The producer to tell that its message was taken.
    pub completed: Option<u64>,
    /// The consumer to let go, whose place this one took.
    pub dropped: Option<u64>,
}

/// What comes of a producer's request at first.
pub struct ProducerAnswer {
    /// What to do about the request.
    pub step: Step,
    /// The consumer that gets the message, and the message.
    pub delivery: Option<(u64, Message)>,
    /// The producer to let go, whose place this one took.
    pub dropped: Option<u64>,
}

/// What to do about a request that has to wait.
pub open spec fn waiting_step(list: PendingView, timeout: Duration) -> StepView {
    if list.is_full() {
        StepView::Respond(text_reply(SERVICE_UNAVAILABLE, "Server at capacity"@))
    } else {
        StepView::Wait(timeout)
    }
}

/// A consumer who finds nothing to take waits, if there is room.
pub open spec fn consumer_waits(
    before: PendingView,
    id: Seq<char>,
    handle: u64,
    timeout: Duration,
    answer: ConsumerAnswer,
    after: PendingView,
) -> bool {
    &&& answer.step@ == waiting_step(before, timeout)
    &&& answer.completed is None
    &&& if before.is_full() {
        answer.dropped is None && after == before
    } else {
        answer.dropped == before.consumer_handle(id) && after == before.with_consumer(id, handle)
    }
}

/// A producer who finds nobody to hand the message to waits, if there is room.
pub open spec fn producer_waits(
    before: PendingView,
    id: Seq<char>,
    message: MessageView,
    handle: u64,
    timeout: Duration,
    answer: ProducerAnswer,
    after: PendingView,
) -> bool {
    &&& answer.step@ == waiting_step(before, timeout)
    &&& answer.delivery is None
    &&& if before.is_full() {
        answer.dropped is None && after == before
    } else {
        &&& answer.dropped == before.producer_handle(id)
        &&& after == before.with_producer(id, ProducerView { message, completion: handle })
    }
}

/// Lets a consumer wait, if there is room.
pub(crate) fn enqueue_consumer(
    list: &mut PendingList,
    id: &str,
    handle: u64,
    timeout: Duration,
) -> (answer: ConsumerAnswer)
    requires
        old(list).wf(),
    ensures
        final(list).wf(),
        consumer_waits(old(list)@, id@, handle, timeout, answer, final(list)@),
{
    match list.insert_consumer(id, handle) {
        Ok(dropped) => ConsumerAnswer { step: Step::Wait(timeout), completed: None, dropped },
        Err(_) => ConsumerAnswer {
            step: Step::Respond(plain(SERVICE_UNAVAILABLE, "Server at capacity")),
            completed: None,
            dropped: None,
        },
    }
}

/// Lets a producer wait, if there is room.
pub(crate) fn enqueue_producer(
    list: &mut PendingList,
    id: &str,
    message: Message,
    handle: u64,
    timeout: Duration,
) -> (answer: ProducerAnswer)
    requires
        old(list).wf(),
    ensures
        final(list).wf(),
        producer_waits(old(list)@, id@, message@, handle, timeout, answer, final(list)@),
{
    match list.insert_producer(id, message, handle) {
        Ok(dropped) => ProducerAnswer { step: Step::Wait(timeout), delivery: None, dropped },
        Err(_) => ProducerAnswer {
            step: Step::Respond(plain(SERVICE_UNAVAILABLE, "Server at capacity")),
            delivery: None,
            dropped: None,
        },
    }
}

/// Replies to a consumer that waited. One that timed out is taken off the list, and handed back if
/// it was still there.
pub fn consumer_resume(list: &mut PendingList, id: &str, waited: Waited<Message>) -> (answer: (
    Reply,
    Option<u64>,
))
    requires
        old(list).wf(),
    ensures
        final(list).wf(),
        match waited {
            Waited::Received(message) => {
                &&& answer.0@ == message_reply(message@)
                &&& answer.1 is None
                &&& *final(list) == *old(list)
            },
            Waited::Closed => {
                &&& answer.0@ == text_reply(NOT_FOUND, "Not Found"@)
                &&& answer.1 is None
                &&& *final(list) == *old(list)
            },
            Waited::TimedOut => {
                &&& answer.0@ == text_reply(REQUEST_TIMEOUT, "Request timed out"@)
                &&& answer.1 == old(list)@.consumer_handle(id@)
                &&& final(list)@ == old(list)@.without_consumer(id@)
            },
        },
{
    match waited {
        Waited::Received(message) => (forward(message), None),
        Waited::Closed => (plain(NOT_FOUND, "Not Found"), None),
        Waited::TimedOut => {
            // Timeout. Remove the consumer from the pending list again
            let dropped: Option<u64> = list.remove_consumer(id);
            (plain(REQUEST_TIMEOUT, "Request timed out"), dropped)
        },
    }
}

/// Replies to a producer that waited. One that timed out is taken off the list, and handed back if
/// it was still there.
pub fn producer_resume(list: &mut PendingList, id: &str, waited: Waited<()>) -> (answer: (
    Reply,
    Option<u64>,
))
    requires
        old(list).wf(),
    ensures
        final(list).wf(),
        match waited {
            Waited::TimedOut => {
                &&& answer.0@ == text_reply(REQUEST_TIMEOUT, "Request timed out"@)
                &&& answer.1 == old(list)@.producer_handle(id@)
                &&& final(list)@ == old(list)@.without_producer(id@)
            },
            _ => {
                &&& answer.0@ == empty_reply()
                &&& answer.1 is None
                &&& *final(list) == *old(list)
            },
        },
{
    match waited {
        Waited::TimedOut => {
            // Timeout. Remove the producer from the pending list again
            let dropped: Option<u64> = match list.remove_producer(id) {
                Some(producer) => Some(producer.completion),
                None => None,
            };
            (plain(REQUEST_TIMEOUT, "Request timed out"), dropped)
        },
        _ => (accepted(), None),
    }
}

} // verus!
