use bytes::Bytes;
use http_relay::link2::{get_handler, post_handler};
use http_relay::rendezvous::{
    consumer_resume, producer_resume, ConsumerAnswer, PendingList, ProducerAnswer,
    DEFAULT_MAX_CACHE, DEFAULT_MAX_PENDING,
};
use http_relay::request::{Step, Waited};
use http_relay::response::Reply;
use http_relay::server::Config;
use http_relay::Message;
use std::time::Duration;

const NOW: i64 = 1_700_000_000_000;
const TTL: Duration = Duration::from_secs(5);

fn config(cache_ttl: Duration) -> Config {
    Config { cache_ttl, ..Config::default() }
}

fn create_test_list() -> PendingList {
    PendingList::new(100, 100)
}

fn get(list: &mut PendingList, now: i64, id: &str, handle: u64) -> ConsumerAnswer {
    get_handler(list, &config(TTL), now, id, handle)
}

fn post(
    list: &mut PendingList,
    now: i64,
    id: &str,
    body: &'static [u8],
    handle: u64,
) -> ProducerAnswer {
    post_handler(list, &config(TTL), now, id, None, Bytes::from_static(body), handle)
}

fn text(reply: &Reply) -> &str {
    std::str::from_utf8(&reply.body).unwrap()
}

fn replied(step: Step) -> Reply {
    match step {
        Step::Respond(reply) => reply,
        Step::Wait(_) => panic!("expected a reply"),
    }
}

fn message(body: &'static [u8]) -> Message {
    Message { body: Bytes::from_static(body), content_type: None }
}

#[test]
fn link2_test_cached_value_multiple_consumers() {
    let mut list = create_test_list();

    // Producer sends data
    assert!(matches!(post(&mut list, NOW, "cache-test", b"cached data", 1).step, Step::Wait(_)));

    // First consumer receives it
    let answer = get(&mut list, NOW + 50, "cache-test", 2);
    assert_eq!(answer.completed, Some(1));
    let reply = replied(answer.step);
    assert_eq!(reply.status, 200);
    assert_eq!(text(&reply), "cached data");
    let (reply, _) = producer_resume(&mut list, "cache-test", Waited::Received(()));
    assert_eq!(reply.status, 200);

    // Value should now be cached
    assert_eq!(list.cache_len(), 1);

    // Second consumer can get the same cached value
    let reply = replied(get(&mut list, NOW + 60, "cache-test", 3).step);
    assert_eq!(reply.status, 200);
    assert_eq!(text(&reply), "cached data");

    // Third consumer also gets it
    let reply = replied(get(&mut list, NOW + 70, "cache-test", 4).step);
    assert_eq!(reply.status, 200);
    assert_eq!(text(&reply), "cached data");
}

#[test]
fn link2_test_cache_expires() {
    let mut list = create_test_list();
    let ttl = Duration::from_millis(50);

    // Producer sends, consumer receives (value gets cached)
    let body = Bytes::from_static(b"ephemeral");
    post_handler(&mut list, &config(ttl), NOW, "expire-test", None, body, 1);
    let reply = replied(get_handler(&mut list, &config(ttl), NOW + 10, "expire-test", 2).step);
    assert_eq!(text(&reply), "ephemeral");

    // Value is cached
    assert!(list.get_cached(NOW + 10, "expire-test").is_some());

    // Value should be expired (get_cached returns None)
    assert!(list.get_cached(NOW + 1510, "expire-test").is_none());
}

#[test]
fn link2_test_post_overwrites_cache() {
    let mut list = create_test_list();

    // First producer-consumer pair
    post(&mut list, NOW, "overwrite-test", b"first value", 1);
    get(&mut list, NOW + 50, "overwrite-test", 2);

    // Verify first value is cached
    let cached = list.get_cached(NOW + 50, "overwrite-test");
    assert_eq!(cached.unwrap().body.as_ref(), b"first value");

    // Second producer posts new value - should overwrite and wait
    let offer = post(&mut list, NOW + 60, "overwrite-test", b"second value", 3);
    assert!(matches!(offer.step, Step::Wait(_)));
    let answer = get(&mut list, NOW + 110, "overwrite-test", 4);
    assert_eq!(answer.completed, Some(3));
    assert_eq!(text(&replied(answer.step)), "second value");

    // Verify new value is cached
    let cached = list.get_cached(NOW + 110, "overwrite-test");
    assert_eq!(cached.unwrap().body.as_ref(), b"second value");
}

#[test]
fn test_producer_timeout_does_not_cache() {
    let mut list = create_test_list();

    // Producer posts without any consumer waiting - should timeout
    let offer = post(&mut list, NOW, "timeout-test", b"should not cache", 1);
    assert!(matches!(offer.step, Step::Wait(_)));
    let (reply, _) = producer_resume(&mut list, "timeout-test", Waited::TimedOut);
    assert_eq!(reply.status, 408); // REQUEST_TIMEOUT

    // Value should NOT be cached
    assert!(list.get_cached(NOW, "timeout-test").is_none());
    assert!(list.is_empty());
}

#[test]
fn test_consumer_timeout() {
    let mut list = create_test_list();

    // Consumer waits without any producer - should timeout
    assert!(matches!(get(&mut list, NOW, "consumer-timeout-test", 1).step, Step::Wait(_)));
    let (reply, _) = consumer_resume(&mut list, "consumer-timeout-test", Waited::TimedOut);
    assert_eq!(reply.status, 408); // REQUEST_TIMEOUT
}

#[test]
fn link2_test_consumer_first_then_producer_caches() {
    let mut list = create_test_list();

    // Consumer waits first, then producer sends
    assert!(matches!(get(&mut list, NOW, "consumer-first", 1).step, Step::Wait(_)));
    let offer = post(&mut list, NOW + 100, "consumer-first", b"delayed data", 2);
    assert_eq!(replied(offer.step).status, 200);
    let (receiver, sent) = offer.delivery.unwrap();
    assert_eq!(receiver, 1);
    let (reply, _) = consumer_resume(&mut list, "consumer-first", Waited::Received(sent));
    assert_eq!(reply.status, 200);
    assert_eq!(text(&reply), "delayed data");

    // Value should be cached for subsequent consumers
    assert_eq!(list.cache_len(), 1);
    let reply = replied(get(&mut list, NOW + 110, "consumer-first", 3).step);
    assert_eq!(text(&reply), "delayed data");
}

// ========== The same exchanges, without content types ==========

#[test]
fn http_relay_test_delayed_producer() {
    let mut list = create_test_list();

    assert!(matches!(get(&mut list, NOW, "123", 1).step, Step::Wait(_)));

    let offer = post(&mut list, NOW + 200, "123", b"Hello, world!", 2);
    let reply = replied(offer.step);
    assert_eq!(reply.status, 200);
    assert_eq!(text(&reply), "");

    let (_, sent) = offer.delivery.unwrap();
    let (reply, _) = consumer_resume(&mut list, "123", Waited::Received(sent));
    assert_eq!(reply.status, 200);
    assert_eq!(text(&reply), "Hello, world!");
    assert!(list.is_empty());
}

#[test]
fn http_relay_test_delayed_consumer() {
    let mut list = create_test_list();

    assert!(matches!(post(&mut list, NOW, "123", b"Hello, world!", 2).step, Step::Wait(_)));

    let reply = replied(get(&mut list, NOW + 200, "123", 1).step);
    assert_eq!(reply.status, 200);
    assert_eq!(text(&reply), "Hello, world!");

    let (reply, _) = producer_resume(&mut list, "123", Waited::Received(()));
    assert_eq!(reply.status, 200);
    assert_eq!(text(&reply), "");
    assert!(list.is_empty());
}

#[test]
fn http_relay_test_request_timeout() {
    let mut list = create_test_list();

    // Consumer request timed out
    assert!(matches!(get(&mut list, NOW, "123", 1).step, Step::Wait(_)));
    let (reply, _) = consumer_resume(&mut list, "123", Waited::TimedOut);
    assert_eq!(reply.status, 408);
    assert_eq!(text(&reply), "Request timed out");
    assert!(list.is_empty());

    // Producer request timed out
    assert!(matches!(post(&mut list, NOW, "123", b"Hello, world!", 2).step, Step::Wait(_)));
    let (reply, _) = producer_resume(&mut list, "123", Waited::TimedOut);
    assert_eq!(reply.status, 408);
    assert_eq!(text(&reply), "Request timed out");
    assert!(list.is_empty());
}

#[test]
fn http_relay_test_cached_value_multiple_consumers() {
    let mut list = create_test_list();

    // Producer sends data, first consumer receives it
    post(&mut list, NOW, "cache-test", b"cached data", 1);
    let reply = replied(get(&mut list, NOW + 50, "cache-test", 2).step);
    assert_eq!(reply.status, 200);
    assert_eq!(text(&reply), "cached data");

    // Value should now be cached
    assert_eq!(list.cache_len(), 1);

    // Second and third consumer can get the same cached value
    for handle in [3, 4] {
        let reply = replied(get(&mut list, NOW + 60, "cache-test", handle).step);
        assert_eq!(reply.status, 200);
        assert_eq!(text(&reply), "cached data");
    }
}

#[test]
fn http_relay_test_cache_expires() {
    let mut list = create_test_list();
    let ttl = Duration::from_millis(50);

    let body = Bytes::from_static(b"ephemeral");
    post_handler(&mut list, &config(ttl), NOW, "expire-test", None, body, 1);
    let reply = replied(get_handler(&mut list, &config(ttl), NOW + 10, "expire-test", 2).step);
    assert_eq!(text(&reply), "ephemeral");

    // Value is cached
    assert!(list.get_cached(NOW + 10, "expire-test").is_some());

    // Value should be expired (get_cached returns None)
    assert!(list.get_cached(NOW + 1510, "expire-test").is_none());
}

#[test]
fn http_relay_test_post_overwrites_cache() {
    let mut list = create_test_list();

    post(&mut list, NOW, "overwrite-test", b"first value", 1);
    get(&mut list, NOW + 50, "overwrite-test", 2);
    let cached = list.get_cached(NOW + 50, "overwrite-test");
    assert_eq!(cached.unwrap().body.as_ref(), b"first value");

    post(&mut list, NOW + 60, "overwrite-test", b"second value", 3);
    let reply = replied(get(&mut list, NOW + 110, "overwrite-test", 4).step);
    assert_eq!(text(&reply), "second value");

    let cached = list.get_cached(NOW + 110, "overwrite-test");
    assert_eq!(cached.unwrap().body.as_ref(), b"second value");
}

#[test]
fn http_relay_test_consumer_first_then_producer_caches() {
    let mut list = create_test_list();

    get(&mut list, NOW, "consumer-first", 1);
    let offer = post(&mut list, NOW + 100, "consumer-first", b"delayed data", 2);
    assert_eq!(replied(offer.step).status, 200);
    let (_, sent) = offer.delivery.unwrap();
    let (reply, _) = consumer_resume(&mut list, "consumer-first", Waited::Received(sent));
    assert_eq!(reply.status, 200);
    assert_eq!(text(&reply), "delayed data");

    // Value should be cached for subsequent consumers
    assert_eq!(list.cache_len(), 1);
    let reply = replied(get(&mut list, NOW + 110, "consumer-first", 3).step);
    assert_eq!(text(&reply), "delayed data");
}

// ========== Limits ==========

#[test]
fn a_full_cache_gives_up_what_expires_first() {
    let mut list = PendingList::new(10, 2);
    list.insert_cached(NOW, "late", message(b"l"), Duration::from_secs(9));
    list.insert_cached(NOW, "soon", message(b"s"), Duration::from_secs(3));
    list.insert_cached(NOW, "new", message(b"n"), Duration::from_secs(5));
    assert_eq!(list.cache_len(), 2);
    assert!(list.get_cached(NOW, "soon").is_none());
    assert_eq!(list.get_cached(NOW, "late").unwrap().body.as_ref(), b"l");
    assert_eq!(list.get_cached(NOW, "new").unwrap().body.as_ref(), b"n");

    // Replacing a value makes no room
    list.insert_cached(NOW, "new", message(b"m"), Duration::from_secs(1));
    assert_eq!(list.cache_len(), 2);
    assert_eq!(list.get_cached(NOW, "new").unwrap().body.as_ref(), b"m");
}

#[test]
fn a_cache_for_nothing_holds_nothing() {
    let mut list = PendingList::new(10, 0);
    post(&mut list, NOW, "id", b"x", 1);
    let reply = replied(get(&mut list, NOW, "id", 2).step);
    assert_eq!(text(&reply), "x");
    assert_eq!(list.cache_len(), 0);
    assert!(matches!(get(&mut list, NOW, "id", 3).step, Step::Wait(_)));
}

#[test]
fn cleaning_up_the_cache_counts_what_expired() {
    let mut list = create_test_list();
    list.insert_cached(NOW, "a", message(b"a"), Duration::from_millis(10));
    list.insert_cached(NOW, "b", message(b"b"), Duration::from_millis(20));
    list.insert_cached(NOW, "c", message(b"c"), Duration::from_millis(30));
    assert_eq!(list.cleanup_expired_cache(NOW + 9), 0);
    assert_eq!(list.cleanup_expired_cache(NOW + 20), 2);
    assert_eq!(list.cache_len(), 1);
    assert_eq!(list.get_cached(NOW + 20, "c").unwrap().body.as_ref(), b"c");
    assert_eq!(list.cleanup_expired_cache(NOW + 20), 0);
}

#[test]
fn a_refused_producer_still_forgets_the_cached_value() {
    let mut list = PendingList::new(1, 10);
    list.insert_cached(NOW, "id", message(b"old"), TTL);
    assert!(matches!(get(&mut list, NOW, "other", 1).step, Step::Wait(_)));
    let reply = replied(post(&mut list, NOW, "id", b"new", 2).step);
    assert_eq!((reply.status, text(&reply)), (503, "Server at capacity"));
    assert!(list.get_cached(NOW, "id").is_none());
}

#[test]
fn the_default_limits() {
    assert_eq!(DEFAULT_MAX_PENDING, 10_000);
    assert_eq!(DEFAULT_MAX_CACHE, 10_000);
}

#[test]
fn an_expired_value_gives_way_to_a_waiting_producer() {
    let mut list = create_test_list();
    list.insert_cached(NOW, "id", message(b"old"), Duration::from_millis(1));
    list.insert_producer("id", message(b"new"), 4).unwrap();
    let answer = get(&mut list, NOW + 1, "id", 5);
    assert_eq!(answer.completed, Some(4));
    assert_eq!(text(&replied(answer.step)), "new");
    assert_eq!(list.get_cached(NOW + 1, "id").unwrap().body.as_ref(), b"new");
}

#[test]
fn both_sides_wait_for_the_link2_timeout() {
    let mut list = create_test_list();
    let config = Config { link2_timeout: Duration::from_secs(7), ..Config::default() };
    let step = get_handler(&mut list, &config, NOW, "a", 1).step;
    assert!(matches!(step, Step::Wait(timeout) if timeout == Duration::from_secs(7)));
    let step = post_handler(&mut list, &config, NOW, "b", None, Bytes::new(), 2).step;
    assert!(matches!(step, Step::Wait(timeout) if timeout == Duration::from_secs(7)));
}
