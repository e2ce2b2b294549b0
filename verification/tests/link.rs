use axum::http::HeaderValue;
use bytes::Bytes;
use http_relay::link::{get_handler, post_handler};
use http_relay::rendezvous::{
    consumer_resume, producer_resume, ConsumerAnswer, PendingList, ProducerAnswer,
};
use http_relay::request::{Step, Waited};
use http_relay::response::Reply;
use http_relay::server::Config;
use std::time::Duration;

fn create_test_list() -> PendingList {
    PendingList::new(100, 100)
}

fn get(list: &mut PendingList, id: &str, handle: u64) -> ConsumerAnswer {
    get_handler(list, &Config::default(), id, handle)
}

fn post(list: &mut PendingList, id: &str, body: Bytes, handle: u64) -> ProducerAnswer {
    post_handler(list, &Config::default(), id, None, body, handle)
}

fn text(reply: &Reply) -> &str {
    std::str::from_utf8(&reply.body).unwrap()
}

fn replied(step: Step) -> Reply {
    match step {
        Step::Respond(reply) => reply,
        Step::Wait(_) => panic!("expected a reply"),
    }
}

#[test]
fn link_test_delayed_producer() {
    let mut list = create_test_list();

    let answer = get(&mut list, "123", 1);
    assert!(matches!(answer.step, Step::Wait(_)));

    let body = Bytes::from_static(b"Hello, world!");
    let offer = post(&mut list, "123", body, 2);
    let reply = replied(offer.step);
    assert_eq!(reply.status, 200);
    assert_eq!(text(&reply), "");

    let (receiver, message) = offer.delivery.unwrap();
    assert_eq!(receiver, 1);
    let (reply, _) = consumer_resume(&mut list, "123", Waited::Received(message));
    assert_eq!(reply.status, 200);
    assert_eq!(text(&reply), "Hello, world!");
    assert!(list.is_empty());
}

#[test]
fn link_test_delayed_consumer() {
    let mut list = create_test_list();

    let body = Bytes::from_static(b"Hello, world!");
    let offer = post(&mut list, "123", body, 2);
    assert!(matches!(offer.step, Step::Wait(_)));
    assert!(offer.delivery.is_none());

    let answer = get(&mut list, "123", 1);
    assert_eq!(answer.completed, Some(2));
    let reply = replied(answer.step);
    assert_eq!(reply.status, 200);
    assert_eq!(text(&reply), "Hello, world!");

    let (reply, _) = producer_resume(&mut list, "123", Waited::Received(()));
    assert_eq!(reply.status, 200);
    assert_eq!(text(&reply), "");
    assert!(list.is_empty());
}

#[test]
fn link_test_request_timeout() {
    let mut list = create_test_list();

    // Consumer request timed out
    assert!(matches!(get(&mut list, "123", 1).step, Step::Wait(_)));
    assert!(!list.is_empty());
    let (reply, dropped) = consumer_resume(&mut list, "123", Waited::TimedOut);
    assert_eq!(reply.status, 408);
    assert_eq!(text(&reply), "Request timed out");
    assert_eq!(dropped, Some(1));
    assert!(list.is_empty());

    // Producer request timed out
    let body = Bytes::from_static(b"Hello, world!");
    assert!(matches!(post(&mut list, "123", body, 2).step, Step::Wait(_)));
    let (reply, dropped) = producer_resume(&mut list, "123", Waited::TimedOut);
    assert_eq!(reply.status, 408);
    assert_eq!(text(&reply), "Request timed out");
    assert_eq!(dropped, Some(2));
    assert!(list.is_empty());
}

#[test]
fn test_no_caching() {
    let mut list = create_test_list();

    // Producer sends, consumer receives - but no caching on /link/
    let body = Bytes::from_static(b"no cache data");
    post(&mut list, "no-cache-test", body, 1);
    let reply = replied(get(&mut list, "no-cache-test", 2).step);
    assert_eq!(text(&reply), "no cache data");

    // Value should NOT be cached for /link/
    assert_eq!(list.cache_len(), 0);

    // Second consumer should timeout since no caching
    assert!(matches!(get(&mut list, "no-cache-test", 3).step, Step::Wait(_)));
    let (reply, _) = consumer_resume(&mut list, "no-cache-test", Waited::TimedOut);
    assert_eq!(reply.status, 408);
}

#[test]
fn link_test_content_type_forwarding() {
    let mut list = create_test_list();

    get(&mut list, "ct-test", 1);
    let header = HeaderValue::from_static("application/json");
    let body = Bytes::from_static(br#"{"key":"value"}"#);
    let offer = post_handler(&mut list, &Config::default(), "ct-test", Some(&header), body, 2);
    let (_, message) = offer.delivery.unwrap();

    let (reply, _) = consumer_resume(&mut list, "ct-test", Waited::Received(message));
    assert_eq!(reply.status, 200);
    assert_eq!(text(&reply), r#"{"key":"value"}"#);
    assert_eq!(reply.content_type.unwrap().to_str().unwrap(), "application/json");
}

#[test]
fn requests_beyond_the_limit_are_refused() {
    let mut list = PendingList::new(2, 0);
    assert!(matches!(get(&mut list, "a", 1).step, Step::Wait(_)));
    let offer = post(&mut list, "b", Bytes::from_static(b"b"), 2);
    assert!(matches!(offer.step, Step::Wait(_)));

    let reply = replied(get(&mut list, "c", 3).step);
    assert_eq!((reply.status, text(&reply)), (503, "Server at capacity"));
    let reply = replied(post(&mut list, "c", Bytes::new(), 4).step);
    assert_eq!((reply.status, text(&reply)), (503, "Server at capacity"));

    // Those who meet their counterpart need no room
    assert_eq!(get(&mut list, "b", 5).completed, Some(2));
    assert!(matches!(get(&mut list, "c", 6).step, Step::Wait(_)));
}

#[test]
fn a_later_request_takes_the_place_of_an_earlier_one() {
    let mut list = create_test_list();
    get(&mut list, "id", 1);
    assert_eq!(get(&mut list, "id", 2).dropped, Some(1));
    let (reply, _) = consumer_resume(&mut list, "id", Waited::Closed);
    assert_eq!((reply.status, text(&reply)), (404, "Not Found"));
    let offer = post(&mut list, "id", Bytes::from_static(b"x"), 3);
    assert_eq!(offer.delivery.unwrap().0, 2);

    post(&mut list, "id", Bytes::from_static(b"one"), 4);
    let offer = post(&mut list, "id", Bytes::from_static(b"two"), 5);
    assert_eq!(offer.dropped, Some(4));
    let (reply, _) = producer_resume(&mut list, "id", Waited::Closed);
    assert_eq!((reply.status, reply.body.len()), (200, 0));
    let answer = get(&mut list, "id", 6);
    assert_eq!(answer.completed, Some(5));
    assert_eq!(text(&replied(answer.step)), "two");
}

#[test]
fn under_no_id_do_both_sides_wait() {
    let mut list = create_test_list();
    get(&mut list, "id", 1);
    let offer = post(&mut list, "id", Bytes::from_static(b"x"), 2);
    assert!(offer.delivery.is_some());
    assert!(list.remove_producer("id").is_none());
    assert_eq!(list.remove_consumer("id"), None);
}

#[test]
fn both_sides_wait_for_the_request_timeout() {
    let mut list = create_test_list();
    let config = Config { request_timeout: Duration::from_secs(7), ..Config::default() };
    let step = get_handler(&mut list, &config, "a", 1).step;
    assert!(matches!(step, Step::Wait(timeout) if timeout == Duration::from_secs(7)));
    let step = post_handler(&mut list, &config, "b", None, Bytes::new(), 2).step;
    assert!(matches!(step, Step::Wait(timeout) if timeout == Duration::from_secs(7)));
}

#[test]
fn requests_that_went_away_make_room() {
    let mut list = PendingList::new(3, 0);
    get(&mut list, "a", 1);
    post(&mut list, "b", Bytes::from_static(b"b"), 2);
    get(&mut list, "c", 3);
    let reply = replied(get(&mut list, "d", 4).step);
    assert_eq!(reply.status, 503);

    let mut dropped = list.remove_closed(&vec![3, 2, 9]);
    dropped.sort();
    assert_eq!(dropped, vec![2, 3]);
    assert_eq!(list.remove_consumer("a"), Some(1));
    assert!(list.is_empty());
    assert!(list.remove_closed(&vec![1, 2, 3]).is_empty());
}
