use axum::http::HeaderValue;
use bytes::Bytes;
use http_relay::link_handler::{
    answer_get, answer_post, deliver, get_handler, get_resume, post_handler, post_resume,
    ConsumerStep, ProducerAnswer,
};
use http_relay::request::{Step, Waited};
use http_relay::response::{Reply, MAX_ID_LENGTH};
use http_relay::server::Config;
use http_relay::waiting_list::AckSubscription;
use http_relay::{storage_memory, Message, SubscribeError, WaitingList};
use std::time::Duration;

const NOW: i64 = 1_700_000_000_000;
const SECOND: Duration = Duration::from_secs(1);

fn create_test_list() -> WaitingList {
    WaitingList::new_in_memory(100).unwrap()
}

fn post(list: &mut WaitingList, id: &str, body: &'static [u8], handle: u64) -> ProducerAnswer {
    let config = Config::default();
    post_handler(list, &config, NOW, id.to_string(), None, Bytes::from_static(body), handle)
}

fn get(list: &mut WaitingList, now: i64, id: &str, handle: u64) -> ConsumerStep {
    get_handler(list, &Config::default(), now, id, handle)
}

fn text(reply: &Reply) -> &str {
    std::str::from_utf8(&reply.body).unwrap()
}

fn replied(step: Step) -> Reply {
    match step {
        Step::Respond(reply) => reply,
        Step::Wait(_) => panic!("expected a reply"),
    }
}

fn refused(step: ConsumerStep) -> Reply {
    match step {
        ConsumerStep::Respond(reply) => reply,
        _ => panic!("expected a reply"),
    }
}

fn fetched(step: ConsumerStep) -> Message {
    match step {
        ConsumerStep::Deliver(message) => message,
        _ => panic!("expected a message"),
    }
}

#[test]
fn link_handler_test_delayed_producer() {
    let mut list = create_test_list();

    // Consumer waits
    assert!(matches!(get(&mut list, NOW, "123", 1), ConsumerStep::Wait(_)));

    // Producer sends: the consumer is woken, and the producer waits for its ACK
    let answer = post(&mut list, "123", b"Hello, world!", 2);
    assert!(matches!(answer.step, Step::Wait(_)));
    let stored = answer.stored.unwrap();
    assert_eq!(stored.notified, vec![1]);

    let message = fetched(get_resume(Waited::Received(stored.message)));
    let (reply, notified) = deliver(&mut list, NOW, "123", message);
    assert_eq!(reply.status, 200);
    assert_eq!(text(&reply), "Hello, world!");
    assert_eq!(notified, vec![2]);

    let reply = post_resume(Waited::Received(()));
    assert_eq!(reply.status, 200);

    // Entry may still exist (acked) until cleanup
    assert_eq!(list.is_acked_at(NOW, "123"), Some(true));
}

#[test]
fn link_handler_test_delayed_consumer() {
    let mut list = create_test_list();

    let answer = post(&mut list, "123", b"Hello, world!", 2);
    assert!(matches!(answer.step, Step::Wait(_)));

    let message = fetched(get(&mut list, NOW + 200, "123", 1));
    let (reply, notified) = deliver(&mut list, NOW + 200, "123", message);
    assert_eq!(reply.status, 200);
    assert_eq!(text(&reply), "Hello, world!");
    assert_eq!(notified, vec![2]);

    let reply = post_resume(Waited::Received(()));
    assert_eq!(reply.status, 200);
    assert_eq!(list.is_acked_at(NOW + 200, "123"), Some(true));
}

#[test]
fn test_link_timeout() {
    let mut list = create_test_list();

    // Consumer request times out
    assert!(matches!(get(&mut list, NOW, "timeout-test", 1), ConsumerStep::Wait(_)));
    let reply = refused(get_resume(Waited::TimedOut));
    assert_eq!(reply.status, 408);
    assert_eq!(text(&reply), "Request timed out");
    assert!(!reply.deprecated);

    // Producer request times out
    let answer = post(&mut list, "timeout-test2", b"Hello, world!", 2);
    assert!(matches!(answer.step, Step::Wait(_)));
    let reply = post_resume(Waited::TimedOut);
    assert_eq!(reply.status, 408);
    assert_eq!(text(&reply), "Request timed out");
}

#[test]
fn link_handler_test_content_type_forwarding() {
    let mut list = create_test_list();

    assert!(matches!(get(&mut list, NOW, "ct-test", 1), ConsumerStep::Wait(_)));

    let header = HeaderValue::from_static("application/json");
    let body = Bytes::from_static(br#"{"key":"value"}"#);
    let config = Config::default();
    let answer =
        post_handler(&mut list, &config, NOW, "ct-test".to_string(), Some(&header), body, 2);
    let stored = answer.stored.unwrap();

    let message = fetched(get_resume(Waited::Received(stored.message)));
    let (reply, _) = deliver(&mut list, NOW, "ct-test", message);
    assert_eq!(reply.status, 200);
    assert_eq!(text(&reply), r#"{"key":"value"}"#);
    assert_eq!(reply.content_type.unwrap().to_str().unwrap(), "application/json");
}

#[test]
fn test_channel_id_too_long() {
    let mut list = create_test_list();

    let long_id = "x".repeat(MAX_ID_LENGTH + 1);

    // GET rejects long IDs
    let reply = refused(get(&mut list, NOW, &long_id, 1));
    assert_eq!(reply.status, 400);
    assert_eq!(text(&reply), "Channel ID too long");

    // POST rejects long IDs
    let answer = post(&mut list, &long_id, b"test", 2);
    assert!(answer.stored.is_none());
    let reply = replied(answer.step);
    assert_eq!(reply.status, 400);
    assert_eq!(text(&reply), "Channel ID too long");

    // IDs at the limit should work (timeout instead of 400)
    let ok_id = "x".repeat(MAX_ID_LENGTH);
    assert!(matches!(get(&mut list, NOW, &ok_id, 1), ConsumerStep::Wait(_)));
}

#[test]
fn test_deprecation_header() {
    let mut list = create_test_list();

    assert!(matches!(get(&mut list, NOW, "deprecation-test", 1), ConsumerStep::Wait(_)));
    let answer = post(&mut list, "deprecation-test", b"test", 2);
    let message = fetched(get_resume(Waited::Received(answer.stored.unwrap().message)));
    let (reply, _) = deliver(&mut list, NOW, "deprecation-test", message);
    assert!(reply.deprecated);
    assert!(post_resume(Waited::Received(())).deprecated);
    assert!(post_resume(Waited::Closed).deprecated);
    assert!(post_resume(Waited::TimedOut).deprecated);
}

#[test]
fn the_message_of_a_handoff_is_given_out_once() {
    let repository = storage_memory::EntryRepository::new(None, 10).unwrap();
    let mut list = WaitingList::new(repository);
    let body = Bytes::from_static(b"once");
    let config = Config::default();
    let answer = post_handler(&mut list, &config, NOW, "id".to_string(), None, body, 2);
    assert!(matches!(answer.step, Step::Wait(_)));
    let message = fetched(get_handler(&mut list, &config, NOW + 1, "id", 3));
    let (reply, notified) = deliver(&mut list, NOW + 1, "id", message);
    assert_eq!(text(&reply), "once");
    assert_eq!(notified, vec![2]);
    let step = get_handler(&mut list, &config, NOW + 1, "id", 4);
    assert!(matches!(step, ConsumerStep::Wait(_)));
}

#[test]
fn a_second_producer_lets_the_first_go() {
    let mut list = create_test_list();
    post(&mut list, "id", b"first", 1);
    let answer = post(&mut list, "id", b"second", 2);
    assert!(matches!(answer.step, Step::Wait(_)));
    assert_eq!(answer.stored.unwrap().dropped, vec![1]);
    let reply = post_resume(Waited::Closed);
    assert_eq!((reply.status, text(&reply)), (404, "Entry expired"));
}

#[test]
fn a_message_that_expires_at_once_finds_no_room() {
    let mut list = create_test_list();
    let body = Bytes::from_static(b"x");
    let config = Config { link_timeout: Duration::from_secs(0), ..Config::default() };
    let answer = post_handler(&mut list, &config, NOW, "id".to_string(), None, body, 1);
    let reply = replied(answer.step);
    assert_eq!((reply.status, text(&reply)), (503, "Server at capacity"));
    assert!(!reply.deprecated);
}

#[test]
fn consumers_beyond_the_limit_are_refused() {
    let mut list = create_test_list();
    for handle in 0..10 {
        assert!(matches!(get(&mut list, NOW, "busy", handle), ConsumerStep::Wait(_)));
    }
    let reply = refused(get(&mut list, NOW, "busy", 10));
    assert_eq!((reply.status, text(&reply)), (503, "Too many concurrent requests"));
}

#[test]
fn every_answer_of_the_list_has_its_link_step() {
    let reply = replied(answer_post(Ok(AckSubscription::AlreadyAcked), SECOND));
    assert_eq!((reply.status, reply.body.len(), reply.deprecated), (200, 0, true));
    let reply = replied(answer_post(Err(SubscribeError::WaiterLimitReached), SECOND));
    assert_eq!((reply.status, text(&reply)), (503, "Too many concurrent requests"));
    let reply = replied(answer_post(Err(SubscribeError::NotFound), SECOND));
    assert_eq!((reply.status, text(&reply)), (503, "Server at capacity"));
    let reply = refused(answer_get(Err(SubscribeError::WaiterLimitReached), SECOND));
    assert_eq!(reply.status, 503);
    let reply = refused(get_resume(Waited::Closed));
    assert_eq!((reply.status, text(&reply)), (404, "Entry expired"));
}

#[test]
fn both_sides_wait_for_the_link_timeout() {
    let mut list = create_test_list();
    let config = Config { link_timeout: Duration::from_secs(7), ..Config::default() };
    let step = get_handler(&mut list, &config, NOW, "a", 1);
    assert!(matches!(step, ConsumerStep::Wait(timeout) if timeout == Duration::from_secs(7)));
    let body = Bytes::from_static(b"x");
    let answer = post_handler(&mut list, &config, NOW, "b".to_string(), None, body, 2);
    assert!(matches!(answer.step, Step::Wait(timeout) if timeout == Duration::from_secs(7)));
    assert_eq!(list.is_acked_at(NOW + 6_999, "b"), Some(false));
    assert_eq!(list.is_acked_at(NOW + 7_000, "b"), None);
}
