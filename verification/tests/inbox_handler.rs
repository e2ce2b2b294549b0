use axum::http::HeaderValue;
use bytes::Bytes;
use http_relay::inbox_handler::{
    ack_handler, answer_await, answer_get, await_handler, await_resume, delete_handler,
    get_handler, get_resume, post_handler,
};
use http_relay::request::{Step, Waited};
use http_relay::response::{Reply, MAX_ID_LENGTH};
use http_relay::server::Config;
use http_relay::waiting_list::{AckSubscription, StoreOutcome};
use http_relay::{Message, SubscribeError, WaitingList};
use std::time::Duration;

const NOW: i64 = 1_700_000_000_000;
const SECOND: Duration = Duration::from_secs(1);

fn create_test_list() -> WaitingList {
    WaitingList::new_in_memory(100).unwrap()
}

fn post(list: &mut WaitingList, id: &str, body: &'static [u8]) -> (Reply, Option<StoreOutcome>) {
    let config = Config::default();
    post_handler(list, &config, NOW, id.to_string(), None, Bytes::from_static(body))
}

fn text(reply: &Reply) -> &str {
    std::str::from_utf8(&reply.body).unwrap()
}

fn replied(step: Step) -> Reply {
    match step {
        Step::Respond(reply) => reply,
        Step::Wait(_) => panic!("expected a reply"),
    }
}

fn waits(step: Step) -> bool {
    matches!(step, Step::Wait(_))
}

#[test]
fn test_post_and_get() {
    let mut list = create_test_list();

    // POST stores message
    let (reply, _) = post(&mut list, "test-123", b"hello inbox");
    assert_eq!(reply.status, 200);

    // GET retrieves it
    let reply = replied(get_handler(&mut list, &Config::default(), NOW, "test-123", 1));
    assert_eq!(reply.status, 200);
    assert_eq!(text(&reply), "hello inbox");

    // Entry exists
    assert_eq!(list.len(), 1);
}

#[test]
fn test_get_timeout_when_no_message() {
    let mut list = create_test_list();

    // GET on nonexistent inbox waits then times out
    assert!(waits(get_handler(&mut list, &Config::default(), NOW, "nonexistent", 1)));
    let reply = get_resume(Waited::TimedOut);
    assert_eq!(reply.status, 408);
    assert_eq!(text(&reply), "Request timed out");
}

#[test]
fn test_get_long_poll_receives_message() {
    let mut list = create_test_list();

    // GET starts waiting, POST delivers message
    assert!(waits(get_handler(&mut list, &Config::default(), NOW, "long-poll-test", 17)));

    let (reply, outcome) = post(&mut list, "long-poll-test", b"delayed message");
    assert_eq!(reply.status, 200);
    let outcome = outcome.unwrap();
    assert_eq!(outcome.notified, vec![17]);

    let reply = get_resume(Waited::Received(outcome.message));
    assert_eq!(reply.status, 200);
    assert_eq!(text(&reply), "delayed message");
}

#[test]
fn test_delete_acks_message() {
    let mut list = create_test_list();

    // POST a message
    post(&mut list, "ack-test", b"to be acked");

    // DELETE acks it
    let (reply, _) = delete_handler(&mut list, NOW, "ack-test");
    assert_eq!(reply.status, 200);

    // Check ack status
    let reply = ack_handler(&list, NOW, "ack-test");
    assert_eq!(text(&reply), "true");

    // Message is cleared after ack - GET now waits and times out (408)
    assert!(waits(get_handler(&mut list, &Config::default(), NOW, "ack-test", 1)));
    assert_eq!(get_resume(Waited::TimedOut).status, 408);

    // Entry still exists (for ack tracking)
    assert_eq!(list.len(), 1);
}

#[test]
fn test_delete_not_found() {
    let mut list = create_test_list();

    let (reply, notified) = delete_handler(&mut list, NOW, "nonexistent");
    assert_eq!(reply.status, 404);
    assert_eq!(text(&reply), "Not found");
    assert!(notified.is_empty());
}

#[test]
fn test_ack_status_false() {
    let mut list = create_test_list();

    // POST a message (not acked yet)
    post(&mut list, "pending-ack", b"pending");

    // Check ack status is false
    let reply = ack_handler(&list, NOW, "pending-ack");
    assert_eq!(reply.status, 200);
    assert_eq!(text(&reply), "false");
}

#[test]
fn test_ack_status_nonexistent() {
    let list = create_test_list();

    // Check ack status for nonexistent entry returns 404
    let reply = ack_handler(&list, NOW, "nonexistent");
    assert_eq!(reply.status, 404);
    assert_eq!(text(&reply), "Not found");
}

#[test]
fn test_await_returns_when_acked() {
    let mut list = create_test_list();

    // POST a message
    post(&mut list, "await-test", b"await test");

    // Await, then ACK
    assert!(waits(await_handler(&mut list, &Config::default(), NOW, "await-test", 9)));
    let (reply, notified) = delete_handler(&mut list, NOW + 50, "await-test");
    assert_eq!(reply.status, 200);
    assert_eq!(notified, vec![9]);

    let reply = await_resume(Waited::Received(()));
    assert_eq!(reply.status, 200);
    assert_eq!(text(&reply), "");
}

#[test]
fn test_await_already_acked() {
    let mut list = create_test_list();

    // POST and immediately ACK
    post(&mut list, "pre-acked", b"pre-acked");
    delete_handler(&mut list, NOW, "pre-acked");

    // Await should return immediately with 200
    let reply = replied(await_handler(&mut list, &Config::default(), NOW, "pre-acked", 1));
    assert_eq!(reply.status, 200);
}

#[test]
fn test_await_timeout() {
    let mut list = create_test_list();

    // POST a message but don't ACK
    post(&mut list, "timeout-test", b"timeout test");

    // Await should timeout
    assert!(waits(await_handler(&mut list, &Config::default(), NOW, "timeout-test", 1)));
    let reply = await_resume(Waited::TimedOut);
    assert_eq!(reply.status, 408);
    assert_eq!(text(&reply), "Request timed out");
}

#[test]
fn test_await_not_found() {
    let mut list = create_test_list();

    // Await on nonexistent entry
    let reply = replied(await_handler(&mut list, &Config::default(), NOW, "nonexistent", 1));
    assert_eq!(reply.status, 404);
    assert_eq!(text(&reply), "Not found");
}

#[test]
fn test_await_not_triggered_by_get() {
    let mut list = create_test_list();

    // 1. POST message
    let (reply, _) = post(&mut list, "get-doesnt-ack", b"test message");
    assert_eq!(reply.status, 200);

    // 2. Await ACK
    assert!(waits(await_handler(&mut list, &Config::default(), NOW, "get-doesnt-ack", 3)));

    // GET message - await should still be waiting
    let reply = replied(get_handler(&mut list, &Config::default(), NOW + 50, "get-doesnt-ack", 4));
    assert_eq!(reply.status, 200);
    assert_eq!(text(&reply), "test message");
    assert!(list.has_waiters("get-doesnt-ack"));

    // ACK
    let (reply, notified) = delete_handler(&mut list, NOW + 100, "get-doesnt-ack");
    assert_eq!(reply.status, 200);
    assert_eq!(notified, vec![3]);

    // Await should return 200 (ACKed), not 408 (timeout)
    let await_status = await_resume(Waited::Received(())).status;
    assert_eq!(
        await_status, 200,
        "Await should return 200 after ACK, not be triggered by GET"
    );
}

#[test]
fn test_content_type_preserved() {
    let mut list = create_test_list();

    // POST with content-type
    let header = HeaderValue::from_static("application/json");
    let body = Bytes::from_static(br#"{"key":"value"}"#);
    post_handler(&mut list, &Config::default(), NOW, "ct-test".to_string(), Some(&header), body);

    // GET preserves content-type
    let reply = replied(get_handler(&mut list, &Config::default(), NOW, "ct-test", 1));
    assert_eq!(reply.status, 200);
    assert_eq!(reply.content_type.unwrap().to_str().unwrap(), "application/json");
}

#[test]
fn test_post_overwrites_previous() {
    let mut list = create_test_list();

    // First POST
    post(&mut list, "overwrite", b"first");

    // Second POST overwrites
    post(&mut list, "overwrite", b"second");

    // GET returns second value
    let reply = replied(get_handler(&mut list, &Config::default(), NOW, "overwrite", 1));
    assert_eq!(text(&reply), "second");
}

#[test]
fn test_inbox_id_too_long() {
    let mut list = create_test_list();

    let long_id = "x".repeat(MAX_ID_LENGTH + 1);

    // POST rejects long ID
    let (reply, outcome) = post(&mut list, &long_id, b"test");
    assert_eq!(reply.status, 400);
    assert_eq!(text(&reply), "Inbox ID too long");
    assert!(outcome.is_none());

    // GET rejects long ID
    let reply = replied(get_handler(&mut list, &Config::default(), NOW, &long_id, 1));
    assert_eq!(reply.status, 400);

    // DELETE rejects long ID
    let (reply, _) = delete_handler(&mut list, NOW, &long_id);
    assert_eq!(reply.status, 400);

    // /ack rejects long ID
    let reply = ack_handler(&list, NOW, &long_id);
    assert_eq!(reply.status, 400);

    // /await rejects long ID
    let reply = replied(await_handler(&mut list, &Config::default(), NOW, &long_id, 1));
    assert_eq!(reply.status, 400);

    assert!(list.is_empty());
    assert!(!list.has_waiters(&long_id));
}

#[test]
fn test_message_expires() {
    let mut list = create_test_list();
    let config = Config {
        inbox_cache_ttl: Duration::from_millis(50),
        inbox_timeout: Duration::from_millis(50),
        ..Config::default()
    };

    // POST a message
    let body = Bytes::from_static(b"ephemeral");
    post_handler(&mut list, &config, NOW, "expire-test".to_string(), None, body);

    // GET before expiry
    let reply = replied(get_handler(&mut list, &Config::default(), NOW, "expire-test", 1));
    assert_eq!(reply.status, 200);

    // GET after expiry - now times out waiting (408)
    assert!(waits(get_handler(&mut list, &Config::default(), NOW + 60, "expire-test", 1)));
    assert_eq!(get_resume(Waited::TimedOut).status, 408);
}

#[test]
fn too_many_readers_are_refused() {
    let mut list = create_test_list();
    for handle in 0..10 {
        assert!(waits(get_handler(&mut list, &Config::default(), NOW, "busy", handle)));
    }
    let reply = replied(get_handler(&mut list, &Config::default(), NOW, "busy", 10));
    assert_eq!(reply.status, 503);
    assert_eq!(text(&reply), "Too many concurrent requests");
}

#[test]
fn too_many_awaiting_are_refused() {
    let mut list = create_test_list();
    post(&mut list, "busy", b"m");
    for handle in 0..10 {
        assert!(waits(await_handler(&mut list, &Config::default(), NOW, "busy", handle)));
    }
    let reply = replied(await_handler(&mut list, &Config::default(), NOW, "busy", 10));
    assert_eq!(reply.status, 503);
    assert_eq!(text(&reply), "Too many concurrent requests");
}

#[test]
fn requests_that_are_let_go_are_told_so() {
    let reply = get_resume(Waited::Closed);
    assert_eq!((reply.status, text(&reply)), (404, "Entry expired"));
    let reply = await_resume(Waited::Closed);
    assert_eq!((reply.status, text(&reply)), (404, "Not found"));
}

#[test]
fn every_answer_of_the_list_has_its_step() {
    let reply = replied(answer_get(Err(SubscribeError::WaiterLimitReached), SECOND));
    assert_eq!(reply.status, 503);
    let reply = replied(answer_await(Ok(AckSubscription::AlreadyAcked), SECOND));
    assert_eq!((reply.status, reply.body.len()), (200, 0));
    assert!(waits(answer_await(Ok(AckSubscription::Waiting(1)), SECOND)));
    let reply = replied(answer_await(Err(SubscribeError::NotFound), SECOND));
    assert_eq!(reply.status, 404);
    let reply = replied(answer_await(Err(SubscribeError::WaiterLimitReached), SECOND));
    assert_eq!(reply.status, 503);
}

#[test]
fn one_message_goes_to_all_who_wait() {
    let mut list = create_test_list();
    for handle in [4, 2, 9] {
        assert!(waits(get_handler(&mut list, &Config::default(), NOW, "fan-out", handle)));
    }
    let (_, outcome) = post(&mut list, "fan-out", b"for all");
    let outcome = outcome.unwrap();
    assert_eq!(outcome.notified, vec![4, 2, 9]);
    for _ in 0..3 {
        let message: Message = outcome.message.clone();
        assert_eq!(text(&get_resume(Waited::Received(message))), "for all");
    }
}

#[test]
fn an_unreadable_content_type_is_passed_over() {
    let mut list = create_test_list();
    let header = HeaderValue::from_bytes(b"caf\xe9").unwrap();
    let body = Bytes::from_static(b"x");
    post_handler(&mut list, &Config::default(), NOW, "id".to_string(), Some(&header), body);
    let reply = replied(get_handler(&mut list, &Config::default(), NOW, "id", 1));
    assert_eq!(reply.status, 200);
    assert!(reply.content_type.is_none());
}

#[test]
fn requests_wait_for_the_inbox_timeout() {
    let mut list = create_test_list();
    let config = Config { inbox_timeout: Duration::from_secs(7), ..Config::default() };
    let step = get_handler(&mut list, &config, NOW, "id", 1);
    assert!(matches!(step, Step::Wait(timeout) if timeout == Duration::from_secs(7)));
    post(&mut list, "id", b"m");
    let step = await_handler(&mut list, &config, NOW, "id", 2);
    assert!(matches!(step, Step::Wait(timeout) if timeout == Duration::from_secs(7)));
}

#[test]
fn a_deleted_message_stays_counted_and_can_be_deleted_again() {
    let mut list = create_test_list();
    post(&mut list, "id", b"m");
    for _ in 0..2 {
        let (reply, _) = delete_handler(&mut list, NOW, "id");
        assert_eq!(reply.status, 200);
        assert_eq!(text(&ack_handler(&list, NOW, "id")), "true");
        assert!(waits(get_handler(&mut list, &Config::default(), NOW, "id", 1)));
        assert_eq!(list.len(), 1);
    }
}
