use bytes::Bytes;
use http_relay::repository::{Repository, StorageError};
use http_relay::storage_memory;
use http_relay::waiters::MAX_WAITERS_PER_ENTRY;
use http_relay::waiting_list::{entry_message, live_entry, AckSubscription};
use http_relay::{
    EntryRepository, GetOrSubscribeResult, Message, StoredEntry, SubscribeError, WaitingList,
};
use std::time::Duration;

const NOW: i64 = 1_700_000_000_000;

fn make_message(body: &str) -> Message {
    Message {
        body: Bytes::from(body.to_string()),
        content_type: Some("text/plain".to_string()),
    }
}

fn create_test_list() -> WaitingList {
    WaitingList::new_in_memory(100).expect("Failed to create in-memory repository")
}

fn create_memory_list() -> WaitingList<storage_memory::EntryRepository> {
    WaitingList::new(storage_memory::EntryRepository::new(None, 100).unwrap())
}

fn expect_waiting(result: Result<GetOrSubscribeResult, SubscribeError>) -> u64 {
    match result.expect("should succeed") {
        GetOrSubscribeResult::Waiting(handle) => handle,
        GetOrSubscribeResult::Message(_) => panic!("expected waiting"),
    }
}

fn expect_message(result: Result<GetOrSubscribeResult, SubscribeError>) -> Message {
    match result.expect("should succeed") {
        GetOrSubscribeResult::Message(message) => message,
        GetOrSubscribeResult::Waiting(_) => panic!("should return message, not waiting"),
    }
}

// ========== cleanup_expired tests ==========

#[test]
fn cleanup_expired_removes_expired_entries() {
    let mut list = create_test_list();
    let short_ttl = Duration::from_millis(10);
    let long_ttl = Duration::from_secs(60);

    list.store_at(NOW, "expires-soon".to_string(), make_message("a"), short_ttl)
        .persisted
        .unwrap();
    list.store_at(NOW, "stays-alive".to_string(), make_message("b"), long_ttl)
        .persisted
        .unwrap();

    assert_eq!(list.len(), 2);

    let outcome = list.cleanup_expired_at(NOW + 20, &Vec::new());

    assert_eq!(outcome.removed, 1);
    assert_eq!(list.len(), 1);
}

#[test]
fn cleanup_expired_returns_zero_when_nothing_expired() {
    let mut list = create_test_list();
    let ttl = Duration::from_secs(60);

    list.store("a".to_string(), make_message("a"), ttl).persisted.unwrap();
    list.store("b".to_string(), make_message("b"), ttl).persisted.unwrap();

    let outcome = list.cleanup_expired(&Vec::new());

    assert_eq!(outcome.removed, 0);
    assert_eq!(list.len(), 2);
}

// ========== Message overwrite tests ==========

#[test]
fn store_notifies_message_waiters_on_overwrite() {
    let mut list = create_test_list();
    let ttl = Duration::from_secs(60);

    // Subscribe for message
    let handle: u64 = expect_waiting(list.get_or_subscribe("id1", 7));

    // Store message - should notify the waiter
    let outcome = list.store("id1".to_string(), make_message("overwrite"), ttl);
    outcome.persisted.unwrap();

    assert_eq!(outcome.notified, vec![handle]);
    assert_eq!(outcome.message.body, Bytes::from("overwrite"));
}

#[test]
fn store_drops_ack_waiters_on_overwrite() {
    let mut list = create_test_list();
    let ttl = Duration::from_secs(60);

    list.store("id1".to_string(), make_message("first"), ttl).persisted.unwrap();
    let subscription = list.subscribe_ack("id1", 7).expect("should subscribe");
    assert_eq!(subscription, AckSubscription::Waiting(7));

    // Overwrite the entry
    let outcome = list.store("id1".to_string(), make_message("second"), ttl);
    outcome.persisted.unwrap();

    assert_eq!(outcome.dropped, vec![7], "old ack waiter should be dropped");
    assert!(outcome.notified.is_empty());
}

// ========== Waiter limit tests ==========

#[test]
fn subscribe_ack_returns_limit_error() {
    let mut list = create_test_list();
    let ttl = Duration::from_secs(60);

    list.store("id1".to_string(), make_message("test"), ttl).persisted.unwrap();

    for handle in 0..MAX_WAITERS_PER_ENTRY {
        let result = list.subscribe_ack("id1", handle as u64);
        assert!(result.is_ok());
    }

    let result = list.subscribe_ack("id1", 99);
    assert!(
        matches!(result, Err(SubscribeError::WaiterLimitReached)),
        "expected WaiterLimitReached error"
    );
}

#[test]
fn get_or_subscribe_returns_limit_error() {
    let mut list = create_test_list();

    // Subscribe multiple times (no message stored yet)
    for handle in 0..MAX_WAITERS_PER_ENTRY {
        let result = list.get_or_subscribe("id1", handle as u64);
        assert!(result.is_ok());
    }

    let result = list.get_or_subscribe("id1", 99);
    assert!(
        matches!(result, Err(SubscribeError::WaiterLimitReached)),
        "expected WaiterLimitReached error"
    );
}

// ========== State transition tests ==========

#[test]
fn is_acked_false_before_ack() {
    let mut list = create_test_list();
    let ttl = Duration::from_secs(60);

    list.store("id1".to_string(), make_message("test"), ttl).persisted.unwrap();

    assert_eq!(list.is_acked("id1"), Some(false));
}

#[test]
fn is_acked_true_after_ack() {
    let mut list = create_test_list();
    let ttl = Duration::from_secs(60);

    list.store("id1".to_string(), make_message("test"), ttl).persisted.unwrap();
    let ack_result = list.ack("id1");

    assert!(ack_result.acked, "ack should succeed");
    assert_eq!(list.is_acked("id1"), Some(true));
}

#[test]
fn ack_notifies_waiters() {
    let mut list = create_test_list();
    let ttl = Duration::from_secs(60);

    list.store("id1".to_string(), make_message("test"), ttl).persisted.unwrap();
    list.subscribe_ack("id1", 7).expect("should subscribe");

    let outcome = list.ack("id1");

    assert_eq!(outcome.notified, vec![7], "ack waiter should receive notification");
}

#[test]
fn ack_fails_for_expired_entry() {
    let mut list = create_test_list();
    let short_ttl = Duration::from_millis(10);

    list.store_at(NOW, "id1".to_string(), make_message("test"), short_ttl)
        .persisted
        .unwrap();

    assert!(!list.ack_at(NOW + 20, "id1").acked, "ack should fail for expired entry");
    assert_eq!(
        list.is_acked_at(NOW + 20, "id1"),
        None,
        "is_acked should be None for expired"
    );
}

#[test]
fn ack_fails_for_nonexistent_entry() {
    let mut list = create_test_list();

    assert!(!list.ack("nonexistent").acked);
    assert_eq!(list.is_acked("nonexistent"), None);
}

// ========== get_or_subscribe atomicity tests ==========

#[test]
fn get_or_subscribe_returns_existing_message() {
    let mut list = create_test_list();
    let ttl = Duration::from_secs(60);

    list.store("id1".to_string(), make_message("existing"), ttl).persisted.unwrap();

    let message = expect_message(list.get_or_subscribe("id1", 1));
    assert_eq!(message.body, Bytes::from("existing"));
}

#[test]
fn get_or_subscribe_returns_receiver_when_no_entry() {
    let mut list = create_test_list();

    let handle: u64 = expect_waiting(list.get_or_subscribe("id1", 5));
    assert_eq!(handle, 5);
    // Waiter registered
    assert!(list.has_waiters("id1"));
}

#[test]
fn get_or_subscribe_receiver_gets_message_when_stored() {
    let mut list = create_test_list();
    let ttl = Duration::from_secs(60);

    let handle: u64 = expect_waiting(list.get_or_subscribe("id1", 5));

    let outcome = list.store("id1".to_string(), make_message("arrived"), ttl);
    outcome.persisted.unwrap();

    assert!(outcome.notified.contains(&handle));
    assert_eq!(outcome.message.body, Bytes::from("arrived"));
}

#[test]
fn get_or_subscribe_ignores_expired_message() {
    let mut list = create_test_list();
    let short_ttl = Duration::from_millis(10);

    list.store_at(NOW, "id1".to_string(), make_message("expired"), short_ttl)
        .persisted
        .unwrap();

    expect_waiting(list.get_or_subscribe_at(NOW + 20, "id1", 1));
}

// ========== Cleanup behavior tests ==========

#[test]
fn cleanup_does_not_remove_waiters_without_entry() {
    // Consumer arrives before producer, cleanup must not evict waiter
    let mut list = create_test_list();
    let ttl = Duration::from_secs(60);

    // Consumer subscribes - no entry in DB yet
    let handle: u64 = expect_waiting(list.get_or_subscribe("consumer-first", 3));

    // Cleanup runs - must NOT remove the waiter
    let outcome = list.cleanup_expired(&Vec::new());
    assert!(outcome.dropped.is_empty());

    // Producer sends message - waiter should still receive it
    let outcome = list.store("consumer-first".to_string(), make_message("delayed"), ttl);
    outcome.persisted.unwrap();

    assert!(
        outcome.notified.contains(&handle),
        "waiter should not have been removed by cleanup"
    );
    assert_eq!(outcome.message.body, Bytes::from("delayed"));
}

#[test]
fn cleanup_removes_waiters_for_expired_entries() {
    let mut list = create_test_list();
    let short_ttl = Duration::from_millis(10);

    // Store message, subscribe for ack
    list.store_at(NOW, "will-expire".to_string(), make_message("test"), short_ttl)
        .persisted
        .unwrap();
    list.subscribe_ack_at(NOW, "will-expire", 4).expect("should subscribe");

    // Cleanup should remove the expired entry AND its waiters
    let outcome = list.cleanup_expired_at(NOW + 20, &Vec::new());

    assert_eq!(outcome.dropped, vec![4], "waiter should be removed for expired entry");
    assert!(!list.has_waiters("will-expire"));
}

#[test]
fn cleanup_removes_closed_senders() {
    let mut list = create_test_list();

    // Subscribe, then the request goes away (simulates timeout)
    let handle: u64 = expect_waiting(list.get_or_subscribe("dropped-receiver", 6));

    assert!(list.has_waiters("dropped-receiver"));

    // Cleanup should remove closed requests
    let outcome = list.cleanup_expired(&vec![handle]);
    assert_eq!(outcome.dropped, vec![handle]);

    // Waiter entry should be removed (nobody waits any longer)
    assert!(!list.has_waiters("dropped-receiver"));
}

// ========== What holds across operations ==========

#[test]
fn a_message_is_read_until_it_expires() {
    let mut list = create_memory_list();
    let outcome =
        list.store_at(NOW, "id".to_string(), make_message("m"), Duration::from_millis(10));
    assert_eq!(outcome.persisted, Ok(()));
    let read = expect_message(list.get_or_subscribe_at(NOW + 9, "id", 1));
    assert_eq!(read.body, Bytes::from("m"));
    assert_eq!(read.content_type, Some("text/plain".to_string()));
    expect_waiting(list.get_or_subscribe_at(NOW + 10, "id", 1));
}

#[test]
fn reading_takes_nothing_away() {
    let mut list = create_memory_list();
    list.store_at(NOW, "id".to_string(), make_message("m"), Duration::from_secs(1))
        .persisted
        .unwrap();
    list.subscribe_ack_at(NOW, "id", 8).unwrap();
    for reader in 0..20 {
        let read = expect_message(list.get_or_subscribe_at(NOW, "id", reader));
        assert_eq!(read.body, Bytes::from("m"));
    }
    assert_eq!(list.is_acked_at(NOW, "id"), Some(false));
    assert_eq!(list.ack_at(NOW, "id").notified, vec![8]);
}

#[test]
fn acknowledging_twice_notifies_once() {
    let mut list = create_memory_list();
    list.store_at(NOW, "id".to_string(), make_message("m"), Duration::from_secs(1))
        .persisted
        .unwrap();
    list.subscribe_ack_at(NOW, "id", 1).unwrap();
    list.subscribe_ack_at(NOW, "id", 2).unwrap();
    let first = list.ack_at(NOW, "id");
    assert!(first.acked);
    assert_eq!(first.notified, vec![1, 2]);
    let second = list.ack_at(NOW, "id");
    assert!(second.acked);
    assert!(second.notified.is_empty());
    assert_eq!(list.subscribe_ack_at(NOW, "id", 3), Ok(AckSubscription::AlreadyAcked));
}

#[test]
fn an_acknowledged_message_is_gone_until_the_next_is_stored() {
    let mut list = create_memory_list();
    list.store_at(NOW, "id".to_string(), make_message("one"), Duration::from_secs(1))
        .persisted
        .unwrap();
    assert!(list.ack_at(NOW, "id").acked);
    assert_eq!(list.is_acked_at(NOW, "id"), Some(true));
    expect_waiting(list.get_or_subscribe_at(NOW, "id", 1));
    let outcome =
        list.store_at(NOW, "id".to_string(), make_message("two"), Duration::from_secs(1));
    assert_eq!(outcome.notified, vec![1]);
    assert_eq!(list.is_acked_at(NOW, "id"), Some(false));
    let read = expect_message(list.get_or_subscribe_at(NOW, "id", 2));
    assert_eq!(read.body, Bytes::from("two"));
}

#[test]
fn an_acknowledgement_wakes_no_reader() {
    let mut list = create_memory_list();
    list.store_at(NOW, "id".to_string(), make_message("m"), Duration::from_secs(1))
        .persisted
        .unwrap();
    assert!(list.ack_at(NOW, "id").acked);
    expect_waiting(list.get_or_subscribe_at(NOW, "id", 1));
    assert!(list.ack_at(NOW, "id").notified.is_empty());
    assert!(list.has_waiters("id"));
}

#[test]
fn ids_do_not_disturb_each_other() {
    let mut list = create_memory_list();
    expect_waiting(list.get_or_subscribe_at(NOW, "a", 1));
    expect_waiting(list.get_or_subscribe_at(NOW, "b", 2));
    let outcome = list.store_at(NOW, "a".to_string(), make_message("m"), Duration::from_secs(1));
    assert_eq!(outcome.notified, vec![1]);
    assert!(list.has_waiters("b"));
    assert_eq!(list.is_acked_at(NOW, "b"), None);
}

#[test]
fn subscribing_to_nothing_is_refused() {
    let mut list = create_memory_list();
    assert_eq!(list.subscribe_ack_at(NOW, "id", 1), Err(SubscribeError::NotFound));
    list.store_at(NOW, "id".to_string(), make_message("m"), Duration::from_millis(5))
        .persisted
        .unwrap();
    assert_eq!(list.subscribe_ack_at(NOW + 5, "id", 1), Err(SubscribeError::NotFound));
    assert!(!list.has_waiters("id"));
}

#[test]
fn room_is_made_after_a_cleanup() {
    let mut list = create_memory_list();
    for handle in 0..10 {
        expect_waiting(list.get_or_subscribe_at(NOW, "id", handle));
    }
    assert!(list.get_or_subscribe_at(NOW, "id", 10).is_err());
    let outcome = list.cleanup_expired_at(NOW, &vec![3, 5, 42]);
    assert_eq!(outcome.dropped, vec![3, 5]);
    expect_waiting(list.get_or_subscribe_at(NOW, "id", 10));
    let outcome = list.store_at(NOW, "id".to_string(), make_message("m"), Duration::from_secs(1));
    assert_eq!(outcome.notified, vec![0, 1, 2, 4, 6, 7, 8, 9, 10]);
}

#[test]
fn a_second_cleanup_finds_nothing() {
    let mut list = create_memory_list();
    list.store_at(NOW, "a".to_string(), make_message("m"), Duration::from_millis(5))
        .persisted
        .unwrap();
    list.store_at(NOW, "b".to_string(), make_message("m"), Duration::from_millis(50))
        .persisted
        .unwrap();
    assert_eq!(list.cleanup_expired_at(NOW + 6, &Vec::new()).removed, 1);
    assert_eq!(list.cleanup_expired_at(NOW + 6, &Vec::new()).removed, 0);
    assert_eq!(list.is_acked_at(NOW + 6, "b"), Some(false));
    assert_eq!(list.len(), 1);
    assert!(!list.is_empty());
}

#[test]
fn a_waiter_of_an_entry_at_its_expiry_goes_while_the_entry_stays() {
    let mut list = create_memory_list();
    list.store_at(NOW, "id".to_string(), make_message("m"), Duration::from_millis(5))
        .persisted
        .unwrap();
    list.subscribe_ack_at(NOW, "id", 1).unwrap();
    let outcome = list.cleanup_expired_at(NOW + 5, &Vec::new());
    assert_eq!(outcome.removed, 0);
    assert_eq!(outcome.dropped, vec![1]);
    assert_eq!(list.len(), 1);
}

#[test]
fn a_full_list_gives_up_its_oldest_entry() {
    let repository = EntryRepository::new(None, 2).unwrap();
    let mut list = WaitingList::new(repository);
    for (k, id) in ["a", "b", "c"].iter().enumerate() {
        let ttl = Duration::from_secs(60);
        list.store_at(NOW + k as i64, id.to_string(), make_message(id), ttl).persisted.unwrap();
    }
    assert_eq!(list.len(), 2);
    assert_eq!(list.is_acked_at(NOW, "a"), None);
    assert_eq!(list.is_acked_at(NOW, "b"), Some(false));
    assert_eq!(list.is_acked_at(NOW, "c"), Some(false));
}

#[test]
fn a_failed_lookup_counts_as_one_that_found_nothing() {
    assert!(live_entry(Err(StorageError::Get), NOW).is_none());
    assert!(live_entry(Ok(None), NOW).is_none());
    let entry = StoredEntry {
        message_body: Some(b"x".to_vec()),
        content_type: None,
        acked: false,
        expires_at: NOW,
    };
    assert!(live_entry(Ok(Some(entry)), NOW).is_none());
    let entry = StoredEntry {
        message_body: Some(b"x".to_vec()),
        content_type: None,
        acked: false,
        expires_at: NOW + 1,
    };
    let message = entry_message(live_entry(Ok(Some(entry)), NOW).unwrap()).unwrap();
    assert_eq!(message.body, Bytes::from("x"));
    let cleared =
        StoredEntry { message_body: None, content_type: None, acked: true, expires_at: 0 };
    assert!(entry_message(cleared).is_none());
}

#[test]
fn empty_bodies_and_missing_content_types_survive_the_database() {
    let mut list = create_test_list();
    let message = Message { body: Bytes::new(), content_type: None };
    list.store_at(NOW, "id".to_string(), message, Duration::from_secs(1)).persisted.unwrap();
    let read = expect_message(list.get_or_subscribe_at(NOW, "id", 1));
    assert!(read.body.is_empty());
    assert!(read.content_type.is_none());
}

#[test]
fn repositories_make_room_alike() {
    let mut memory = storage_memory::EntryRepository::new(None, 2).unwrap();
    let mut sqlite = EntryRepository::new(None, 2).unwrap();
    for (k, id) in ["a", "b", "b", "c", "a", "a"].iter().enumerate() {
        memory.insert_at(id, b"x", None, NOW, k as i64).unwrap();
        sqlite.insert_at(id, b"x", None, NOW, k as i64).unwrap();
        assert_eq!(memory.count(), sqlite.count());
        for other in ["a", "b", "c"] {
            let in_memory = memory.get(other).unwrap().is_some();
            assert_eq!(in_memory, sqlite.get(other).unwrap().is_some());
        }
    }
}

#[test]
fn an_acknowledged_entry_takes_any_number_of_subscribers() {
    let mut list = create_test_list();
    list.store_at(NOW, "id".to_string(), make_message("m"), Duration::from_secs(1))
        .persisted
        .unwrap();
    assert!(list.ack_at(NOW, "id").acked);
    for handle in 0..25 {
        let result = list.subscribe_ack_at(NOW, "id", handle);
        assert_eq!(result, Ok(AckSubscription::AlreadyAcked));
    }
    assert!(!list.has_waiters("id"));
}

#[test]
fn a_message_without_a_lifetime_is_expired_at_once() {
    let mut list = create_test_list();
    list.store_at(NOW, "id".to_string(), make_message("m"), Duration::from_secs(0))
        .persisted
        .unwrap();
    assert_eq!(list.is_acked_at(NOW, "id"), None);
    expect_waiting(list.get_or_subscribe_at(NOW, "id", 1));
}
