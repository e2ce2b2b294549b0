use http_relay::repository::Repository;
use http_relay::storage_memory::{EntryRepository, DEFAULT_MAX_ENTRIES};
use http_relay::unix_timestamp_millis;

fn create_test_repository() -> EntryRepository {
    EntryRepository::new(None, 100).expect("Failed to create test repository")
}

#[test]
fn storage_memory_test_insert_and_get() {
    let mut repository = create_test_repository();
    let expires_at: i64 = unix_timestamp_millis() + 3_600_000;

    repository
        .insert("test-id", b"test body", Some("text/plain"), expires_at)
        .expect("Failed to insert");

    let entry = repository.get("test-id").expect("Failed to get").unwrap();
    assert_eq!(entry.message_body, Some(b"test body".to_vec()));
    assert_eq!(entry.content_type, Some("text/plain".to_string()));
    assert!(!entry.acked);
    assert_eq!(entry.expires_at, expires_at);
}

#[test]
fn storage_memory_test_get_nonexistent() {
    let repository = create_test_repository();
    let entry = repository.get("nonexistent").expect("Failed to get");
    assert!(entry.is_none());
}

#[test]
fn storage_memory_test_ack() {
    let mut repository = create_test_repository();
    let expires_at: i64 = unix_timestamp_millis() + 3_600_000;

    repository
        .insert("test-id", b"test body", Some("text/plain"), expires_at)
        .expect("Failed to insert");

    let was_acked = repository.ack("test-id").expect("Failed to ack");
    assert!(was_acked);

    let entry = repository.get("test-id").expect("Failed to get").unwrap();
    assert!(entry.acked);
    assert!(entry.message_body.is_none());
}

#[test]
fn storage_memory_test_lru_eviction() {
    let mut repository = EntryRepository::new(None, 3).expect("Failed to create repository");
    let expires_at: i64 = unix_timestamp_millis() + 3_600_000;

    repository.insert("id1", b"body1", None, expires_at).unwrap();
    repository.insert("id2", b"body2", None, expires_at).unwrap();
    repository.insert("id3", b"body3", None, expires_at).unwrap();

    assert_eq!(repository.count().unwrap(), 3);

    // Insert fourth entry, should evict oldest
    repository.insert("id4", b"body4", None, expires_at).unwrap();

    assert_eq!(repository.count().unwrap(), 3);
    assert!(repository.get("id4").unwrap().is_some());
}

#[test]
fn storage_memory_test_cleanup_expired() {
    let mut repository = create_test_repository();
    let past: i64 = unix_timestamp_millis() - 3_600_000;
    let future: i64 = unix_timestamp_millis() + 3_600_000;

    repository
        .insert("expired", b"old", None, past)
        .expect("Failed to insert");
    repository
        .insert("valid", b"new", None, future)
        .expect("Failed to insert");

    let deleted_count = repository.cleanup_expired().expect("Failed to cleanup");
    assert_eq!(deleted_count, 1);

    assert!(repository.get("expired").expect("Failed to get").is_none());
    assert!(repository.get("valid").expect("Failed to get").is_some());
}

#[test]
fn the_entry_written_first_gives_way() {
    let mut repository = EntryRepository::new(None, 2).unwrap();
    repository.insert_at("young", b"y", None, 1_000, 7).unwrap();
    repository.insert_at("old", b"o", None, 1_000, 3).unwrap();
    repository.insert_at("new", b"n", None, 1_000, 9).unwrap();
    assert!(repository.get("old").unwrap().is_none());
    assert!(repository.get("young").unwrap().is_some());
    assert!(repository.get("new").unwrap().is_some());
}

#[test]
fn updating_at_capacity_evicts_nothing() {
    let mut repository = EntryRepository::new(None, 2).unwrap();
    repository.insert_at("A", b"a", None, 1_000, 1).unwrap();
    repository.insert_at("B", b"b", None, 1_000, 2).unwrap();
    repository.insert_at("B", b"b2", None, 2_000, 3).unwrap();
    assert!(repository.get("A").unwrap().is_some());
    let entry = repository.get("B").unwrap().unwrap();
    assert_eq!(entry.message_body, Some(b"b2".to_vec()));
    assert_eq!(entry.expires_at, 2_000);
    assert_eq!(repository.count(), Ok(2));
}

#[test]
fn deleting_tells_whether_there_was_anything() {
    let mut repository = create_test_repository();
    repository.insert_at("A", b"a", None, 1_000, 1).unwrap();
    assert_eq!(repository.delete("A"), Ok(true));
    assert_eq!(repository.delete("A"), Ok(false));
    assert_eq!(repository.ack("A"), Ok(false));
    assert_eq!(repository.count(), Ok(0));
}

#[test]
fn memory_cleanup_keeps_what_expires_at_that_very_time() {
    let mut repository = create_test_repository();
    repository.insert_at("a", b"x", None, 99, 1).unwrap();
    repository.insert_at("b", b"x", None, 100, 2).unwrap();
    repository.insert_at("c", b"x", None, 98, 3).unwrap();
    repository.insert_at("d", b"x", None, 101, 4).unwrap();
    assert_eq!(repository.cleanup_expired_at(100), Ok(2));
    assert!(repository.get("a").unwrap().is_none());
    assert!(repository.get("b").unwrap().is_some());
    assert!(repository.get("c").unwrap().is_none());
    assert!(repository.get("d").unwrap().is_some());
    assert_eq!(repository.count(), Ok(2));
}

#[test]
fn memory_limit_of_zero_still_takes_one_entry() {
    let mut repository = EntryRepository::new(None, 0).unwrap();
    repository.insert_at("A", b"a", None, 1_000, 1).unwrap();
    repository.insert_at("B", b"b", None, 1_000, 2).unwrap();
    assert_eq!(repository.count(), Ok(1));
    assert!(repository.get("B").unwrap().is_some());
    assert_eq!(DEFAULT_MAX_ENTRIES, 10_000);
}
