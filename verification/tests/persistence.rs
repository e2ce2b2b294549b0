use http_relay::persistence::{
    change_answer, count_answer, entry_answer, eviction_needed, EntryRepository,
    DEFAULT_MAX_ENTRIES,
};
use http_relay::repository::{Repository, StorageError};
use http_relay::unix_timestamp_millis;
use std::path::PathBuf;

fn create_test_repository() -> EntryRepository {
    EntryRepository::new(None, 100).expect("Failed to create test repository")
}

#[test]
fn persistence_test_insert_and_get() {
    let mut repository = create_test_repository();
    let expires_at: i64 = unix_timestamp_millis() + 3_600_000;

    repository
        .insert("test-id", b"test body", Some("text/plain"), expires_at)
        .expect("Failed to insert");

    let entry = repository.get("test-id").expect("Failed to get").unwrap();
    assert_eq!(entry.message_body, Some(b"test body".to_vec()));
    assert_eq!(entry.content_type, Some("text/plain".to_string()));
    assert!(!entry.acked);
    assert_eq!(entry.expires_at, expires_at);
}

#[test]
fn persistence_test_get_nonexistent() {
    let repository = create_test_repository();

    let entry = repository.get("nonexistent").expect("Failed to get");
    assert!(entry.is_none());
}

#[test]
fn persistence_test_ack() {
    let mut repository = create_test_repository();
    let expires_at: i64 = unix_timestamp_millis() + 3_600_000;

    repository
        .insert("test-id", b"test body", Some("text/plain"), expires_at)
        .expect("Failed to insert");

    let was_acked = repository.ack("test-id").expect("Failed to ack");
    assert!(was_acked);

    let entry = repository.get("test-id").expect("Failed to get").unwrap();
    assert!(entry.acked);
    assert!(entry.message_body.is_none());
}

#[test]
fn test_ack_nonexistent() {
    let mut repository = create_test_repository();

    let was_acked = repository.ack("nonexistent").expect("Failed to ack");
    assert!(!was_acked);
}

#[test]
fn test_delete() {
    let mut repository = create_test_repository();
    let expires_at: i64 = unix_timestamp_millis() + 3_600_000;

    repository
        .insert("test-id", b"test body", None, expires_at)
        .expect("Failed to insert");

    let was_deleted = repository.delete("test-id").expect("Failed to delete");
    assert!(was_deleted);

    let entry = repository.get("test-id").expect("Failed to get");
    assert!(entry.is_none());
}

#[test]
fn test_delete_nonexistent() {
    let mut repository = create_test_repository();

    let was_deleted = repository.delete("nonexistent").expect("Failed to delete");
    assert!(!was_deleted);
}

#[test]
fn persistence_test_cleanup_expired() {
    let mut repository = create_test_repository();
    let past: i64 = unix_timestamp_millis() - 3_600_000;
    let future: i64 = unix_timestamp_millis() + 3_600_000;

    repository
        .insert("expired", b"old", None, past)
        .expect("Failed to insert");
    repository
        .insert("valid", b"new", None, future)
        .expect("Failed to insert");

    let deleted_count = repository.cleanup_expired().expect("Failed to cleanup");
    assert_eq!(deleted_count, 1);

    assert!(repository.get("expired").expect("Failed to get").is_none());
    assert!(repository.get("valid").expect("Failed to get").is_some());
}

#[test]
fn test_count() {
    let mut repository = create_test_repository();
    let expires_at: i64 = unix_timestamp_millis() + 3_600_000;

    assert_eq!(repository.count().expect("Failed to count"), 0);

    repository
        .insert("id1", b"body1", None, expires_at)
        .expect("Failed to insert");
    assert_eq!(repository.count().expect("Failed to count"), 1);

    repository
        .insert("id2", b"body2", None, expires_at)
        .expect("Failed to insert");
    assert_eq!(repository.count().expect("Failed to count"), 2);
}

#[test]
fn persistence_test_lru_eviction() {
    let mut repository = EntryRepository::new(None, 3).expect("Failed to create repository");
    let expires_at: i64 = unix_timestamp_millis() + 3_600_000;

    repository.insert("id1", b"body1", None, expires_at).unwrap();
    repository.insert("id2", b"body2", None, expires_at).unwrap();
    repository.insert("id3", b"body3", None, expires_at).unwrap();

    assert_eq!(repository.count().unwrap(), 3);

    // Insert fourth entry, should evict id1 (oldest)
    repository.insert("id4", b"body4", None, expires_at).unwrap();

    assert_eq!(repository.count().unwrap(), 3);
    assert!(repository.get("id1").unwrap().is_none());
    assert!(repository.get("id2").unwrap().is_some());
    assert!(repository.get("id3").unwrap().is_some());
    assert!(repository.get("id4").unwrap().is_some());
}

#[test]
fn test_insert_or_replace() {
    let mut repository = create_test_repository();
    let expires_at: i64 = unix_timestamp_millis() + 3_600_000;

    repository
        .insert("test-id", b"original", Some("text/plain"), expires_at)
        .expect("Failed to insert");

    repository
        .insert("test-id", b"replaced", Some("application/json"), expires_at)
        .expect("Failed to replace");

    let entry = repository.get("test-id").expect("Failed to get").unwrap();
    assert_eq!(entry.message_body, Some(b"replaced".to_vec()));
    assert_eq!(entry.content_type, Some("application/json".to_string()));
    assert_eq!(repository.count().unwrap(), 1);
}

#[test]
fn test_lru_eviction_does_not_evict_updated_entry() {
    // Updating the oldest entry at capacity should NOT evict it
    let mut repository = EntryRepository::new(None, 3).expect("Failed to create repository");
    let start: i64 = unix_timestamp_millis();
    let expires_at: i64 = start + 3_600_000;

    // Fill repository to capacity: A is oldest, then B, then C
    repository.insert_at("A", b"original-A", None, expires_at, start).unwrap();
    repository.insert_at("B", b"body-B", None, expires_at, start + 1).unwrap();
    repository.insert_at("C", b"body-C", None, expires_at, start + 2).unwrap();

    assert_eq!(repository.count().unwrap(), 3);

    // Update entry A (the oldest) with new data - should NOT evict A
    repository.insert_at("A", b"updated-A", None, expires_at, start + 3).unwrap();

    // All three entries should still exist
    assert_eq!(repository.count().unwrap(), 3);

    let entry_a = repository
        .get("A")
        .expect("Failed to get A")
        .expect("A should exist");
    assert_eq!(entry_a.message_body, Some(b"updated-A".to_vec()));

    assert!(repository.get("B").unwrap().is_some(), "B should still exist");
    assert!(repository.get("C").unwrap().is_some(), "C should still exist");
}

#[test]
fn replacing_any_entry_at_capacity_evicts_nothing() {
    let mut repository = EntryRepository::new(None, 2).unwrap();
    repository.insert_at("A", b"a", None, 1_000, 1).unwrap();
    repository.insert_at("B", b"b", None, 1_000, 2).unwrap();
    repository.insert_at("B", b"b2", Some("text/plain"), 2_000, 3).unwrap();
    assert_eq!(repository.get("A").unwrap().unwrap().message_body, Some(b"a".to_vec()));
    let entry = repository.get("B").unwrap().unwrap();
    assert_eq!(entry.message_body, Some(b"b2".to_vec()));
    assert_eq!(entry.content_type, Some("text/plain".to_string()));
    assert_eq!(entry.expires_at, 2_000);
    assert_eq!(repository.count(), Ok(2));
}

#[test]
fn a_new_entry_at_capacity_takes_the_place_of_the_oldest() {
    let mut repository = EntryRepository::new(None, 2).unwrap();
    repository.insert_at("young", b"y", None, 1_000, 7).unwrap();
    repository.insert_at("old", b"o", None, 1_000, 3).unwrap();
    repository.insert_at("new", b"n", None, 1_000, 9).unwrap();
    assert!(repository.get("old").unwrap().is_none());
    assert!(repository.get("young").unwrap().is_some());
    assert!(repository.get("new").unwrap().is_some());
    assert_eq!(repository.count(), Ok(2));
}

#[test]
fn a_history_of_calls() {
    let mut repository = create_test_repository();
    repository.insert_at("a", b"one", None, 100, 1).unwrap();
    repository.insert_at("b", b"other", None, 500, 2).unwrap();
    assert_eq!(repository.ack("a"), Ok(true));
    repository.insert_at("a", b"two", Some("t"), 300, 3).unwrap();
    assert_eq!(repository.cleanup_expired_at(200), Ok(0));
    let entry = repository.get("a").unwrap().unwrap();
    assert_eq!((entry.message_body, entry.acked), (Some(b"two".to_vec()), false));
    assert_eq!(repository.ack("a"), Ok(true));
    let entry = repository.get("a").unwrap().unwrap();
    assert_eq!((entry.message_body, entry.acked), (None, true));
    assert_eq!(entry.content_type, Some("t".to_string()));
    assert_eq!(repository.cleanup_expired_at(301), Ok(1));
    assert!(repository.get("a").unwrap().is_none());
    assert_eq!(repository.delete("b"), Ok(true));
    assert_eq!(repository.delete("b"), Ok(false));
    assert_eq!(repository.count(), Ok(0));
}

#[test]
fn replacing_resets_the_acknowledgement() {
    let mut repository = create_test_repository();
    repository.insert_at("id", b"one", Some("text/plain"), 1_000, 1).unwrap();
    assert!(repository.ack("id").unwrap());
    repository.insert_at("id", b"two", None, 2_000, 2).unwrap();
    let entry = repository.get("id").unwrap().unwrap();
    assert!(!entry.acked);
    assert_eq!(entry.message_body, Some(b"two".to_vec()));
    assert_eq!(entry.content_type, None);
    assert_eq!(entry.expires_at, 2_000);
}

#[test]
fn acknowledging_keeps_content_type_and_expiry() {
    let mut repository = create_test_repository();
    repository.insert_at("id", b"one", Some("text/plain"), 1_000, 1).unwrap();
    assert!(repository.ack("id").unwrap());
    assert!(repository.ack("id").unwrap());
    let entry = repository.get("id").unwrap().unwrap();
    assert_eq!(entry.content_type, Some("text/plain".to_string()));
    assert_eq!(entry.expires_at, 1_000);
}

#[test]
fn cleanup_keeps_what_expires_at_that_very_time() {
    let mut repository = create_test_repository();
    repository.insert_at("before", b"x", None, 99, 1).unwrap();
    repository.insert_at("at", b"x", None, 100, 2).unwrap();
    repository.insert_at("after", b"x", None, 101, 3).unwrap();
    assert_eq!(repository.cleanup_expired_at(100), Ok(1));
    assert!(repository.get("before").unwrap().is_none());
    assert!(repository.get("at").unwrap().is_some());
    assert!(repository.get("after").unwrap().is_some());
    assert_eq!(repository.cleanup_expired_at(100), Ok(0));
}

#[test]
fn odd_ids_and_bodies_are_kept_as_they_are() {
    let mut repository = create_test_repository();
    repository.insert_at("", b"", Some(""), 10, 1).unwrap();
    repository.insert_at("nul\0inside", &[0, 255, 0], None, 20, 2).unwrap();
    repository.insert_at("nul", b"shorter", None, 30, 3).unwrap();
    repository.insert_at("\u{1F600} ' \"", b"quoted", None, i64::MAX, 4).unwrap();

    let empty = repository.get("").unwrap().unwrap();
    assert_eq!(empty.message_body, Some(Vec::new()));
    assert_eq!(empty.content_type, Some(String::new()));
    let nul = repository.get("nul\0inside").unwrap().unwrap();
    assert_eq!(nul.message_body, Some(vec![0, 255, 0]));
    assert_eq!(nul.expires_at, 20);
    assert_eq!(repository.get("nul").unwrap().unwrap().message_body, Some(b"shorter".to_vec()));
    let quoted = repository.get("\u{1F600} ' \"").unwrap().unwrap();
    assert_eq!(quoted.expires_at, i64::MAX);
    assert_eq!(repository.count(), Ok(4));
}

#[test]
fn a_limit_of_zero_still_takes_one_entry() {
    let mut repository = EntryRepository::new(None, 0).unwrap();
    repository.insert_at("A", b"a", None, 1_000, 1).unwrap();
    assert_eq!(repository.count(), Ok(1));
    repository.insert_at("B", b"b", None, 1_000, 2).unwrap();
    assert_eq!(repository.count(), Ok(1));
    assert!(repository.get("B").unwrap().is_some());
}

#[test]
fn two_memory_databases_share_nothing() {
    let mut one = create_test_repository();
    let two = create_test_repository();
    one.insert_at("id", b"x", None, 1_000, 1).unwrap();
    assert!(two.get("id").unwrap().is_none());
}

#[test]
fn a_named_database_outlives_a_repository() {
    let path = PathBuf::from("file:relay_persistence_test?mode=memory&cache=shared");
    let mut first = EntryRepository::new(Some(&path), 10).unwrap();
    first.insert_at("id", b"kept", None, 1_000, 1).unwrap();
    let second = EntryRepository::new(Some(&path), 10).unwrap();
    assert_eq!(second.get("id").unwrap().unwrap().message_body, Some(b"kept".to_vec()));
}

#[test]
fn a_file_that_cannot_be_opened_is_reported() {
    let path = PathBuf::from("/nonexistent-directory/relay.db");
    let error = EntryRepository::new(Some(&path), 10).err().unwrap();
    assert_eq!(error, StorageError::OpenFile);
    assert_eq!(error.message(), "Failed to open SQLite database file");
}

#[test]
fn the_eviction_rule() {
    assert!(!eviction_needed(2, 3, false));
    assert!(eviction_needed(3, 3, false));
    assert!(eviction_needed(4, 3, false));
    assert!(!eviction_needed(3, 3, true));
    assert!(!eviction_needed(0, 0, false));
    assert!(eviction_needed(1, 0, false));
}

#[test]
fn answers_of_the_database() {
    let row = (Some(b"x".to_vec()), Some("t".to_string()), 1, 5);
    let entry = entry_answer(Ok(Some(row))).unwrap().unwrap();
    assert_eq!(entry.message_body, Some(b"x".to_vec()));
    assert!(entry.acked);
    assert!(!entry_answer(Ok(Some((None, None, 0, 5)))).unwrap().unwrap().acked);
    assert!(entry_answer(Ok(None)).unwrap().is_none());
    assert_eq!(
        entry_answer(Err(rusqlite::Error::InvalidQuery)).err(),
        Some(StorageError::Get)
    );
    assert_eq!(change_answer(Ok(0), StorageError::Delete), Ok(false));
    assert_eq!(change_answer(Ok(1), StorageError::Delete), Ok(true));
    assert_eq!(
        change_answer(Err(rusqlite::Error::InvalidQuery), StorageError::Acknowledge),
        Err(StorageError::Acknowledge)
    );
    assert_eq!(count_answer(Ok(7)), Ok(7));
    assert_eq!(count_answer(Ok(-1)), Err(StorageError::Count));
    assert_eq!(
        count_answer(Err(rusqlite::Error::InvalidQuery)),
        Err(StorageError::Count)
    );
}

#[test]
fn errors_say_what_failed() {
    assert_eq!(DEFAULT_MAX_ENTRIES, 10_000);
    assert_eq!(
        StorageError::OpenInMemory.message(),
        "Failed to open in-memory SQLite database"
    );
    assert_eq!(StorageError::EnableWal.message(), "Failed to enable WAL mode");
    assert_eq!(StorageError::CreateSchema.message(), "Failed to create database schema");
    assert_eq!(StorageError::Count.message(), "Failed to count entries");
    assert_eq!(
        StorageError::Evict.message(),
        "Failed to delete oldest entry for LRU eviction"
    );
    assert_eq!(StorageError::Insert.message(), "Failed to insert entry");
    assert_eq!(StorageError::Get.message(), "Failed to get entry");
    assert_eq!(StorageError::Acknowledge.message(), "Failed to acknowledge entry");
    assert_eq!(StorageError::Delete.message(), "Failed to delete entry");
    assert_eq!(StorageError::Cleanup.message(), "Failed to cleanup expired entries");
}

#[test]
fn an_insertion_deletes_the_entry_it_is_told_to() {
    let mut repository = EntryRepository::new(None, 2).unwrap();
    repository.insert_evicting(None, "A", b"a", None, 1_000, 1).unwrap();
    repository.insert_evicting(None, "B", b"b", None, 1_000, 2).unwrap();
    repository.insert_evicting(None, "C", b"c", None, 1_000, 3).unwrap();
    assert_eq!(repository.count(), Ok(3));
    repository.insert_evicting(Some("B".to_string()), "D", b"d", None, 1_000, 4).unwrap();
    assert!(repository.get("B").unwrap().is_none());
    assert!(repository.get("A").unwrap().is_some());
    assert_eq!(repository.count(), Ok(3));
}
