//! What the waiting list asks of a repository.
//!
//! Two repositories stand behind this interface: one on SQLite (`persistence`) and one in plain
//! memory (`storage_memory`). They differ in what can go wrong.

use crate::entries::{
    acknowledged, expired, fresh_record, insertion, is_consistent, lookup, unexpired, Entries,
    EntryView, Record, StoredEntry,
};
use std::path::PathBuf;
use vstd::prelude::*;

verus! {

/// Why a repository operation failed.
#[derive(Debug, Clone, Copy, PartialEq, Eq, Structural)]
pub enum StorageError {
    /// The database file could not be opened.
    OpenFile,
    /// No in-memory database could be opened.
    OpenInMemory,
    /// The write-ahead log could not be switched on.
    EnableWal,
    /// The tables could not be created.
    CreateSchema,
    /// The entries could not be counted.
    Count,
    /// The oldest entry could not be deleted to make room.
    Evict,
    /// The entry could not be written.
    Insert,
    /// The entry could not be read.
    Get,
    /// The entry could not be marked as acknowledged.
    Acknowledge,
    /// The entry could not be deleted.
    Delete,
    /// The expired entries could not be deleted.
    Cleanup,
}

impl StorageError {
    /// What the error says.
    pub open spec fn text(self) -> Seq<char> {
        match self {
            StorageError::OpenFile => "Failed to open SQLite database file"@,
            StorageError::OpenInMemory => "Failed to open in-memory SQLite database"@,
            StorageError::EnableWal => "Failed to enable WAL mode"@,
            StorageError::CreateSchema => "Failed to create database schema"@,
            StorageError::Count => "Failed to count entries"@,
            StorageError::Evict => "Failed to delete oldest entry for LRU eviction"@,
            StorageError::Insert => "Failed to insert entry"@,
            StorageError::Get => "Failed to get entry"@,
            StorageError::Acknowledge => "Failed to acknowledge entry"@,
            StorageError::Delete => "Failed to delete entry"@,
            StorageError::Cleanup => "Failed to cleanup expired entries"@,
        }
    }

    /// Describes the error in a sentence for a log.
    pub fn message(&self) -> (message: &'static str)
        ensures
            message@ == self.text(),
    {
        match self {
            StorageError::OpenFile => "Failed to open SQLite database file",
            StorageError::OpenInMemory => "Failed to open in-memory SQLite database",
            StorageError::EnableWal => "Failed to enable WAL mode",
            StorageError::CreateSchema => "Failed to create database schema",
            StorageError::Count => "Failed to count entries",
            StorageError::Evict => "Failed to delete oldest entry for LRU eviction",
            StorageError::Insert => "Failed to insert entry",
            StorageError::Get => "Failed to get entry",
            StorageError::Acknowledge => "Failed to acknowledge entry",
            StorageError::Delete => "Failed to delete entry",
            StorageError::Cleanup => "Failed to cleanup expired entries",
        }
    }
}

/// The characters of an optional borrowed text.
pub open spec fn optional_str(text: Option<&str>) -> Option<Seq<char>> {
    match text {
        Some(t) => Some(t@),
        None => None,
    }
}

/// The value of an optional entry.
pub open spec fn optional_entry(entry: Option<StoredEntry>) -> Option<EntryView> {
    match entry {
        Some(e) => Some(e@),
        None => None,
    }
}

/// A place where entries are kept under their ids.
pub trait Repository: Sized {
    /// The repository is in a state that its operations can work on.
    spec fn wf(&self) -> bool;

    /// The rows that it holds.
    spec fn rows(&self) -> Entries;

    /// The number of rows from which on an insertion makes room first.
    spec fn limit(&self) -> usize;

    /// The rows change through this repository's operations alone. Of a database file, which other
    /// programs may write to, that cannot be said.
    spec fn exclusive(&self) -> bool;

    /// No operation on the repository fails.
    spec fn dependable(&self) -> bool;

    /// The file that the rows are kept in, if they are not kept in memory.
    spec fn file(&self) -> Option<PathBuf>;

    /// Reading the entry under `id` can fail.
    spec fn reading_may_fail(&self, id: Seq<char>) -> bool;

    /// Marking the entry under `id` as acknowledged can fail.
    spec fn marking_may_fail(&self, id: Seq<char>) -> bool;

    /// Deleting the entry under `id` can fail.
    spec fn deleting_may_fail(&self, id: Seq<char>) -> bool;

    /// Deleting the entries whose expiry lies before `now` can fail.
    spec fn cleaning_may_fail(&self, now: i64) -> bool;

    /// Counting the entries can fail.
    spec fn counting_may_fail(&self) -> bool;

    /// Inserting this record under `id` can fail, with this error.
    spec fn inserting_may_fail(&self, id: Seq<char>, record: Record, error: StorageError) -> bool;

    /// Where no operation fails, none can.
    proof fn dependable_never_fails(&self)
        ensures
            self.dependable() ==> {
                &&& forall|id: Seq<char>| !#[trigger] self.reading_may_fail(id)
                &&& forall|id: Seq<char>| !#[trigger] self.marking_may_fail(id)
                &&& forall|id: Seq<char>| !#[trigger] self.deleting_may_fail(id)
                &&& forall|now: i64| !#[trigger] self.cleaning_may_fail(now)
                &&& !self.counting_may_fail()
                &&& forall|id: Seq<char>, record: Record, error: StorageError|
                    !#[trigger] self.inserting_may_fail(id, record, error)
            },
    ;

    /// There are finitely many rows.
    proof fn rows_are_finite(&self)
        requires
            self.wf(),
        ensures
            self.rows().dom().finite(),
    ;

    /// Where no operation fails, an entry holds a message body exactly until it is acknowledged.
    proof fn rows_are_consistent(&self)
        requires
            self.wf(),
        ensures
            self.dependable() ==> is_consistent(self.rows()),
    ;

    /// Inserts or replaces an entry written at `created_at`. A new entry that meets a full
    /// repository takes the place of the oldest.
    fn insert_at(
        &mut self,
        id: &str,
        body: &[u8],
        content_type: Option<&str>,
        expires_at: i64,
        created_at: i64,
    ) -> (result: Result<(), StorageError>)
        requires
            old(self).wf(),
        ensures
            final(self).wf(),
            final(self).limit() == old(self).limit(),
            final(self).exclusive() == old(self).exclusive(),
            final(self).dependable() == old(self).dependable(),
            final(self).file() == old(self).file(),
            old(self).dependable() ==> result is Ok,
            result matches Err(error) ==> error == StorageError::Count || error
                == StorageError::Evict || error == StorageError::Insert,
            result matches Err(error) ==> old(self).inserting_may_fail(
                id@,
                fresh_record(body@, optional_str(content_type), expires_at, created_at),
                error,
            ),
            old(self).exclusive() && old(self).rows().len() < old(self).limit() ==> (
            result matches Err(error) ==> error != StorageError::Evict),
            old(self).exclusive() && result is Ok ==> insertion(
                old(self).rows(),
                old(self).limit(),
                id@,
                fresh_record(body@, optional_str(content_type), expires_at, created_at),
                final(self).rows(),
            ),
    ;

    /// Retrieves an entry by ID.
    fn get(&self, id: &str) -> (result: Result<Option<StoredEntry>, StorageError>)
        requires
            self.wf(),
        ensures
            self.dependable() ==> result is Ok,
            self.exclusive() ==> (result matches Ok(found) ==> optional_entry(found) == lookup(
                self.rows(),
                id@,
            )),
            result matches Err(error) ==> error == StorageError::Get && self.reading_may_fail(id@),
    ;

    /// Marks an entry as acknowledged and clears its message body. Returns true if there was such
    /// an entry.
    fn ack(&mut self, id: &str) -> (result: Result<bool, StorageError>)
        requires
            old(self).wf(),
        ensures
            final(self).wf(),
            final(self).limit() == old(self).limit(),
            final(self).exclusive() == old(self).exclusive(),
            final(self).dependable() == old(self).dependable(),
            final(self).file() == old(self).file(),
            old(self).dependable() ==> result is Ok,
            old(self).exclusive() ==> (result matches Ok(updated) ==> {
                &&& updated == old(self).rows().contains_key(id@)
                &&& final(self).rows() == acknowledged(old(self).rows(), id@)
            }),
            result matches Err(error) ==> error == StorageError::Acknowledge && old(
                self,
            ).marking_may_fail(id@),
    ;

    /// Deletes an entry by ID. Returns true if there was such an entry.
    fn delete(&mut self, id: &str) -> (result: Result<bool, StorageError>)
        requires
            old(self).wf(),
        ensures
            final(self).wf(),
            final(self).limit() == old(self).limit(),
            final(self).exclusive() == old(self).exclusive(),
            final(self).dependable() == old(self).dependable(),
            final(self).file() == old(self).file(),
            old(self).dependable() ==> result is Ok,
            old(self).exclusive() ==> (result matches Ok(deleted) ==> {
                &&& deleted == old(self).rows().contains_key(id@)
                &&& final(self).rows() == old(self).rows().remove(id@)
                &&& final(self).rows().len() + (if deleted {
                    1int
                } else {
                    0int
                }) == old(self).rows().len()
            }),
            result matches Err(error) ==> error == StorageError::Delete && old(
                self,
            ).deleting_may_fail(id@),
    ;

    /// Deletes the entries whose expiry lies before `now`. Returns how many there were.
    fn cleanup_expired_at(&mut self, now: i64) -> (result: Result<usize, StorageError>)
        requires
            old(self).wf(),
        ensures
            final(self).wf(),
            final(self).limit() == old(self).limit(),
            final(self).exclusive() == old(self).exclusive(),
            final(self).dependable() == old(self).dependable(),
            final(self).file() == old(self).file(),
            old(self).dependable() ==> result is Ok,
            old(self).exclusive() ==> (result matches Ok(deleted) ==> {
                &&& final(self).rows() == unexpired(old(self).rows(), now)
                &&& deleted == expired(old(self).rows(), now).len()
                &&& final(self).rows().len() + deleted == old(self).rows().len()
            }),
            result matches Err(error) ==> error == StorageError::Cleanup && old(
                self,
            ).cleaning_may_fail(now),
    ;

    /// Returns the total number of entries.
    fn count(&self) -> (result: Result<usize, StorageError>)
        requires
            self.wf(),
        ensures
            self.dependable() ==> result is Ok,
            self.exclusive() ==> (result matches Ok(count) ==> count == self.rows().len()),
            result matches Err(error) ==> error == StorageError::Count && self.counting_may_fail(),
    ;
}

} // verus!
