//! In-memory storage for relay entries. Data is lost on restart.

use crate::clock::{clock_reads, unix_timestamp_millis};
use crate::entries::{
    acked_record, acknowledged, cleanup_is_counted, deletion_is_counted, expired, fresh_record,
    insertion, is_consistent, is_oldest, unexpired, Entries, EntryView, Record, StoredEntry,
};
use crate::keyed::Keyed;
use crate::payload::{clone_text, optional_bytes, optional_text};
use crate::repository::{optional_str, Repository, StorageError};
use std::path::PathBuf;
use vstd::prelude::*;

verus! {

/// Default maximum number of entries before eviction kicks in.
pub const DEFAULT_MAX_ENTRIES: usize = 10_000;

/// An entry with the time at which it was written.
struct Entry {
    message_body: Option<Vec<u8>>,
    content_type: Option<String>,
    acked: bool,
    expires_at: i64,
    created_at: i64,
}

impl View for Entry {
    type V = Record;

    closed spec fn view(&self) -> Record {
        Record {
            entry: EntryView {
                message_body: optional_bytes(self.message_body),
                content_type: optional_text(self.content_type),
                acked: self.acked,
                expires_at: self.expires_at,
            },
            created_at: self.created_at,
        }
    }
}

/// In-memory repository for relay entries. Evicts by the time of writing.
pub struct EntryRepository {
    entries: Keyed<Entry>,
    max_entries: usize,
}

impl EntryRepository {
    spec fn rows_of(entries: Map<Seq<char>, Entry>) -> Entries {
        entries.map_values(|entry: Entry| entry@)
    }

    /// Creates a new in-memory repository.
    ///
    /// # Arguments
    /// * `_path` - Ignored (there is nothing on disk)
    /// * `max_entries` - Maximum entries before eviction
    pub fn new(_path: Option<&PathBuf>, max_entries: usize) -> (result: Result<Self, StorageError>)
        ensures
            result matches Ok(repository) && {
                &&& repository.wf()
                &&& repository.limit() == max_entries
                &&& repository.rows() == Entries::empty()
                &&& repository.exclusive()
                &&& repository.dependable()
            },
    {
        let repository = EntryRepository { entries: Keyed::new(), max_entries };
        assert(repository.rows() =~= Entries::empty());
        Ok(repository)
    }

    /// The key of an entry that no other was written before.
    fn oldest(&self) -> (oldest: Option<String>)
        requires
            self.wf(),
        ensures
            match oldest {
                Some(id) => is_oldest(self.rows(), id@),
                None => self.rows().len() == 0,
            },
    {
        proof {
            self.entries.keys_are_domain();
            assert(self.rows().dom() =~= self.entries@.dom());
        }
        let len: usize = self.entries.len();
        if len == 0 {
            return None;
        }
        let mut best: usize = 0;
        let mut i: usize = 1;
        while i < len
            invariant
                self.wf(),
                len == self.entries.keys().len(),
                best < i <= len,
                forall|j: int| #![trigger self.entries.keys()[j]]
                    0 <= j < i ==> self.entries@[self.entries.keys()[best as int]].created_at
                        <= self.entries@[self.entries.keys()[j]].created_at,
            decreases len - i,
        {
            if self.entries.entry(i).1.created_at < self.entries.entry(best).1.created_at {
                best = i;
            }
            i = i + 1;
        }
        let id: String = self.entries.entry(best).0.clone();
        proof {
            assert forall|other: Seq<char>| #[trigger] self.rows().contains_key(other) implies
                self.rows()[id@].created_at <= self.rows()[other].created_at by {
                assert(self.entries.keys().to_set().contains(other));
                let j = self.entries.keys().index_of(other);
                assert(self.entries.keys()[j] == other);
            }
        }
        Some(id)
    }

    /// Inserts or replaces an entry, written now.
    pub fn insert(
        &mut self,
        id: &str,
        body: &[u8],
        content_type: Option<&str>,
        expires_at: i64,
    ) -> (result: Result<(), StorageError>)
        requires
            old(self).wf(),
        ensures
            final(self).wf(),
            final(self).limit() == old(self).limit(),
            result is Ok,
            exists|created_at: i64|
                created_at >= 0 && clock_reads(created_at) && insertion(
                    old(self).rows(),
                    old(self).limit(),
                    id@,
                    #[trigger] fresh_record(
                        body@,
                        optional_str(content_type),
                        expires_at,
                        created_at,
                    ),
                    final(self).rows(),
                ),
            exists|repository: &mut Self, created_at: i64|
                *repository == *old(self) && *final(repository) == *final(self) && clock_reads(
                    created_at,
                ) && #[trigger] call_ensures(
                    Self::insert_at,
                    (repository, id, body, content_type, expires_at, created_at),
                    result,
                ),
    {
        let created_at: i64 = unix_timestamp_millis();
        self.insert_at(id, body, content_type, expires_at, created_at)
    }

    /// Deletes the entries that have expired by now. Returns how many there were.
    pub fn cleanup_expired(&mut self) -> (result: Result<usize, StorageError>)
        requires
            old(self).wf(),
        ensures
            final(self).wf(),
            final(self).limit() == old(self).limit(),
            result is Ok,
            exists|now: i64|
                {
                    &&& now >= 0
                    &&& clock_reads(now)
                    &&& final(self).rows() == #[trigger] unexpired(old(self).rows(), now)
                    &&& result->Ok_0 == expired(old(self).rows(), now).len()
                    &&& final(self).rows().len() + result->Ok_0 == old(self).rows().len()
                },
            exists|repository: &mut Self, now: i64|
                *repository == *old(self) && *final(repository) == *final(self) && clock_reads(now)
                    && #[trigger] call_ensures(Self::cleanup_expired_at, (repository, now), result),
    {
        let now: i64 = unix_timestamp_millis();
        self.cleanup_expired_at(now)
    }
}

impl Repository for EntryRepository {
    /// The entries are in order, and each holds a message body exactly until it is acknowledged.
    closed spec fn wf(&self) -> bool {
        self.entries.wf() && is_consistent(self.rows())
    }

    closed spec fn rows(&self) -> Entries {
        Self::rows_of(self.entries@)
    }

    closed spec fn limit(&self) -> usize {
        self.max_entries
    }

    open spec fn exclusive(&self) -> bool {
        true
    }

    open spec fn dependable(&self) -> bool {
        true
    }

    open spec fn file(&self) -> Option<PathBuf> {
        None
    }

    open spec fn reading_may_fail(&self, id: Seq<char>) -> bool {
        false
    }

    open spec fn marking_may_fail(&self, id: Seq<char>) -> bool {
        false
    }

    open spec fn deleting_may_fail(&self, id: Seq<char>) -> bool {
        false
    }

    open spec fn cleaning_may_fail(&self, now: i64) -> bool {
        false
    }

    open spec fn counting_may_fail(&self) -> bool {
        false
    }

    open spec fn inserting_may_fail(
        &self,
        id: Seq<char>,
        record: Record,
        error: StorageError,
    ) -> bool {
        false
    }

    proof fn dependable_never_fails(&self) {
    }

    proof fn rows_are_finite(&self) {
        self.entries.keys_are_domain();
        assert(self.rows().dom() =~= self.entries@.dom());
    }

    proof fn rows_are_consistent(&self) {
    }

    fn insert_at(
        &mut self,
        id: &str,
        body: &[u8],
        content_type: Option<&str>,
        expires_at: i64,
        created_at: i64,
    ) -> (result: Result<(), StorageError>) {
        proof {
            self.entries.keys_are_domain();
            assert(self.rows().dom() =~= self.entries@.dom());
        }
        if self.entries.len() >= self.max_entries && !self.entries.contains_key(id) {
            if let Some(oldest) = self.oldest() {
                let _ = self.entries.remove(oldest.as_str());
                assert(self.rows() =~= old(self).rows().remove(oldest@));
            }
        }
        let ghost between = self.rows();
        let entry = Entry {
            message_body: Some(vstd::slice::slice_to_vec(body)),
            content_type: match content_type {
                Some(text) => Some(text.to_owned()),
                None => None,
            },
            acked: false,
            expires_at,
            created_at,
        };
        let _ = self.entries.insert(id.to_owned(), entry);
        assert(self.rows() =~= between.insert(id@, entry@));
        assert(is_consistent(self.rows()));
        Ok(())
    }

    fn get(&self, id: &str) -> (result: Result<Option<StoredEntry>, StorageError>) {
        match self.entries.get(id) {
            Some(entry) => {
                let message_body: Option<Vec<u8>> = match &entry.message_body {
                    Some(body) => Some(vstd::slice::slice_to_vec(body.as_slice())),
                    None => None,
                };
                Ok(
                    Some(
                        StoredEntry {
                            message_body,
                            content_type: clone_text(&entry.content_type),
                            acked: entry.acked,
                            expires_at: entry.expires_at,
                        },
                    ),
                )
            },
            None => Ok(None),
        }
    }

    fn ack(&mut self, id: &str) -> (result: Result<bool, StorageError>) {
        match self.entries.remove(id) {
            Some(entry) => {
                let marked = Entry {
                    message_body: None,
                    content_type: entry.content_type,
                    acked: true,
                    expires_at: entry.expires_at,
                    created_at: entry.created_at,
                };
                let _ = self.entries.insert(id.to_owned(), marked);
                assert(marked@ == acked_record(old(self).rows()[id@]));
                assert(self.rows() =~= acknowledged(old(self).rows(), id@));
                Ok(true)
            },
            None => {
                assert(self.rows() =~= old(self).rows());
                Ok(false)
            },
        }
    }

    fn delete(&mut self, id: &str) -> (result: Result<bool, StorageError>) {
        let removed: Option<Entry> = self.entries.remove(id);
        proof {
            old(self).rows_are_finite();
            deletion_is_counted(old(self).rows(), id@);
            assert(self.rows() =~= old(self).rows().remove(id@));
        }
        Ok(removed.is_some())
    }

    fn cleanup_expired_at(&mut self, now: i64) -> (result: Result<usize, StorageError>) {
        let ghost before = self.entries@;
        proof {
            self.entries.keys_are_domain();
        }
        let mut removed: usize = 0;
        let total: usize = self.entries.len();
        let mut kept: Keyed<Entry> = Keyed::new();
        while self.entries.len() > 0
            invariant
                self.entries.wf(),
                kept.wf(),
                self.max_entries == old(self).max_entries,
                before.len() == total,
                removed + kept@.len() + self.entries@.len() == total,
                forall|key: Seq<char>| #[trigger]
                    self.entries@.contains_key(key) ==> before.contains_key(key)
                        && self.entries@[key] == before[key],
                forall|key: Seq<char>| #[trigger]
                    kept@.contains_key(key) <==> before.contains_key(key)
                        && !self.entries@.contains_key(key) && before[key].expires_at >= now,
                forall|key: Seq<char>| #[trigger]
                    kept@.contains_key(key) ==> kept@[key] == before[key],
            decreases self.entries@.len(),
        {
            if let Some((id, entry)) = self.entries.pop() {
                if entry.expires_at < now {
                    removed = removed + 1;
                } else {
                    kept.push(id, entry);
                }
            }
        }
        proof {
            self.entries.keys_are_domain();
            assert(self.entries@.dom() =~= Set::empty());
        }
        self.entries = kept;
        proof {
            self.entries.keys_are_domain();
            assert(self.rows().dom() =~= self.entries@.dom());
            assert(old(self).rows().dom() =~= before.dom());
            assert(self.rows() =~= unexpired(old(self).rows(), now));
            old(self).rows_are_finite();
            cleanup_is_counted(old(self).rows(), now);
        }
        Ok(removed)
    }

    fn count(&self) -> (result: Result<usize, StorageError>) {
        proof {
            self.entries.keys_are_domain();
            assert(self.rows().dom() =~= self.entries@.dom());
        }
        Ok(self.entries.len())
    }
}

} // verus!
