//! Coordination layer for pub-sub message delivery with persistent storage.
//!
//! Combines a repository of entries with the in-memory lists of those who wait. Entries are
//! persisted; waiting requests cannot be. The list decides who is woken: each operation hands back
//! the handles of the requests to notify, and of those to let go.
//!
//! Every operation comes in two forms. One takes the time as an argument and says exactly what
//! happens at that time; the other reads the clock and calls the first.

use crate::clock::{
    clock_reads, duration_millis, expires_at, expiry, has_expired, is_expired,
    unix_timestamp_millis,
};
use crate::entries::{
    acknowledged, expired, fresh_record, insertion, is_consistent, lookup, unexpired, Entries,
    EntryView, Record, StoredEntry,
};
use crate::keyed::Keyed;
use crate::payload::{as_slice, from_vec, Message, MessageView};
use crate::persistence::{opening_may_fail, EntryRepository};
use crate::repository::{optional_entry, optional_str, Repository, StorageError};
use crate::waiters::{
    acks_of, all_bounded, closed_handles, closed_handles_are_listed_once, each_once,
    lists_without_repetition_add_up, messages_of, open_handles_members, swept,
    taken_handles_waited, waits, with_ack_waiter, with_message_waiter, without_acks, WaiterMap,
    Waiters, MAX_WAITERS_PER_ENTRY,
};
use std::path::PathBuf;
use std::time::Duration;
use vstd::prelude::*;

verus! {

/// Error returned when subscribing to a waiting list entry fails.
#[derive(Debug, Clone, Copy, PartialEq, Eq, Structural)]
pub enum SubscribeError {
    /// Maximum waiters per entry reached.
    WaiterLimitReached,
    /// Entry not found or expired.
    NotFound,
}

/// Result of get_or_subscribe operation.
pub enum GetOrSubscribeResult {
    /// Message was immediately available.
    Message(Message),
    /// No message yet - the request with this handle is notified when a message arrives.
    Waiting(u64),
}

/// Result of subscribe_ack operation.
#[derive(Debug, Clone, Copy, PartialEq, Eq, Structural)]
pub enum AckSubscription {
    /// The entry has been acknowledged already.
    AlreadyAcked,
    /// Not yet acknowledged - the request with this handle is notified when it is.
    Waiting(u64),
}

/// What comes of storing a message.
pub struct StoreOutcome {
    /// Whether the message was persisted. The waiters are notified either way.
    pub persisted: Result<(), StorageError>,
    /// The message, for delivery to those notified.
    pub message: Message,
    /// The requests to deliver the message to.
    pub notified: Vec<u64>,
    /// The requests that waited for the acknowledgement of an earlier message, to be let go.
    pub dropped: Vec<u64>,
}

/// What comes of acknowledging an entry.
pub struct AckOutcome {
    /// Whether the entry exists, has not expired, and is acknowledged now.
    pub acked: bool,
    /// The requests to tell that the entry was acknowledged.
    pub notified: Vec<u64>,
}

/// What comes of a cleanup.
pub struct CleanupOutcome {
    /// The number of expired entries that were deleted.
    pub removed: usize,
    /// The requests that no longer wait.
    pub dropped: Vec<u64>,
}

/// What asking the repository for an entry came to, as a mathematical value.
pub enum Reading {
    /// The repository did not answer.
    Failed,
    /// There is no such entry.
    Absent,
    /// The entry.
    Found(EntryView),
}

/// What a repository's answer says.
pub open spec fn reading_of(answer: Result<Option<StoredEntry>, StorageError>) -> Reading {
    match answer {
        Ok(Some(entry)) => Reading::Found(entry@),
        Ok(None) => Reading::Absent,
        Err(_) => Reading::Failed,
    }
}

/// What a repository with these rows answers, if it answers.
pub open spec fn true_reading(rows: Entries, id: Seq<char>) -> Reading {
    match lookup(rows, id) {
        Some(entry) => Reading::Found(entry),
        None => Reading::Absent,
    }
}

/// The entry that was read, if it has not expired at `now`. A failed reading counts as one that
/// found nothing.
pub open spec fn live_reading(reading: Reading, now: i64) -> Option<EntryView> {
    match reading {
        Reading::Found(entry) => if has_expired(now, entry.expires_at) {
            None
        } else {
            Some(entry)
        },
        _ => None,
    }
}

/// The message that is given out when this was read at `now`.
pub open spec fn given_message(reading: Reading, now: i64) -> Option<MessageView> {
    match live_reading(reading, now) {
        Some(entry) => match entry.message_body {
            Some(body) => Some(MessageView { body, content_type: entry.content_type }),
            None => None,
        },
        None => None,
    }
}

/// The entry that a lookup answered with, if it has not expired at `now`. A failed lookup counts
/// as one that found nothing.
pub fn live_entry(answer: Result<Option<StoredEntry>, StorageError>, now: i64) -> (entry: Option<
    StoredEntry,
>)
    ensures
        optional_entry(entry) == live_reading(reading_of(answer), now),
        entry matches Some(found) ==> answer == Ok::<_, StorageError>(Some(found)),
{
    match answer {
        Ok(Some(entry)) => {
            if is_expired(now, entry.expires_at) {
                None
            } else {
                Some(entry)
            }
        },
        _ => None,
    }
}

/// The message that an entry still holds, if any.
pub fn entry_message(entry: StoredEntry) -> (message: Option<Message>)
    ensures
        match message {
            Some(m) => entry@.message_body == Some(m@.body) && m@.content_type
                == entry@.content_type,
            None => entry@.message_body is None,
        },
{
    match entry.message_body {
        Some(body) => Some(
            Message { body: from_vec(body), content_type: entry.content_type },
        ),
        None => None,
    }
}

/// The entry under `id` exists, and has expired at `now`.
pub open spec fn is_overdue(rows: Entries, id: Seq<char>, now: i64) -> bool {
    rows.contains_key(id) && has_expired(now, rows[id].entry.expires_at)
}

/// Coordination layer for pub-sub message delivery.
///
/// Combines persistent storage with in-memory lists of waiters.
/// Supports two patterns:
/// 1. **Inbox**: producer stores, consumer polls or long-polls for message
/// 2. **Link**: producer stores, waits for ACK; consumer fetches and ACKs
///
/// Memory is bounded by the repository's limit and per-entry waiter limits.
pub struct WaitingList<R = EntryRepository> {
    repository: R,
    waiters: Keyed<Waiters>,
}

impl<R: Repository> WaitingList<R> {
    /// The rows that the repository holds.
    pub closed spec fn rows(&self) -> Entries {
        self.repository.rows()
    }

    /// The repository that the entries are kept in.
    pub closed spec fn repository(&self) -> R {
        self.repository
    }

    /// The number of rows from which on storing a message makes room first.
    pub closed spec fn limit(&self) -> usize {
        self.repository.limit()
    }

    /// The rows change through this list's operations alone.
    pub closed spec fn exclusive(&self) -> bool {
        self.repository.exclusive()
    }

    /// The rows change through this list's operations alone, and no operation on them fails.
    pub closed spec fn certain(&self) -> bool {
        self.repository.exclusive() && self.repository.dependable()
    }

    /// The file that the rows are kept in, if they are not kept in memory.
    pub closed spec fn file(&self) -> Option<PathBuf> {
        self.repository.file()
    }

    /// Reading the entry under `id` from the repository can fail.
    pub closed spec fn reading_may_fail(&self, id: Seq<char>) -> bool {
        self.repository.reading_may_fail(id)
    }

    /// Marking the entry under `id` in the repository as acknowledged can fail.
    pub closed spec fn marking_may_fail(&self, id: Seq<char>) -> bool {
        self.repository.marking_may_fail(id)
    }

    /// Deleting the entries whose expiry lies before `now` from the repository can fail.
    pub closed spec fn cleaning_may_fail(&self, now: i64) -> bool {
        self.repository.cleaning_may_fail(now)
    }

    /// Counting the entries in the repository can fail.
    pub closed spec fn counting_may_fail(&self) -> bool {
        self.repository.counting_may_fail()
    }

    /// Inserting this record into the repository under `id` can fail, with this error.
    pub closed spec fn inserting_may_fail(
        &self,
        id: Seq<char>,
        record: Record,
        error: StorageError,
    ) -> bool {
        self.repository.inserting_may_fail(id, record, error)
    }

    /// What asking the repository for an entry can come to: the entry that is there, or a failure.
    pub open spec fn may_read(&self, id: Seq<char>, reading: Reading) -> bool {
        &&& self.certain() ==> reading !is Failed
        &&& reading is Failed ==> self.reading_may_fail(id)
        &&& self.exclusive() && reading !is Failed ==> reading == true_reading(self.rows(), id)
    }

    /// Those who wait, by the id that they wait for.
    pub closed spec fn waiters(&self) -> WaiterMap {
        self.waiters@.map_values(|waiters: Waiters| waiters@)
    }

    /// The parts of the list are in order, under every id that is listed somebody waits, and no
    /// more than the limit.
    pub closed spec fn wf(&self) -> bool {
        &&& self.repository.wf()
        &&& self.waiters.wf()
        &&& all_bounded(self.waiters())
    }

    /// In a list that is in order no more than the limit wait under any id, for either event.
    pub proof fn waiters_are_bounded(&self, id: Seq<char>)
        requires
            self.wf(),
        ensures
            acks_of(self.waiters(), id).len() <= MAX_WAITERS_PER_ENTRY,
            messages_of(self.waiters(), id).len() <= MAX_WAITERS_PER_ENTRY,
            self.waiters().contains_key(id) ==> !self.waiters()[id].is_idle(),
    {
    }

    /// A list whose repository never fails is also the only one to change it.
    pub proof fn certain_is_exclusive(&self)
        ensures
            self.certain() ==> self.exclusive(),
    {
    }

    /// Where the repository never fails, nothing that is asked of it can.
    pub proof fn certain_never_fails(&self)
        ensures
            self.certain() ==> {
                &&& forall|id: Seq<char>| !#[trigger] self.reading_may_fail(id)
                &&& forall|id: Seq<char>| !#[trigger] self.marking_may_fail(id)
                &&& forall|now: i64| !#[trigger] self.cleaning_may_fail(now)
                &&& !self.counting_may_fail()
                &&& forall|id: Seq<char>, record: Record, error: StorageError|
                    !#[trigger] self.inserting_may_fail(id, record, error)
            },
    {
        self.repository.dependable_never_fails();
    }

    /// There are finitely many entries.
    pub proof fn rows_are_finite(&self)
        requires
            self.wf(),
        ensures
            self.rows().dom().finite(),
    {
        self.repository.rows_are_finite();
    }

    /// Where the repository never fails, an entry holds a message body exactly until it is
    /// acknowledged.
    pub proof fn rows_are_consistent(&self)
        requires
            self.wf(),
            self.certain(),
        ensures
            is_consistent(self.rows()),
    {
        self.repository.rows_are_consistent();
    }

    /// What can fail is what can fail in the repository, and nothing of the list's own.
    proof fn failures_are_the_repositorys(&self, id: Seq<char>, now: i64)
        ensures
            self.reading_may_fail(id) <==> self.repository.reading_may_fail(id),
            self.marking_may_fail(id) <==> self.repository.marking_may_fail(id),
            self.cleaning_may_fail(now) <==> self.repository.cleaning_may_fail(now),
            self.counting_may_fail() <==> self.repository.counting_may_fail(),
            forall|record: Record, error: StorageError| #[trigger]
                self.inserting_may_fail(id, record, error) <==> self.repository.inserting_may_fail(
                    id,
                    record,
                    error,
                ),
            self.exclusive() <==> self.repository.exclusive(),
            self.rows() == self.repository.rows(),
            self.limit() == self.repository.limit(),
            self.file() == self.repository.file(),
    {
    }

    /// What an operation leaves as it was: the limit, and what is known of the repository.
    pub open spec fn same_repository(before: Self, after: Self) -> bool {
        &&& after.wf()
        &&& after.limit() == before.limit()
        &&& after.exclusive() == before.exclusive()
        &&& after.certain() == before.certain()
        &&& after.file() == before.file()
    }

    /// A lookup of `id` can tell, at `now`, that its entry has expired, or that it has not or is
    /// not there. A failed lookup tells that it is not there.
    pub open spec fn found_overdue(&self, id: Seq<char>, now: i64, overdue: bool) -> bool {
        exists|text: &str, answer: Result<Option<StoredEntry>, StorageError>|
            {
                &&& text@ == id
                &&& #[trigger] call_ensures(R::get, (&self.repository(), text), answer)
                &&& overdue <==> (answer matches Ok(Some(entry)) && has_expired(
                    now,
                    entry.expires_at,
                ))
            }
    }

    /// How storing a message at `now` changes the list. The message goes to all who wait for one,
    /// and those who wait for the acknowledgement of an earlier message are let go.
    pub open spec fn stored(
        before: Self,
        now: i64,
        id: Seq<char>,
        message: MessageView,
        ttl: Duration,
        outcome: StoreOutcome,
        after: Self,
    ) -> bool {
        &&& Self::same_repository(before, after)
        &&& outcome.message@ == message
        &&& outcome.notified@ == messages_of(before.waiters(), id)
        &&& outcome.dropped@ == acks_of(before.waiters(), id)
        &&& after.waiters() == before.waiters().remove(id)
        &&& before.certain() ==> outcome.persisted is Ok
        &&& outcome.persisted matches Err(error) ==> error == StorageError::Count || error
            == StorageError::Evict || error == StorageError::Insert
        &&& outcome.persisted matches Err(error) ==> before.inserting_may_fail(
            id,
            fresh_record(
                message.body,
                message.content_type,
                expiry(now, duration_millis(ttl)) as i64,
                now,
            ),
            error,
        )
        &&& before.exclusive() && before.rows().len() < before.limit() ==> (
        outcome.persisted matches Err(error) ==> error != StorageError::Evict)
        &&& before.exclusive() && outcome.persisted is Ok ==> insertion(
            before.rows(),
            before.limit(),
            id,
            fresh_record(
                message.body,
                message.content_type,
                expiry(now, duration_millis(ttl)) as i64,
                now,
            ),
            after.rows(),
        )
    }

    /// How acknowledging an entry at `now` changes the list, where reading the entry came to
    /// `reading`. An entry that cannot be marked counts as not acknowledged.
    pub open spec fn acked_given(
        before: Self,
        now: i64,
        id: Seq<char>,
        reading: Reading,
        outcome: AckOutcome,
        after: Self,
    ) -> bool {
        let nobody_woken = outcome.notified@.len() == 0 && after.waiters() == before.waiters();
        &&& Self::same_repository(before, after)
        &&& before.may_read(id, reading)
        &&& match live_reading(reading, now) {
            None => !outcome.acked && nobody_woken && after.rows() == before.rows(),
            Some(entry) => if entry.acked {
                outcome.acked && nobody_woken && after.rows() == before.rows()
            } else if outcome.acked {
                &&& outcome.notified@ == acks_of(before.waiters(), id)
                &&& after.waiters() == without_acks(before.waiters(), id)
                &&& before.exclusive() ==> after.rows() == acknowledged(before.rows(), id)
            } else {
                nobody_woken && !before.certain() && before.marking_may_fail(id)
            },
        }
    }

    /// How acknowledging an entry at `now` changes the list.
    pub open spec fn acked_at(
        before: Self,
        now: i64,
        id: Seq<char>,
        outcome: AckOutcome,
        after: Self,
    ) -> bool {
        exists|reading: Reading| #[trigger]
            Self::acked_given(before, now, id, reading, outcome, after)
    }

    /// What is answered at `now` to the question whether an entry has been acknowledged, where
    /// reading the entry came to `reading`.
    pub open spec fn status_given(
        &self,
        now: i64,
        id: Seq<char>,
        reading: Reading,
        status: Option<bool>,
    ) -> bool {
        &&& self.may_read(id, reading)
        &&& status == match live_reading(reading, now) {
            Some(entry) => Some(entry.acked),
            None => None,
        }
    }

    /// What is answered at `now` to the question whether an entry has been acknowledged.
    pub open spec fn ack_status(&self, now: i64, id: Seq<char>, status: Option<bool>) -> bool {
        exists|reading: Reading| #[trigger] self.status_given(now, id, reading, status)
    }

    /// How subscribing at `now` to the acknowledgement of an entry changes the list, where reading
    /// the entry came to `reading`.
    pub open spec fn subscribed_given(
        before: Self,
        now: i64,
        id: Seq<char>,
        handle: u64,
        reading: Reading,
        result: Result<AckSubscription, SubscribeError>,
        after: Self,
    ) -> bool {
        &&& Self::same_repository(before, after)
        &&& after.rows() == before.rows()
        &&& before.may_read(id, reading)
        &&& result == match live_reading(reading, now) {
            None => Err(SubscribeError::NotFound),
            Some(entry) => if entry.acked {
                Ok(AckSubscription::AlreadyAcked)
            } else if acks_of(before.waiters(), id).len() < MAX_WAITERS_PER_ENTRY {
                Ok(AckSubscription::Waiting(handle))
            } else {
                Err(SubscribeError::WaiterLimitReached)
            },
        }
        &&& after.waiters() == match result {
            Ok(AckSubscription::Waiting(_)) => with_ack_waiter(before.waiters(), id, handle),
            _ => before.waiters(),
        }
    }

    /// How subscribing at `now` to the acknowledgement of an entry changes the list.
    pub open spec fn ack_subscribed(
        before: Self,
        now: i64,
        id: Seq<char>,
        handle: u64,
        result: Result<AckSubscription, SubscribeError>,
        after: Self,
    ) -> bool {
        exists|reading: Reading| #[trigger]
            Self::subscribed_given(before, now, id, handle, reading, result, after)
    }

    /// How asking at `now` for the message of an entry changes the list, where reading the entry
    /// came to `reading`.
    pub open spec fn requested_given(
        before: Self,
        now: i64,
        id: Seq<char>,
        handle: u64,
        reading: Reading,
        result: Result<GetOrSubscribeResult, SubscribeError>,
        after: Self,
    ) -> bool {
        &&& Self::same_repository(before, after)
        &&& after.rows() == before.rows()
        &&& before.may_read(id, reading)
        &&& match given_message(reading, now) {
            Some(message) => {
                &&& result matches Ok(GetOrSubscribeResult::Message(given)) && given@ == message
                &&& after.waiters() == before.waiters()
            },
            None => if messages_of(before.waiters(), id).len() < MAX_WAITERS_PER_ENTRY {
                &&& result matches Ok(GetOrSubscribeResult::Waiting(waiting)) && waiting == handle
                &&& after.waiters() == with_message_waiter(before.waiters(), id, handle)
            } else {
                &&& result matches Err(error) && error == SubscribeError::WaiterLimitReached
                &&& after.waiters() == before.waiters()
            },
        }
    }

    /// How asking at `now` for the message of an entry changes the list.
    pub open spec fn message_requested(
        before: Self,
        now: i64,
        id: Seq<char>,
        handle: u64,
        result: Result<GetOrSubscribeResult, SubscribeError>,
        after: Self,
    ) -> bool {
        exists|reading: Reading| #[trigger]
            Self::requested_given(before, now, id, handle, reading, result, after)
    }

    /// How a cleanup at `now` changes the list, where the requests in `closed` have gone away, the
    /// ids in `gone` were found to have expired, and `answered` tells whether the repository
    /// answered throughout.
    pub open spec fn cleaned_given(
        before: Self,
        now: i64,
        closed: Seq<u64>,
        gone: Set<Seq<char>>,
        answered: bool,
        outcome: CleanupOutcome,
        after: Self,
    ) -> bool {
        &&& Self::same_repository(before, after)
        &&& before.certain() ==> answered
        &&& !answered ==> before.cleaning_may_fail(now) || exists|id: Seq<char>|
            before.waiters().contains_key(id) && #[trigger] before.reading_may_fail(id)
        &&& after.waiters() == swept(before.waiters(), closed, gone)
        &&& forall|id: Seq<char>| #[trigger]
            before.waiters().contains_key(id) ==> before.found_overdue(id, now, gone.contains(id))
        &&& before.exclusive() ==> forall|id: Seq<char>| #[trigger]
            gone.contains(id) ==> is_overdue(before.rows(), id, now)
        &&& before.exclusive() && answered ==> forall|id: Seq<char>| #[trigger]
            before.waiters().contains_key(id) && is_overdue(before.rows(), id, now)
                ==> gone.contains(id)
        &&& forall|handle: u64| #[trigger]
            outcome.dropped@.contains(handle) <==> exists|id: Seq<char>| #[trigger]
                waits(before.waiters(), id, handle) && !waits(after.waiters(), id, handle)
        &&& each_once(before.waiters()) ==> outcome.dropped@.no_duplicates()
        &&& before.exclusive() && (answered || outcome.removed > 0 || !before.cleaning_may_fail(
            now,
        )) ==> {
            &&& after.rows() == unexpired(before.rows(), now)
            &&& outcome.removed == expired(before.rows(), now).len()
            &&& after.rows().len() + outcome.removed == before.rows().len()
        }
    }

    /// How a cleanup at `now` changes the list, where the requests in `closed` have gone away.
    pub open spec fn cleaned_up(
        before: Self,
        now: i64,
        closed: Seq<u64>,
        outcome: CleanupOutcome,
        after: Self,
    ) -> bool {
        exists|gone: Set<Seq<char>>, answered: bool| #[trigger]
            Self::cleaned_given(before, now, closed, gone, answered, outcome, after)
    }

    /// Creates a WaitingList with the given repository.
    pub fn new(repository: R) -> (list: Self)
        requires
            repository.wf(),
        ensures
            list.wf(),
            list.rows() == repository.rows(),
            list.limit() == repository.limit(),
            list.exclusive() == repository.exclusive(),
            list.certain() == (repository.exclusive() && repository.dependable()),
            list.file() == repository.file(),
            list.repository() == repository,
            list.waiters() == WaiterMap::empty(),
            forall|id: Seq<char>| #[trigger]
                list.reading_may_fail(id) == repository.reading_may_fail(id),
            forall|id: Seq<char>| #[trigger]
                list.marking_may_fail(id) == repository.marking_may_fail(id),
            forall|now: i64| #[trigger]
                list.cleaning_may_fail(now) == repository.cleaning_may_fail(now),
            list.counting_may_fail() == repository.counting_may_fail(),
            forall|id: Seq<char>, record: Record, error: StorageError| #[trigger]
                list.inserting_may_fail(id, record, error) == repository.inserting_may_fail(
                    id,
                    record,
                    error,
                ),
    {
        let list = WaitingList { repository, waiters: Keyed::new() };
        assert(list.waiters() =~= WaiterMap::empty());
        list
    }

    /// Stores a message at `now`, and tells which subscribers to deliver it to.
    ///
    /// On overwrite: message waiters receive the new message; stale ACK waiters (from previous
    /// message) are dropped.
    pub fn store_at(&mut self, now: i64, id: String, message: Message, ttl: Duration) -> (outcome:
        StoreOutcome)
        requires
            old(self).wf(),
        ensures
            Self::stored(*old(self), now, id@, message@, ttl, outcome, *final(self)),
            exists|
                repository: &mut R,
                name: &str,
                body: &[u8],
                content_type: Option<&str>,
                deadline: i64,
            |
                {
                    &&& *repository == old(self).repository()
                    &&& *final(repository) == final(self).repository()
                    &&& name@ == id@
                    &&& body@ == message@.body
                    &&& optional_str(content_type) == message@.content_type
                    &&& deadline == expiry(now, duration_millis(ttl))
                    &&& #[trigger] call_ensures(
                        R::insert_at,
                        (repository, name, body, content_type, deadline, now),
                        outcome.persisted,
                    )
                },
    {
        let deadline: i64 = expires_at(now, ttl);
        // The subscribers are taken off the list before the message is persisted, and whether it
        // is persisted or not.
        let (notified, dropped): (Vec<u64>, Vec<u64>) = match self.waiters.remove(id.as_str()) {
            Some(waiters) => waiters.notify_message_waiters(),
            None => (Vec::new(), Vec::new()),
        };
        assert(self.waiters() =~= old(self).waiters().remove(id@));
        assert(notified@ =~= messages_of(old(self).waiters(), id@));
        assert(dropped@ =~= acks_of(old(self).waiters(), id@));
        let content_type: Option<&str> = match &message.content_type {
            Some(text) => Some(text.as_str()),
            None => None,
        };
        let persisted: Result<(), StorageError> = self.repository.insert_at(
            id.as_str(),
            as_slice(&message.body),
            content_type,
            deadline,
            now,
        );
        StoreOutcome { persisted, message, notified, dropped }
    }

    /// Stores a message, and tells which subscribers to deliver it to.
    ///
    /// The outcome holds an error if persistence fails. Waiters are notified regardless of
    /// persistence success (message is delivered but may not survive restart).
    pub fn store(&mut self, id: String, message: Message, ttl: Duration) -> (outcome: StoreOutcome)
        requires
            old(self).wf(),
        ensures
            exists|now: i64|
                now >= 0 && clock_reads(now) && #[trigger] Self::stored(
                    *old(self),
                    now,
                    id@,
                    message@,
                    ttl,
                    outcome,
                    *final(self),
                ),
            exists|list: &mut Self, now: i64|
                *list == *old(self) && *final(list) == *final(self) && clock_reads(now)
                    && #[trigger] call_ensures(
                    Self::store_at,
                    (list, now, id, message, ttl),
                    outcome,
                ),
    {
        let now: i64 = unix_timestamp_millis();
        self.store_at(now, id, message, ttl)
    }

    /// Marks entry as acknowledged at `now`, clearing message payload, and tells which waiters to
    /// notify.
    pub fn ack_at(&mut self, now: i64, id: &str) -> (outcome: AckOutcome)
        requires
            old(self).wf(),
        ensures
            Self::acked_at(*old(self), now, id@, outcome, *final(self)),
            exists|answer: Result<Option<StoredEntry>, StorageError>|
                {
                    &&& #[trigger] call_ensures(R::get, (&old(self).repository(), id), answer)
                    &&& Self::acked_given(
                        *old(self),
                        now,
                        id@,
                        reading_of(answer),
                        outcome,
                        *final(self),
                    )
                    &&& match live_reading(reading_of(answer), now) {
                        Some(entry) => entry.acked || exists|
                            repository: &mut R,
                            marked: Result<bool, StorageError>,
                        |
                            {
                                &&& *repository == old(self).repository()
                                &&& *final(repository) == final(self).repository()
                                &&& outcome.acked == marked is Ok
                                &&& #[trigger] call_ensures(R::ack, (repository, id), marked)
                            },
                        None => true,
                    }
                    &&& live_reading(reading_of(answer), now) is None || live_reading(
                        reading_of(answer),
                        now,
                    )->0.acked ==> final(self).repository() == old(self).repository()
                },
    {
        let answer: Result<Option<StoredEntry>, StorageError> = self.repository.get(id);
        let ghost reading = reading_of(answer);
        assert(self.may_read(id@, reading));
        let entry: StoredEntry = match live_entry(answer, now) {
            Some(entry) => entry,
            None => {
                let outcome = AckOutcome { acked: false, notified: Vec::new() };
                assert(Self::acked_given(*old(self), now, id@, reading, outcome, *self));
                return outcome;
            },
        };
        // Already acked? Then nobody is notified again.
        if entry.acked {
            let outcome = AckOutcome { acked: true, notified: Vec::new() };
            assert(Self::acked_given(*old(self), now, id@, reading, outcome, *self));
            return outcome;
        }
        let marked: Result<bool, StorageError> = self.repository.ack(id);
        if marked.is_err() {
            let outcome = AckOutcome { acked: false, notified: Vec::new() };
            assert(Self::acked_given(*old(self), now, id@, reading, outcome, *self));
            return outcome;
        }
        let mut notified: Vec<u64> = Vec::new();
        if let Some(mut waiters) = self.waiters.remove(id) {
            notified = waiters.notify_ack_waiters();
            if !waiters.is_empty() {
                let _ = self.waiters.insert(id.to_owned(), waiters);
            }
        }
        assert(notified@ =~= acks_of(old(self).waiters(), id@));
        assert(self.waiters() =~= without_acks(old(self).waiters(), id@));
        let outcome = AckOutcome { acked: true, notified };
        assert(Self::acked_given(*old(self), now, id@, reading, outcome, *self));
        outcome
    }

    /// Marks entry as acknowledged, clearing message payload, and tells which waiters to notify.
    ///
    /// The outcome says false if entry missing or expired (caller should return 404).
    pub fn ack(&mut self, id: &str) -> (outcome: AckOutcome)
        requires
            old(self).wf(),
        ensures
            exists|now: i64|
                now >= 0 && clock_reads(now) && #[trigger] Self::acked_at(
                    *old(self),
                    now,
                    id@,
                    outcome,
                    *final(self),
                ),
            exists|list: &mut Self, now: i64|
                *list == *old(self) && *final(list) == *final(self) && clock_reads(now)
                    && #[trigger] call_ensures(Self::ack_at, (list, now, id), outcome),
    {
        let now: i64 = unix_timestamp_millis();
        self.ack_at(now, id)
    }

    /// Returns whether an entry has been acknowledged, at `now`.
    pub fn is_acked_at(&self, now: i64, id: &str) -> (status: Option<bool>)
        requires
            self.wf(),
        ensures
            self.ack_status(now, id@, status),
            exists|answer: Result<Option<StoredEntry>, StorageError>|
                #[trigger] call_ensures(R::get, (&self.repository(), id), answer)
                    && self.status_given(now, id@, reading_of(answer), status),
    {
        let answer: Result<Option<StoredEntry>, StorageError> = self.repository.get(id);
        let ghost reading = reading_of(answer);
        let status: Option<bool> = match live_entry(answer, now) {
            Some(entry) => Some(entry.acked),
            None => None,
        };
        assert(self.status_given(now, id@, reading, status));
        status
    }

    /// Returns whether an entry has been acknowledged.
    ///
    /// Returns `None` if entry doesn't exist or is expired, `Some(bool)` otherwise.
    pub fn is_acked(&self, id: &str) -> (status: Option<bool>)
        requires
            self.wf(),
        ensures
            exists|now: i64|
                now >= 0 && clock_reads(now) && #[trigger] self.ack_status(now, id@, status),
            exists|now: i64|
                clock_reads(now) && #[trigger] call_ensures(
                    Self::is_acked_at,
                    (self, now, id),
                    status,
                ),
    {
        let now: i64 = unix_timestamp_millis();
        self.is_acked_at(now, id)
    }

    /// Subscribes the request with the given handle to the acknowledgement of this entry, at
    /// `now`.
    pub fn subscribe_ack_at(&mut self, now: i64, id: &str, handle: u64) -> (result: Result<
        AckSubscription,
        SubscribeError,
    >)
        requires
            old(self).wf(),
        ensures
            Self::ack_subscribed(*old(self), now, id@, handle, result, *final(self)),
            final(self).repository() == old(self).repository(),
            exists|answer: Result<Option<StoredEntry>, StorageError>|
                #[trigger] call_ensures(R::get, (&old(self).repository(), id), answer)
                    && Self::subscribed_given(
                    *old(self),
                    now,
                    id@,
                    handle,
                    reading_of(answer),
                    result,
                    *final(self),
                ),
    {
        let answer: Result<Option<StoredEntry>, StorageError> = self.repository.get(id);
        let ghost reading = reading_of(answer);
        assert(self.may_read(id@, reading));
        let entry: StoredEntry = match live_entry(answer, now) {
            Some(entry) => entry,
            None => {
                let result = Err(SubscribeError::NotFound);
                assert(Self::subscribed_given(
                    *old(self),
                    now,
                    id@,
                    handle,
                    reading,
                    result,
                    *self,
                ));
                return result;
            },
        };
        if entry.acked {
            let result = Ok(AckSubscription::AlreadyAcked);
            assert(Self::subscribed_given(*old(self), now, id@, handle, reading, result, *self));
            return result;
        }
        let mut waiters: Waiters = match self.waiters.remove(id) {
            Some(waiters) => waiters,
            None => Waiters::new(),
        };
        let added: bool = waiters.add_ack_waiter(handle);
        let _ = self.waiters.insert(id.to_owned(), waiters);
        let result: Result<AckSubscription, SubscribeError> = if added {
            assert(self.waiters() =~= with_ack_waiter(old(self).waiters(), id@, handle));
            Ok(AckSubscription::Waiting(handle))
        } else {
            assert(self.waiters() =~= old(self).waiters());
            Err(SubscribeError::WaiterLimitReached)
        };
        assert(Self::subscribed_given(*old(self), now, id@, handle, reading, result, *self));
        result
    }

    /// Subscribes the request with the given handle to the acknowledgement of this entry.
    ///
    /// Returns `Err(SubscribeError::NotFound)` if entry missing/expired,
    /// `Err(SubscribeError::WaiterLimitReached)` if waiter limit reached.
    pub fn subscribe_ack(&mut self, id: &str, handle: u64) -> (result: Result<
        AckSubscription,
        SubscribeError,
    >)
        requires
            old(self).wf(),
        ensures
            exists|now: i64|
                now >= 0 && clock_reads(now) && #[trigger] Self::ack_subscribed(
                    *old(self),
                    now,
                    id@,
                    handle,
                    result,
                    *final(self),
                ),
            exists|list: &mut Self, now: i64|
                *list == *old(self) && *final(list) == *final(self) && clock_reads(now)
                    && #[trigger] call_ensures(
                    Self::subscribe_ack_at,
                    (list, now, id, handle),
                    result,
                ),
    {
        let now: i64 = unix_timestamp_millis();
        self.subscribe_ack_at(now, id, handle)
    }

    /// Checks for a message at `now`, and subscribes the request with the given handle if there is
    /// none.
    pub fn get_or_subscribe_at(&mut self, now: i64, id: &str, handle: u64) -> (result: Result<
        GetOrSubscribeResult,
        SubscribeError,
    >)
        requires
            old(self).wf(),
        ensures
            Self::message_requested(*old(self), now, id@, handle, result, *final(self)),
            final(self).repository() == old(self).repository(),
            exists|answer: Result<Option<StoredEntry>, StorageError>|
                #[trigger] call_ensures(R::get, (&old(self).repository(), id), answer)
                    && Self::requested_given(
                    *old(self),
                    now,
                    id@,
                    handle,
                    reading_of(answer),
                    result,
                    *final(self),
                ),
    {
        let answer: Result<Option<StoredEntry>, StorageError> = self.repository.get(id);
        let ghost reading = reading_of(answer);
        assert(self.may_read(id@, reading));
        if let Some(entry) = live_entry(answer, now) {
            if let Some(message) = entry_message(entry) {
                let result = Ok(GetOrSubscribeResult::Message(message));
                assert(Self::requested_given(
                    *old(self),
                    now,
                    id@,
                    handle,
                    reading,
                    result,
                    *self,
                ));
                return result;
            }
        }
        let mut waiters: Waiters = match self.waiters.remove(id) {
            Some(waiters) => waiters,
            None => Waiters::new(),
        };
        let added: bool = waiters.add_message_waiter(handle);
        let _ = self.waiters.insert(id.to_owned(), waiters);
        let result: Result<GetOrSubscribeResult, SubscribeError> = if added {
            assert(self.waiters() =~= with_message_waiter(old(self).waiters(), id@, handle));
            Ok(GetOrSubscribeResult::Waiting(handle))
        } else {
            assert(self.waiters() =~= old(self).waiters());
            Err(SubscribeError::WaiterLimitReached)
        };
        assert(Self::requested_given(*old(self), now, id@, handle, reading, result, *self));
        result
    }

    /// Atomically checks for message and subscribes if not present.
    ///
    /// A separate "check then subscribe" would miss messages arriving between the two operations.
    ///
    /// Creates a waiter entry if no message exists, allowing waiters to register before any
    /// message is stored (consumer arrives before producer).
    pub fn get_or_subscribe(&mut self, id: &str, handle: u64) -> (result: Result<
        GetOrSubscribeResult,
        SubscribeError,
    >)
        requires
            old(self).wf(),
        ensures
            exists|now: i64|
                now >= 0 && clock_reads(now) && #[trigger] Self::message_requested(
                    *old(self),
                    now,
                    id@,
                    handle,
                    result,
                    *final(self),
                ),
            exists|list: &mut Self, now: i64|
                *list == *old(self) && *final(list) == *final(self) && clock_reads(now)
                    && #[trigger] call_ensures(
                    Self::get_or_subscribe_at,
                    (list, now, id, handle),
                    result,
                ),
    {
        let now: i64 = unix_timestamp_millis();
        self.get_or_subscribe_at(now, id, handle)
    }

    /// The ids, among those that somebody waits for, whose entry has expired at `now`, and whether
    /// the repository answered for all of them.
    fn expired_keys(&self, now: i64) -> (keys: (Keyed<()>, bool))
        requires
            self.wf(),
        ensures
            keys.0.wf(),
            self.certain() ==> keys.1,
            forall|id: Seq<char>| #[trigger]
                self.waiters().contains_key(id) ==> self.found_overdue(
                    id,
                    now,
                    keys.0@.contains_key(id),
                ),
            !keys.1 ==> exists|id: Seq<char>|
                self.waiters().contains_key(id) && #[trigger] self.reading_may_fail(id),
            self.exclusive() ==> forall|id: Seq<char>| #[trigger]
                keys.0@.contains_key(id) ==> is_overdue(self.rows(), id, now),
            self.exclusive() && keys.1 ==> forall|id: Seq<char>| #[trigger]
                self.waiters().contains_key(id) && is_overdue(self.rows(), id, now)
                    ==> keys.0@.contains_key(id),
    {
        let mut expired: Keyed<()> = Keyed::new();
        let mut answered: bool = true;
        let len: usize = self.waiters.len();
        let mut i: usize = 0;
        proof {
            self.waiters.keys_are_domain();
        }
        while i < len
            invariant
                self.wf(),
                expired.wf(),
                i <= len == self.waiters.keys().len(),
                self.exclusive() ==> forall|id: Seq<char>| #[trigger]
                    expired@.contains_key(id) ==> is_overdue(self.rows(), id, now),
                self.certain() ==> answered,
                forall|j: int|
                    0 <= j < i ==> self.found_overdue(
                        #[trigger] self.waiters.keys()[j],
                        now,
                        expired@.contains_key(self.waiters.keys()[j]),
                    ),
                forall|id: Seq<char>| #[trigger]
                    expired@.contains_key(id) ==> exists|j: int|
                        0 <= j < i && #[trigger] self.waiters.keys()[j] == id,
                self.waiters.keys().no_duplicates(),
                !answered ==> exists|id: Seq<char>|
                    self.waiters().contains_key(id) && #[trigger] self.reading_may_fail(id),
                self.exclusive() && answered ==> forall|j: int|
                    0 <= j < i && is_overdue(
                        self.rows(),
                        #[trigger] self.waiters.keys()[j],
                        now,
                    ) ==> expired@.contains_key(self.waiters.keys()[j]),
            decreases len - i,
        {
            let key: &String = self.waiters.entry(i).0;
            let ghost was_expired = expired@;
            proof {
                if was_expired.contains_key(key@) {
                    let j = choose|j: int| 0 <= j < i && #[trigger] self.waiters.keys()[j] == key@;
                    assert(self.waiters.keys()[j] == self.waiters.keys()[i as int]);
                }
            }
            let answer: Result<Option<StoredEntry>, StorageError> = self.repository.get(
                key.as_str(),
            );
            let ghost overdue = answer is Ok && answer->Ok_0 is Some && has_expired(
                now,
                answer->Ok_0->0.expires_at,
            );
            proof {
                let name = choose|name: &str|
                    name@ == key@ && #[trigger] call_ensures(
                        R::get,
                        (&self.repository, name),
                        answer,
                    );
                assert(call_ensures(R::get, (&self.repository(), name), answer));
                assert(self.found_overdue(key@, now, overdue));
            }
            // No entry yet or error - keep waiters
            match answer {
                Ok(Some(entry)) => {
                    if is_expired(now, entry.expires_at) {
                        let _ = expired.insert(key.clone(), ());
                    }
                },
                Ok(None) => {},
                Err(_) => {
                    assert(self.waiters().contains_key(key@) && self.reading_may_fail(key@));
                    answered = false;
                },
            }
            proof {
                assert(self.waiters.keys()[i as int] == key@);
                assert(expired@.contains_key(key@) == overdue);
                assert forall|j: int| 0 <= j < i implies expired@.contains_key(
                    #[trigger] self.waiters.keys()[j],
                ) == was_expired.contains_key(self.waiters.keys()[j]) by {
                    assert(self.waiters.keys()[j] != self.waiters.keys()[i as int]);
                }
            }
            i = i + 1;
        }
        proof {
            self.waiters.keys_are_domain();
            assert forall|id: Seq<char>| #[trigger]
                self.waiters().contains_key(id) implies self.found_overdue(
                id,
                now,
                expired@.contains_key(id),
            ) by {
                assert(self.waiters.keys().to_set().contains(id));
                let j = self.waiters.keys().index_of(id);
                assert(self.waiters.keys()[j] == id);
            }
            assert forall|id: Seq<char>| #[trigger]
                self.waiters().contains_key(id) && is_overdue(self.rows(), id, now)
                    && self.exclusive() && answered implies expired@.contains_key(id) by {
                assert(self.waiters.keys().to_set().contains(id));
                let j = self.waiters.keys().index_of(id);
                assert(self.waiters.keys()[j] == id);
            }
        }
        (expired, answered)
    }

    /// Takes off the list those under the ids in `expired`, and those in `closed`. Hands back the
    /// requests that were taken off.
    fn sweep_waiters(&mut self, expired: &Keyed<()>, closed: &Vec<u64>) -> (dropped: Vec<u64>)
        requires
            old(self).wf(),
            expired.wf(),
        ensures
            Self::same_repository(*old(self), *final(self)),
            final(self).repository() == old(self).repository(),
            final(self).rows() == old(self).rows(),
            final(self).waiters() == swept(old(self).waiters(), closed@, expired@.dom()),
            forall|handle: u64| #[trigger]
                dropped@.contains(handle) <==> exists|id: Seq<char>| #[trigger]
                    waits(old(self).waiters(), id, handle) && !waits(
                        final(self).waiters(),
                        id,
                        handle,
                    ),
            each_once(old(self).waiters()) ==> dropped@.no_duplicates(),
    {
        let ghost before = self.waiters();
        let ghost target = swept(before, closed@, expired@.dom());
        let mut dropped: Vec<u64> = Vec::new();
        let mut kept: Keyed<Waiters> = Keyed::new();
        let len: usize = self.waiters.len();
        let mut i: usize = 0;
        proof {
            self.waiters.keys_are_domain();
        }
        while i < len
            invariant
                *self == *old(self),
                self.wf(),
                expired.wf(),
                kept.wf(),
                before == self.waiters(),
                target == swept(before, closed@, expired@.dom()),
                self.waiters.keys().no_duplicates(),
                i <= len == self.waiters.keys().len(),
                forall|id: Seq<char>| #[trigger]
                    kept@.contains_key(id) <==> target.contains_key(id)
                        && self.waiters.keys().take(i as int).contains(id),
                forall|id: Seq<char>| #[trigger]
                    kept@.contains_key(id) ==> kept@[id]@ == target[id],
                forall|handle: u64| #[trigger]
                    dropped@.contains(handle) <==> exists|id: Seq<char>|
                        self.waiters.keys().take(i as int).contains(id) && #[trigger] waits(
                            before,
                            id,
                            handle,
                        ) && !waits(target, id, handle),
                each_once(before) ==> dropped@.no_duplicates(),
            decreases len - i,
        {
            let (key, waiters): (&String, &Waiters) = self.waiters.entry(i);
            let ghost seen = self.waiters.keys().take(i as int);
            let ghost now_seen = self.waiters.keys().take(i + 1);
            let ghost was_dropped = dropped@;
            let ghost was_kept = kept@;
            proof {
                assert(now_seen =~= seen.push(key@));
                assert forall|id: Seq<char>| #[trigger]
                    now_seen.contains(id) <==> seen.contains(id) || id == key@ by {
                    assert(seen.push(key@)[i as int] == key@);
                    if seen.contains(id) {
                        let j = seen.index_of(id);
                        assert(seen.push(key@)[j] == id);
                    }
                }
                assert(!seen.contains(key@)) by {
                    if seen.contains(key@) {
                        let j = seen.index_of(key@);
                        assert(self.waiters.keys()[j] == self.waiters.keys()[i as int]);
                    }
                }
                assert(before.contains_key(key@));
                assert(before[key@] == waiters@);
            }
            if expired.contains_key(key.as_str()) {
                waiters.drop_all(&mut dropped);
                assert(!target.contains_key(key@));
                assert forall|handle: u64| waits(before, key@, handle) && !waits(
                    target,
                    key@,
                    handle,
                ) <==> #[trigger] waiters@.has(handle) by {}
            } else {
                let open: Waiters = waiters.without_closed(closed, &mut dropped);
                if !open.is_empty() {
                    let _ = kept.insert(key.clone(), open);
                }
                assert forall|handle: u64| #[trigger]
                    waits(before, key@, handle) && !waits(target, key@, handle) <==> (waiters@.has(
                        handle,
                    ) && closed@.contains(handle)) by {
                    open_handles_members(waiters@.acks, closed@, handle);
                    open_handles_members(waiters@.messages, closed@, handle);
                    assert(open@.has(handle) <==> waiters@.has(handle) && !closed@.contains(
                        handle,
                    ));
                    if target.contains_key(key@) {
                        assert(target[key@] == open@);
                    } else {
                        assert(open@.is_idle());
                    }
                }
            }
            proof {
                if each_once(before) {
                    let taken = dropped@.skip(was_dropped.len() as int);
                    assert(dropped@ =~= was_dropped + taken);
                    if expired@.contains_key(key@) {
                        assert(taken =~= waiters@.acks + waiters@.messages);
                    } else {
                        assert(taken =~= closed_handles(waiters@.acks, closed@) + closed_handles(
                            waiters@.messages,
                            closed@,
                        ));
                        closed_handles_are_listed_once(
                            waiters@.acks,
                            waiters@.messages,
                            closed@,
                        );
                    }
                    assert forall|handle: u64| !(#[trigger] was_dropped.contains(handle)
                        && taken.contains(handle)) by {
                        if was_dropped.contains(handle) && taken.contains(handle) {
                            let id = choose|id: Seq<char>|
                                seen.contains(id) && #[trigger] waits(before, id, handle) && !waits(
                                    target,
                                    id,
                                    handle,
                                );
                            taken_handles_waited(waiters@, closed@, handle);
                            assert(waits(before, key@, handle));
                        }
                    }
                    lists_without_repetition_add_up(was_dropped, taken);
                }
                assert forall|handle: u64| #[trigger]
                    dropped@.contains(handle) <==> exists|id: Seq<char>|
                        now_seen.contains(id) && #[trigger] waits(before, id, handle) && !waits(
                            target,
                            id,
                            handle,
                        ) by {
                    assert(dropped@.contains(handle) <==> was_dropped.contains(handle) || (waits(
                        before,
                        key@,
                        handle,
                    ) && !waits(target, key@, handle)));
                    if dropped@.contains(handle) {
                        if was_dropped.contains(handle) {
                            let id = choose|id: Seq<char>|
                                seen.contains(id) && #[trigger] waits(before, id, handle) && !waits(
                                    target,
                                    id,
                                    handle,
                                );
                            assert(now_seen.contains(id) && waits(before, id, handle));
                        } else {
                            assert(now_seen.contains(key@) && waits(before, key@, handle));
                        }
                    }
                }
                assert forall|id: Seq<char>| #[trigger]
                    kept@.contains_key(id) <==> target.contains_key(id) && now_seen.contains(
                        id,
                    ) by {
                    assert(was_kept.contains_key(id) <==> target.contains_key(id)
                        && seen.contains(id));
                }
            }
            i = i + 1;
        }
        proof {
            assert(self.waiters.keys().take(len as int) =~= self.waiters.keys());
            assert forall|id: Seq<char>| before.contains_key(id) implies
                #[trigger] self.waiters.keys().contains(id) by {
                assert(self.waiters.keys().to_set().contains(id));
            }
        }
        self.waiters = kept;
        proof {
            assert(self.waiters() =~= target);
            assert(all_bounded(self.waiters())) by {
                assert forall|id: Seq<char>| #[trigger] target.contains_key(id) implies
                    !target[id].is_idle() && target[id].within_limit() by {
                    open_handles_members(before[id].acks, closed@, 0);
                    open_handles_members(before[id].messages, closed@, 0);
                }
            }
            assert forall|handle: u64| #[trigger]
                dropped@.contains(handle) <==> exists|id: Seq<char>| #[trigger]
                    waits(before, id, handle) && !waits(target, id, handle) by {
                if exists|id: Seq<char>| #[trigger]
                    waits(before, id, handle) && !waits(target, id, handle) {
                    let id = choose|id: Seq<char>| #[trigger]
                        waits(before, id, handle) && !waits(target, id, handle);
                    assert(old(self).waiters.keys().contains(id) && waits(before, id, handle));
                }
            }
        }
        dropped
    }

    /// Removes the entries that have expired at `now` and cleans up stale waiters: those whose
    /// request has gone away, listed in `closed`, and those of entries that have expired.
    pub fn cleanup_expired_at(&mut self, now: i64, closed: &Vec<u64>) -> (outcome: CleanupOutcome)
        requires
            old(self).wf(),
        ensures
            Self::cleaned_up(*old(self), now, closed@, outcome, *final(self)),
            exists|repository: &mut R, deletion: Result<usize, StorageError>|
                {
                    &&& *repository == old(self).repository()
                    &&& *final(repository) == final(self).repository()
                    &&& outcome.removed == match deletion {
                        Ok(removed) => removed,
                        Err(_) => 0,
                    }
                    &&& #[trigger] call_ensures(
                        R::cleanup_expired_at,
                        (repository, now),
                        deletion,
                    )
                },
    {
        // Identify expired entries BEFORE deleting them from repository
        // (so we can clean up their waiters)
        let (expired, answered): (Keyed<()>, bool) = self.expired_keys(now);
        proof {
            assert forall|id: Seq<char>| #[trigger]
                old(self).waiters().contains_key(id) implies old(self).found_overdue(
                id,
                now,
                expired@.dom().contains(id),
            ) by {
                assert(self.found_overdue(id, now, expired@.contains_key(id)));
            }
        }
        let deletion: Result<usize, StorageError> = self.repository.cleanup_expired_at(now);
        let removed: usize = match deletion {
            Ok(count) => count,
            Err(_) => 0,
        };
        let dropped: Vec<u64> = self.sweep_waiters(&expired, closed);
        let outcome = CleanupOutcome { removed, dropped };
        assert(Self::cleaned_given(
            *old(self),
            now,
            closed@,
            expired@.dom(),
            answered && deletion is Ok,
            outcome,
            *self,
        ));
        outcome
    }

    /// Removes expired entries and cleans up stale waiters: those whose request has gone away,
    /// listed in `closed`, and those of entries that have expired.
    pub fn cleanup_expired(&mut self, closed: &Vec<u64>) -> (outcome: CleanupOutcome)
        requires
            old(self).wf(),
        ensures
            exists|now: i64|
                now >= 0 && clock_reads(now) && #[trigger] Self::cleaned_up(
                    *old(self),
                    now,
                    closed@,
                    outcome,
                    *final(self),
                ),
            exists|list: &mut Self, now: i64|
                *list == *old(self) && *final(list) == *final(self) && clock_reads(now)
                    && #[trigger] call_ensures(
                    Self::cleanup_expired_at,
                    (list, now, closed),
                    outcome,
                ),
    {
        let now: i64 = unix_timestamp_millis();
        self.cleanup_expired_at(now, closed)
    }

    /// Returns the number of entries in the repository.
    pub fn len(&self) -> (len: usize)
        requires
            self.wf(),
        ensures
            self.certain() ==> len == self.rows().len(),
            self.exclusive() && len > 0 ==> len == self.rows().len(),
            self.exclusive() && !self.counting_may_fail() ==> len == self.rows().len(),
            exists|answer: Result<usize, StorageError>|
                #[trigger] call_ensures(R::count, (&self.repository(),), answer) && len
                    == match answer {
                    Ok(count) => count,
                    Err(_) => 0,
                },
    {
        let answer: Result<usize, StorageError> = self.repository.count();
        assert(call_ensures(R::count, (&self.repository(),), answer));
        match answer {
            Ok(count) => count,
            Err(_) => 0,
        }
    }

    /// Returns true if the repository is empty.
    pub fn is_empty(&self) -> (empty: bool)
        requires
            self.wf(),
        ensures
            self.certain() ==> empty == (self.rows().len() == 0),
            self.exclusive() && !empty ==> self.rows().len() > 0,
            self.exclusive() && !self.counting_may_fail() ==> empty == (self.rows().len() == 0),
            exists|len: usize| #[trigger]
                call_ensures(Self::len, (self,), len) && empty == (len == 0),
    {
        self.len() == 0
    }

    /// Returns true if some request waits under `id`.
    pub fn has_waiters(&self, id: &str) -> (waiting: bool)
        requires
            self.wf(),
        ensures
            waiting == self.waiters().contains_key(id@),
    {
        self.waiters.contains_key(id)
    }
}

impl WaitingList<EntryRepository> {
    /// Creates a WaitingList with an in-memory SQLite repository.
    pub fn new_in_memory(max_entries: usize) -> (result: Result<Self, StorageError>)
        ensures
            result matches Ok(list) ==> {
                &&& list.wf()
                &&& list.exclusive()
                &&& list.limit() == max_entries
                &&& list.file() is None
                &&& list.rows() == Entries::empty()
                &&& list.waiters() == WaiterMap::empty()
            },
            result matches Err(error) ==> error == StorageError::OpenInMemory || error
                == StorageError::CreateSchema,
            result matches Err(error) ==> opening_may_fail(None, error),
            result matches Ok(list) ==> exists|repository: EntryRepository|
                list.repository() == repository && #[trigger] call_ensures(
                    EntryRepository::new,
                    (None, max_entries),
                    Ok(repository),
                ),
    {
        match EntryRepository::new(None, max_entries) {
            Ok(repository) => Ok(Self::new(repository)),
            Err(error) => Err(error),
        }
    }
}

} // verus!
