//! What every call of a repository's operations does, in either repository.
//!
//! Each statement is about a call: if a call on the repository behind `repository` can end with
//! this result, then what is stated holds, whatever the repository and the arguments. `before` is
//! the repository before the call, and `after` the repository after it. What becomes of the rows is
//! said id by id.

use crate::clock::unix_timestamp_millis;
use crate::entries::{fresh_record, insertion_spares, is_oldest, Record, StoredEntry};
use crate::payload::{optional_bytes, optional_text};
use crate::persistence::{
    change_answer, count_answer, entry_answer, eviction_needed, EntryRepository, Row,
};
use crate::repository::{optional_str, Repository, StorageError};
use crate::storage_memory;
use std::path::PathBuf;
use vstd::prelude::*;

verus! {

/// An insertion writes exactly what it was given: the body, the content type, the expiry and the
/// time of writing, not acknowledged.
pub proof fn inserts_write_what_they_are_given<R: Repository>(
    repository: Ghost<&mut R>,
    before: R,
    id: &str,
    body: &[u8],
    content_type: Option<&str>,
    expires_at: i64,
    created_at: i64,
    result: Result<(), StorageError>,
    after: R,
)
    requires
        call_ensures(
            R::insert_at,
            (repository@, id, body, content_type, expires_at, created_at),
            result,
        ),
        before == *repository@,
        after == *final(repository@),
        before.exclusive(),
        result is Ok,
    ensures
        after.rows().contains_key(id@),
        after.rows()[id@].entry.message_body == Some(body@),
        after.rows()[id@].entry.content_type is Some <==> content_type is Some,
        content_type matches Some(text) ==> after.rows()[id@].entry.content_type == Some(text@),
        !after.rows()[id@].entry.acked,
        after.rows()[id@].entry.expires_at == expires_at,
        after.rows()[id@].created_at == created_at,
{
    insertion_spares(
        before.rows(),
        before.limit(),
        id@,
        fresh_record(body@, optional_str(content_type), expires_at, created_at),
        after.rows(),
    );
}

/// While there are fewer rows than the limit, and whenever a row is replaced, an insertion takes no
/// other row away and touches none.
pub proof fn inserts_spare_rows_below_limit<R: Repository>(
    repository: Ghost<&mut R>,
    before: R,
    id: &str,
    body: &[u8],
    content_type: Option<&str>,
    expires_at: i64,
    created_at: i64,
    result: Result<(), StorageError>,
    after: R,
)
    requires
        call_ensures(
            R::insert_at,
            (repository@, id, body, content_type, expires_at, created_at),
            result,
        ),
        before == *repository@,
        after == *final(repository@),
        before.exclusive(),
        result is Ok,
        before.rows().len() < before.limit() || before.rows().contains_key(id@),
    ensures
        forall|other: Seq<char>| other != id@ ==> (#[trigger] after.rows().contains_key(other)
            <==> before.rows().contains_key(other)),
        forall|other: Seq<char>| other != id@ && #[trigger] after.rows().contains_key(other)
            ==> after.rows()[other] == before.rows()[other],
{
}

/// A new row that meets as many as the limit, or more, takes the place of one of them: of one that
/// none was written before. No other row goes or is touched.
pub proof fn inserts_evict_the_oldest_at_limit<R: Repository>(
    repository: Ghost<&mut R>,
    before: R,
    id: &str,
    body: &[u8],
    content_type: Option<&str>,
    expires_at: i64,
    created_at: i64,
    result: Result<(), StorageError>,
    after: R,
)
    requires
        call_ensures(
            R::insert_at,
            (repository@, id, body, content_type, expires_at, created_at),
            result,
        ),
        before == *repository@,
        after == *final(repository@),
        before.wf(),
        before.exclusive(),
        result is Ok,
        before.rows().len() >= before.limit(),
        before.rows().len() > 0,
        !before.rows().contains_key(id@),
    ensures
        exists|victim: Seq<char>|
            {
                &&& #[trigger] before.rows().contains_key(victim)
                &&& !after.rows().contains_key(victim)
                &&& forall|other: Seq<char>| #[trigger]
                    before.rows().contains_key(other) ==> before.rows()[victim].created_at
                        <= before.rows()[other].created_at
                &&& forall|other: Seq<char>| #[trigger]
                    before.rows().contains_key(other) && other != victim
                        ==> after.rows().contains_key(other) && after.rows()[other]
                        == before.rows()[other]
            },
        forall|other: Seq<char>| #[trigger]
            after.rows().contains_key(other) && other != id@ ==> before.rows().contains_key(other),
        after.rows().len() == before.rows().len(),
{
    before.rows_are_finite();
    let record = fresh_record(body@, optional_str(content_type), expires_at, created_at);
    let victim = choose|victim: Seq<char>| #[trigger]
        is_oldest(before.rows(), victim) && after.rows() == before.rows().remove(victim).insert(
            id@,
            record,
        );
    assert(before.rows().contains_key(victim) && !after.rows().contains_key(victim));
    assert(after.rows().dom() =~= before.rows().dom().remove(victim).insert(id@));
}

/// An insertion fails only where inserting under this id can, and never for want of room while
/// there is room.
pub proof fn inserts_fail_with_their_record<R: Repository>(
    repository: Ghost<&mut R>,
    before: R,
    id: &str,
    body: &[u8],
    content_type: Option<&str>,
    expires_at: i64,
    created_at: i64,
    result: Result<(), StorageError>,
    after: R,
)
    requires
        call_ensures(
            R::insert_at,
            (repository@, id, body, content_type, expires_at, created_at),
            result,
        ),
        before == *repository@,
        after == *final(repository@),
        result is Err,
    ensures
        exists|record: Record| #[trigger]
            before.inserting_may_fail(id@, record, result->Err_0) && record.created_at == created_at
                && record.entry.expires_at == expires_at
                    && record.entry.message_body == Some(body@),
        before.exclusive() && before.rows().len() < before.limit() ==> result->Err_0
            != StorageError::Evict,
{
    let record = fresh_record(body@, optional_str(content_type), expires_at, created_at);
    assert(before.inserting_may_fail(id@, record, result->Err_0));
}

/// A lookup finds an entry exactly if there is a row, and gives the row's columns as they are. It
/// fails only where reading the entry can.
pub proof fn lookups_give_what_is_there<R: Repository>(
    repository: R,
    id: &str,
    result: Result<Option<StoredEntry>, StorageError>,
)
    requires
        call_ensures(R::get, (&repository, id), result),
    ensures
        result matches Err(error) ==> error == StorageError::Get
            && repository.reading_may_fail(id@),
        repository.exclusive() ==> (result matches Ok(found) ==> (found is Some
            <==> repository.rows().contains_key(id@))),
        repository.exclusive() ==> (result matches Ok(Some(entry)) ==> {
            &&& optional_bytes(entry.message_body) == repository.rows()[id@].entry.message_body
            &&& optional_text(entry.content_type) == repository.rows()[id@].entry.content_type
            &&& entry.acked == repository.rows()[id@].entry.acked
            &&& entry.expires_at == repository.rows()[id@].entry.expires_at
        }),
{
}

/// An acknowledgement finds an entry exactly if there is a row. The row is marked and loses its
/// body; its other columns and all other rows stay. It fails only where marking this entry can.
pub proof fn acks_mark_one_row<R: Repository>(
    repository: Ghost<&mut R>,
    before: R,
    id: &str,
    result: Result<bool, StorageError>,
    after: R,
)
    requires
        call_ensures(R::ack, (repository@, id), result),
        before == *repository@,
        after == *final(repository@),
    ensures
        result matches Err(error) ==> error == StorageError::Acknowledge
            && before.marking_may_fail(id@),
        before.exclusive() && result is Ok ==> result->Ok_0 == before.rows().contains_key(id@),
        before.exclusive() && result is Ok
            ==> after.rows().remove(id@) == before.rows().remove(id@),
        before.exclusive() && result is Ok ==> (after.rows().contains_key(id@)
            <==> before.rows().contains_key(id@)),
        before.exclusive() && result is Ok && before.rows().contains_key(id@) ==> {
            &&& after.rows()[id@].entry.acked
            &&& after.rows()[id@].entry.message_body is None
            &&& after.rows()[id@].entry.content_type == before.rows()[id@].entry.content_type
            &&& after.rows()[id@].entry.expires_at == before.rows()[id@].entry.expires_at
            &&& after.rows()[id@].created_at == before.rows()[id@].created_at
        },
{
    if before.exclusive() && result is Ok {
        assert(after.rows().remove(id@) =~= before.rows().remove(id@));
    }
}

/// A deletion finds an entry exactly if there is a row, takes that row away and leaves all others.
/// It fails only where deleting this entry can.
pub proof fn deletes_take_one_row<R: Repository>(
    repository: Ghost<&mut R>,
    before: R,
    id: &str,
    result: Result<bool, StorageError>,
    after: R,
)
    requires
        call_ensures(R::delete, (repository@, id), result),
        before == *repository@,
        after == *final(repository@),
    ensures
        result matches Err(error) ==> error == StorageError::Delete
            && before.deleting_may_fail(id@),
        before.exclusive() && result is Ok ==> result->Ok_0 == before.rows().contains_key(id@),
        before.exclusive() && result is Ok ==> !after.rows().contains_key(id@),
        before.exclusive() && result is Ok ==> forall|other: Seq<char>| other != id@ ==> (
            #[trigger] after.rows().contains_key(other) <==> before.rows().contains_key(other)),
        before.exclusive() && result is Ok ==> forall|other: Seq<char>| #[trigger]
            after.rows().contains_key(other) ==> after.rows()[other] == before.rows()[other],
{
}

/// A cleanup takes away every row whose expiry lies before the time given, leaves every other as it
/// is, and counts what it took. It fails only where cleaning up at that time can.
pub proof fn cleanups_take_expired_rows<R: Repository>(
    repository: Ghost<&mut R>,
    before: R,
    now: i64,
    result: Result<usize, StorageError>,
    after: R,
)
    requires
        call_ensures(R::cleanup_expired_at, (repository@, now), result),
        before == *repository@,
        after == *final(repository@),
    ensures
        result matches Err(error) ==> error == StorageError::Cleanup
            && before.cleaning_may_fail(now),
        before.exclusive() && result is Ok ==> forall|id: Seq<char>| #[trigger]
            after.rows().contains_key(id) <==> before.rows().contains_key(id)
                && before.rows()[id].entry.expires_at >= now,
        before.exclusive() && result is Ok ==> forall|id: Seq<char>| #[trigger]
            after.rows().contains_key(id) ==> after.rows()[id] == before.rows()[id],
        before.exclusive() && result is Ok
            ==> result->Ok_0 + after.rows().len() == before.rows().len(),
{
}

/// A count is the number of ids that have a row. It fails only where counting can.
pub proof fn counts_are_of_rows<R: Repository>(repository: R, result: Result<usize, StorageError>)
    requires
        call_ensures(R::count, (&repository,), result),
    ensures
        result matches Err(error) ==> error == StorageError::Count
            && repository.counting_may_fail(),
        repository.exclusive() ==> (result matches Ok(count)
            ==> count == repository.rows().dom().len()),
{
}

/// Room has to be made exactly for a new entry that meets as many entries as the limit, or more,
/// unless there are none to make way.
pub proof fn room_is_made_at_limit(count: usize, max_entries: usize, present: bool, needed: bool)
    requires
        call_ensures(eviction_needed, (count, max_entries, present), needed),
    ensures
        count < max_entries ==> !needed,
        present ==> !needed,
        count == 0 ==> !needed,
        !present && count >= max_entries && count > 0 ==> needed,
{
}

/// An insertion into SQLite is one at a time of writing that the clock read.
pub proof fn sqlite_inserts_by_the_clock(
    repository: Ghost<&mut EntryRepository>,
    before: EntryRepository,
    id: &str,
    body: &[u8],
    content_type: Option<&str>,
    expires_at: i64,
    result: Result<(), StorageError>,
    after: EntryRepository,
)
    requires
        call_ensures(
            EntryRepository::insert,
            (repository@, id, body, content_type, expires_at),
            result,
        ),
        before == *repository@,
        after == *final(repository@),
    ensures
        exists|timed: &mut EntryRepository, created_at: i64|
            {
                &&& *timed == before
                &&& *final(timed) == after
                &&& call_ensures(unix_timestamp_millis, (), created_at)
                &&& #[trigger] call_ensures(
                    EntryRepository::insert_at,
                    (timed, id, body, content_type, expires_at, created_at),
                    result,
                )
            },
{
}

/// A cleanup of SQLite is one at a time that the clock read.
pub proof fn sqlite_cleans_up_by_the_clock(
    repository: Ghost<&mut EntryRepository>,
    before: EntryRepository,
    result: Result<usize, StorageError>,
    after: EntryRepository,
)
    requires
        call_ensures(EntryRepository::cleanup_expired, (repository@,), result),
        before == *repository@,
        after == *final(repository@),
    ensures
        exists|timed: &mut EntryRepository, now: i64|
            {
                &&& *timed == before
                &&& *final(timed) == after
                &&& call_ensures(unix_timestamp_millis, (), now)
                &&& #[trigger] call_ensures(
                    EntryRepository::cleanup_expired_at,
                    (timed, now),
                    result,
                )
            },
{
}

/// An insertion into the repository in memory is one at a time of writing that the clock read.
pub proof fn memory_inserts_by_the_clock(
    repository: Ghost<&mut storage_memory::EntryRepository>,
    before: storage_memory::EntryRepository,
    id: &str,
    body: &[u8],
    content_type: Option<&str>,
    expires_at: i64,
    result: Result<(), StorageError>,
    after: storage_memory::EntryRepository,
)
    requires
        call_ensures(
            storage_memory::EntryRepository::insert,
            (repository@, id, body, content_type, expires_at),
            result,
        ),
        before == *repository@,
        after == *final(repository@),
    ensures
        exists|timed: &mut storage_memory::EntryRepository, created_at: i64|
            {
                &&& *timed == before
                &&& *final(timed) == after
                &&& call_ensures(unix_timestamp_millis, (), created_at)
                &&& #[trigger] call_ensures(
                    storage_memory::EntryRepository::insert_at,
                    (timed, id, body, content_type, expires_at, created_at),
                    result,
                )
            },
{
}

/// A cleanup of the repository in memory is one at a time that the clock read.
pub proof fn memory_cleans_up_by_the_clock(
    repository: Ghost<&mut storage_memory::EntryRepository>,
    before: storage_memory::EntryRepository,
    result: Result<usize, StorageError>,
    after: storage_memory::EntryRepository,
)
    requires
        call_ensures(storage_memory::EntryRepository::cleanup_expired, (repository@,), result),
        before == *repository@,
        after == *final(repository@),
    ensures
        exists|timed: &mut storage_memory::EntryRepository, now: i64|
            {
                &&& *timed == before
                &&& *final(timed) == after
                &&& call_ensures(unix_timestamp_millis, (), now)
                &&& #[trigger] call_ensures(
                    storage_memory::EntryRepository::cleanup_expired_at,
                    (timed, now),
                    result,
                )
            },
{
}

/// An answer from the database is passed on as it is: the columns of the row that was found, that
/// there is none, or that it could not be read.
pub proof fn database_answers_are_passed_on(
    answer: Result<Option<Row>, rusqlite::Error>,
    result: Result<Option<StoredEntry>, StorageError>,
)
    requires
        call_ensures(entry_answer, (answer,), result),
    ensures
        result is Err <==> answer is Err,
        result matches Err(error) ==> error == StorageError::Get,
        result matches Ok(found) ==> (found is Some <==> answer->Ok_0 is Some),
        answer matches Ok(Some(row)) ==> (result matches Ok(Some(entry))
            && entry.message_body == row.0
            && entry.content_type == row.1 && (entry.acked <==> row.2 != 0) && entry.expires_at
            == row.3),
{
}

/// There was a row to change exactly if the database changed some. A failure is reported as the one
/// that was named.
pub proof fn changes_are_told_from_none(
    answer: Result<usize, rusqlite::Error>,
    failure: StorageError,
    result: Result<bool, StorageError>,
)
    requires
        call_ensures(change_answer, (answer, failure), result),
    ensures
        result is Err <==> answer is Err,
        result matches Err(error) ==> error == failure,
        result matches Ok(changed) ==> (changed <==> answer->Ok_0 > 0),
{
}

/// A number of rows is passed on wherever it fits.
pub proof fn row_counts_are_passed_on(
    answer: Result<i64, rusqlite::Error>,
    result: Result<usize, StorageError>,
)
    requires
        call_ensures(count_answer, (answer,), result),
    ensures
        answer is Err ==> result is Err,
        answer matches Ok(count) ==> (result is Ok <==> 0 <= count <= usize::MAX),
        result matches Ok(count) ==> count == answer->Ok_0,
        result matches Err(error) ==> error == StorageError::Count,
{
}

/// An insertion that names an entry to delete takes that one away, and one that names none takes
/// none; the new entry is written as it was given.
pub proof fn evicting_inserts_take_whom_they_name(
    repository: Ghost<&mut EntryRepository>,
    before: EntryRepository,
    victim: Option<String>,
    id: &str,
    body: &[u8],
    content_type: Option<&str>,
    expires_at: i64,
    created_at: i64,
    result: Result<(), StorageError>,
    after: EntryRepository,
)
    requires
        call_ensures(
            EntryRepository::insert_evicting,
            (repository@, victim, id, body, content_type, expires_at, created_at),
            result,
        ),
        before == *repository@,
        after == *final(repository@),
        before.exclusive(),
        result is Ok,
    ensures
        after.rows().contains_key(id@),
        after.rows()[id@].entry.message_body == Some(body@),
        !after.rows()[id@].entry.acked,
        after.rows()[id@].entry.expires_at == expires_at,
        after.rows()[id@].created_at == created_at,
        after.rows()[id@].entry.content_type is Some <==> content_type is Some,
        content_type matches Some(text) ==> after.rows()[id@].entry.content_type == Some(text@),
        forall|other: Seq<char>| other != id@ ==> (#[trigger] after.rows().contains_key(other)
            <==> before.rows().contains_key(other) && !(victim is Some && victim->0@ == other)),
        forall|other: Seq<char>| other != id@ && #[trigger] after.rows().contains_key(other)
            ==> after.rows()[other] == before.rows()[other],
{
}

/// An error is described by a sentence of its own.
pub proof fn errors_are_described(error: StorageError, message: &'static str)
    requires
        call_ensures(StorageError::message, (&error,), message),
    ensures
        error == StorageError::OpenFile ==> message@ == "Failed to open SQLite database file"@,
        error == StorageError::OpenInMemory
            ==> message@ == "Failed to open in-memory SQLite database"@,
        error == StorageError::EnableWal ==> message@ == "Failed to enable WAL mode"@,
        error == StorageError::CreateSchema ==> message@ == "Failed to create database schema"@,
        error == StorageError::Count ==> message@ == "Failed to count entries"@,
        error == StorageError::Evict
            ==> message@ == "Failed to delete oldest entry for LRU eviction"@,
        error == StorageError::Insert ==> message@ == "Failed to insert entry"@,
        error == StorageError::Get ==> message@ == "Failed to get entry"@,
        error == StorageError::Acknowledge ==> message@ == "Failed to acknowledge entry"@,
        error == StorageError::Delete ==> message@ == "Failed to delete entry"@,
        error == StorageError::Cleanup ==> message@ == "Failed to cleanup expired entries"@,
{
}

/// A new SQLite repository has the limit and the file that were asked for; one in memory starts
/// empty.
pub proof fn sqlite_starts_as_asked(
    path: Option<&PathBuf>,
    max_entries: usize,
    result: Result<EntryRepository, StorageError>,
)
    requires
        call_ensures(EntryRepository::new, (path, max_entries), result),
    ensures
        result matches Ok(repository) ==> repository.wf() && repository.limit() == max_entries,
        result matches Ok(repository) ==> (repository.file() is Some <==> path is Some),
        result matches Ok(repository) ==> (path matches Some(file)
            ==> repository.file() == Some(*file)),
        result matches Ok(repository) ==> (path is None ==> repository.exclusive()
            && forall|id: Seq<char>| !#[trigger] repository.rows().contains_key(id)),
        result matches Err(error) ==> error == StorageError::OpenInMemory
            || error == StorageError::OpenFile || error == StorageError::EnableWal
            || error == StorageError::CreateSchema,
        path is None ==> (result matches Err(error) ==> error != StorageError::OpenFile
            && error != StorageError::EnableWal),
{
}

/// A new repository in memory is there, empty, with the limit that was asked for, and never fails.
pub proof fn memory_starts_as_asked(
    path: Option<&PathBuf>,
    max_entries: usize,
    result: Result<storage_memory::EntryRepository, StorageError>,
)
    requires
        call_ensures(storage_memory::EntryRepository::new, (path, max_entries), result),
    ensures
        result is Ok,
        result->Ok_0.wf(),
        result->Ok_0.limit() == max_entries,
        result->Ok_0.exclusive(),
        result->Ok_0.dependable(),
        forall|id: Seq<char>| !#[trigger] result->Ok_0.rows().contains_key(id),
{
}

} // verus!
