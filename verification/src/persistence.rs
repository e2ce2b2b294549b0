//! SQLite-based persistence for relay entries.
//!
//! Provides durable storage with automatic eviction of the oldest entry when the entry count
//! would exceed the configured maximum. Supports both file-based and in-memory SQLite.
//!
//! What is proved here is proved of an in-memory database, which nothing but its one connection
//! can reach. A database file may be written to by other programs between two statements; of its
//! contents nothing is claimed, but that each operation runs its statements on it and answers with
//! what came of them; the code that runs on it is the same. Nor is anything claimed of the rows that
//! a failed statement leaves behind.
//!
//! That an operation can fail means that a statement which it runs can be answered with an error:
//! the `.._may_fail` and `.._answers` below say so of the statement, the connection and the
//! arguments, and nothing else makes an operation fail.

use crate::clock::{clock_reads, unix_timestamp_millis};
use crate::entries::{
    acknowledged, cleanup_is_counted, deletion_is_counted, expired, fresh_record, insertion,
    is_oldest, needs_room, unexpired, Entries, EntryView, Record, StoredEntry,
};
use crate::repository::{optional_str, Repository, StorageError};
use crate::payload::{optional_bytes, optional_text};
use rusqlite::Connection;
use std::path::PathBuf;
use vstd::prelude::*;

verus! {

/// Default maximum number of entries before eviction kicks in.
pub const DEFAULT_MAX_ENTRIES: usize = 10_000;

/// A connection to an SQLite database.
#[verifier::external_type_specification]
#[verifier::external_body]
pub struct ExConnection(rusqlite::Connection);

/// What SQLite or its Rust binding reports as wrong.
#[verifier::external_type_specification]
#[verifier::external_body]
pub struct ExSqliteError(rusqlite::Error);

/// A file system path.
#[verifier::external_type_specification]
#[verifier::external_body]
pub struct ExPathBuf(std::path::PathBuf);

/// The rows of the table `entries` in the connected database, by id: message body, content type,
/// acknowledgement mark, expiry and time of writing. Without such a table there are none.
pub uninterp spec fn table_rows(connection: &Connection) -> Map<
    Seq<char>,
    (Option<Seq<u8>>, Option<Seq<char>>, i64, i64, i64),
>;

/// The rows of the table `entries`, by id.
pub type Table = Map<Seq<char>, (Option<Seq<u8>>, Option<Seq<char>>, i64, i64, i64)>;

/// Nothing but this connection can reach the connected database.
pub uninterp spec fn is_private(connection: &Connection) -> bool;

/// The connected database holds a table `entries`.
pub uninterp spec fn has_table(connection: &Connection) -> bool;

/// The file that a connection was opened on, if it was opened on one.
pub uninterp spec fn opened_on(connection: &Connection) -> Option<PathBuf>;

/// The statement that switches the write-ahead log on has run on this connection.
pub uninterp spec fn logs_ahead(connection: &Connection) -> bool;

/// `Connection::open_in_memory`: the connection is to a new and empty database that no other
/// connection can reach, and to no file.
#[verifier::external_body]
fn open_in_memory() -> (result: Result<Connection, rusqlite::Error>)
    ensures
        result matches Ok(connection) ==> is_private(&connection) && table_rows(&connection)
            == Table::empty() && opened_on(&connection) is None,
{
    Connection::open_in_memory()
}

/// `Connection::open`: a connection opened on the file at `path`, to a table of finitely many rows.
/// Whether it can be opened, and what the rows are, depends on the file system, so nothing is
/// claimed of that.
#[verifier::external_body]
fn open_file(path: &PathBuf) -> (result: Result<Connection, rusqlite::Error>)
    ensures
        result matches Ok(connection) ==> opened_on(&connection) == Some(*path) && table_rows(
            &connection,
        ).dom().finite(),
{
    Connection::open(path)
}

/// `Connection::execute_batch`, to switch the write-ahead log on: on success the statement has run
/// (whether SQLite can use the log on this database is not claimed). Which file the connection was
/// opened on, and who else can reach the database, stays as it was. As after every statement, the
/// table holds finitely many rows.
#[verifier::external_body]
fn enable_wal(connection: &mut Connection) -> (result: Result<(), rusqlite::Error>)
    ensures
        is_private(final(connection)) == is_private(old(connection)),
        opened_on(final(connection)) == opened_on(old(connection)),
        table_rows(final(connection)).dom().finite(),
        result is Ok ==> logs_ahead(final(connection)),
{
    connection.execute_batch("PRAGMA journal_mode=WAL;")
}

/// `Connection::execute_batch`, to create the table and its indexes where they are missing: once
/// all statements have run a private database holds the table, and no row of it is touched.
#[verifier::external_body]
fn create_tables(connection: &mut Connection) -> (result: Result<(), rusqlite::Error>)
    ensures
        is_private(final(connection)) == is_private(old(connection)),
        opened_on(final(connection)) == opened_on(old(connection)),
        logs_ahead(final(connection)) == logs_ahead(old(connection)),
        table_rows(final(connection)).dom().finite(),
        is_private(old(connection)) && result is Ok ==> has_table(final(connection)),
        is_private(old(connection)) && result is Ok ==> table_rows(final(connection))
            == table_rows(old(connection)),
{
    connection.execute_batch(
        "CREATE TABLE IF NOT EXISTS entries (
            id TEXT PRIMARY KEY,
            message_body BLOB,
            content_type TEXT,
            acked INTEGER DEFAULT 0,
            expires_at INTEGER NOT NULL,
            created_at INTEGER NOT NULL
        );
        CREATE INDEX IF NOT EXISTS idx_expires_at ON entries(expires_at);
        CREATE INDEX IF NOT EXISTS idx_created_at ON entries(created_at);",
    )
}

/// `Connection::query_row`, to count the rows: the number that a private database holds.
#[verifier::external_body]
fn select_count(connection: &Connection) -> (result: Result<i64, rusqlite::Error>)
    requires
        is_private(connection) ==> has_table(connection),
    ensures
        is_private(connection) ==> (result matches Ok(count) ==> count == table_rows(
            connection,
        ).len()),
{
    connection.query_row("SELECT COUNT(*) FROM entries", [], |row| row.get(0))
}

/// `Connection::query_row`, to find the row written first: an id whose row in a private database
/// has the least time of writing. Which of several such rows it is stays open.
#[verifier::external_body]
fn select_oldest(connection: &Connection) -> (result: Result<String, rusqlite::Error>)
    requires
        is_private(connection) ==> has_table(connection),
    ensures
        is_private(connection) ==> (result matches Ok(id) ==> {
            &&& table_rows(connection).contains_key(id@)
            &&& forall|other: Seq<char>| #[trigger]
                table_rows(connection).contains_key(other) ==> table_rows(connection)[id@].4
                    <= table_rows(connection)[other].4
        }),
{
    connection.query_row(
        "SELECT id FROM entries ORDER BY created_at ASC LIMIT 1",
        [],
        |row| row.get(0),
    )
}

/// `Connection::query_row`, to read the row under `id` from a private database: its columns, or
/// none where SQLite reports that the query returned no rows.
#[verifier::external_body]
fn select_entry(connection: &Connection, id: &str) -> (result: Result<
    Option<Row>,
    rusqlite::Error,
>)
    requires
        is_private(connection) ==> has_table(connection),
    ensures
        is_private(connection) ==> (result matches Ok(found) ==> match found {
            Some(row) => {
                &&& table_rows(connection).contains_key(id@)
                &&& optional_bytes(row.0) == table_rows(connection)[id@].0
                &&& optional_text(row.1) == table_rows(connection)[id@].1
                &&& row.2 == table_rows(connection)[id@].2
                &&& row.3 == table_rows(connection)[id@].3
            },
            None => !table_rows(connection).contains_key(id@),
        }),
{
    match connection.query_row(
        "SELECT message_body, content_type, acked, expires_at FROM entries WHERE id = ?1",
        [id],
        |row| Ok((row.get(0)?, row.get(1)?, row.get(2)?, row.get(3)?)),
    ) {
        Ok(row) => Ok(Some(row)),
        Err(rusqlite::Error::QueryReturnedNoRows) => Ok(None),
        Err(error) => Err(error),
    }
}

/// `Connection::execute`, to insert a row that is not acknowledged, in place of any row under the
/// same id: the row stands in a private database, and the other rows stay as they were. The table
/// stays, whatever comes of it.
#[verifier::external_body]
fn replace_row(
    connection: &mut Connection,
    id: &str,
    body: &[u8],
    content_type: Option<&str>,
    expires_at: i64,
    created_at: i64,
) -> (result: Result<usize, rusqlite::Error>)
    requires
        is_private(old(connection)) ==> has_table(old(connection)),
    ensures
        is_private(final(connection)) == is_private(old(connection)),
        opened_on(final(connection)) == opened_on(old(connection)),
        logs_ahead(final(connection)) == logs_ahead(old(connection)),
        table_rows(final(connection)).dom().finite(),
        is_private(old(connection)) ==> has_table(final(connection)) == has_table(old(connection)),
        is_private(old(connection)) && result is Ok ==> table_rows(final(connection))
            == table_rows(old(connection)).insert(
            id@,
            (Some(body@), optional_str(content_type), 0i64, expires_at, created_at),
        ),
{
    connection.execute(
        "INSERT OR REPLACE INTO entries (id, message_body, content_type, acked, expires_at, created_at) VALUES (?1, ?2, ?3, 0, ?4, ?5)",
        (id, body, content_type, expires_at, created_at),
    )
}

/// `Connection::execute`, to mark the row under `id` as acknowledged and clear its body: that is
/// all that changes in a private database, and the result is the number of rows changed. The table
/// stays, whatever comes of it.
#[verifier::external_body]
fn update_acked(connection: &mut Connection, id: &str) -> (result: Result<usize, rusqlite::Error>)
    requires
        is_private(old(connection)) ==> has_table(old(connection)),
    ensures
        is_private(final(connection)) == is_private(old(connection)),
        opened_on(final(connection)) == opened_on(old(connection)),
        logs_ahead(final(connection)) == logs_ahead(old(connection)),
        table_rows(final(connection)).dom().finite(),
        is_private(old(connection)) ==> has_table(final(connection)) == has_table(old(connection)),
        is_private(old(connection)) ==> (result matches Ok(changed) ==> if table_rows(
            old(connection),
        ).contains_key(id@) {
            let row = table_rows(old(connection))[id@];
            &&& changed == 1
            &&& table_rows(final(connection)) == table_rows(old(connection)).insert(
                id@,
                (None, row.1, 1i64, row.3, row.4),
            )
        } else {
            &&& changed == 0
            &&& table_rows(final(connection)) == table_rows(old(connection))
        }),
{
    connection.execute(
        "UPDATE entries SET acked = 1, message_body = NULL WHERE id = ?1",
        [id],
    )
}

/// `Connection::execute`, to delete the row under `id`: that row is gone from a private database,
/// and the result is the number of rows deleted. The table stays, whatever comes of it.
#[verifier::external_body]
fn delete_row(connection: &mut Connection, id: &str) -> (result: Result<usize, rusqlite::Error>)
    requires
        is_private(old(connection)) ==> has_table(old(connection)),
    ensures
        is_private(final(connection)) == is_private(old(connection)),
        opened_on(final(connection)) == opened_on(old(connection)),
        logs_ahead(final(connection)) == logs_ahead(old(connection)),
        table_rows(final(connection)).dom().finite(),
        is_private(old(connection)) ==> has_table(final(connection)) == has_table(old(connection)),
        is_private(old(connection)) ==> (result matches Ok(deleted) ==> {
            &&& deleted == if table_rows(old(connection)).contains_key(id@) {
                1int
            } else {
                0int
            }
            &&& table_rows(final(connection)) == table_rows(old(connection)).remove(id@)
        }),
{
    connection.execute("DELETE FROM entries WHERE id = ?1", [id])
}

/// `Connection::execute`, to delete the rows whose expiry lies before `now`: a private database
/// keeps exactly the others, and the result is the number of rows deleted. The table stays,
/// whatever comes of it.
#[verifier::external_body]
fn delete_expired(connection: &mut Connection, now: i64) -> (result: Result<
    usize,
    rusqlite::Error,
>)
    requires
        is_private(old(connection)) ==> has_table(old(connection)),
    ensures
        is_private(final(connection)) == is_private(old(connection)),
        opened_on(final(connection)) == opened_on(old(connection)),
        logs_ahead(final(connection)) == logs_ahead(old(connection)),
        table_rows(final(connection)).dom().finite(),
        is_private(old(connection)) ==> has_table(final(connection)) == has_table(old(connection)),
        is_private(old(connection)) ==> (result matches Ok(deleted) ==> {
            let before = table_rows(old(connection));
            &&& table_rows(final(connection)) == before.restrict(
                before.dom().filter(|id: Seq<char>| before[id].3 >= now),
            )
            &&& deleted + table_rows(final(connection)).len() == before.len()
        }),
{
    connection.execute("DELETE FROM entries WHERE expires_at < ?1", [now])
}

/// A row of the table as a record.
pub open spec fn row_record(
    row: (Option<Seq<u8>>, Option<Seq<char>>, i64, i64, i64),
) -> Record {
    Record {
        entry: EntryView {
            message_body: row.0,
            content_type: row.1,
            acked: row.2 != 0,
            expires_at: row.3,
        },
        created_at: row.4,
    }
}

/// The rows of the table as records.
pub open spec fn table_entries(connection: &Connection) -> Entries {
    table_rows(connection).map_values(
        |row: (Option<Seq<u8>>, Option<Seq<char>>, i64, i64, i64)| row_record(row),
    )
}

/// Repository for persisting relay entries to SQLite.
///
/// Uses WAL mode for better concurrency on database files.
pub struct EntryRepository {
    connection: Connection,
    max_entries: usize,
}

/// The statement that marks the row under `id` can be answered so on this connection.
pub closed spec fn marking_answers(
    connection: &mut Connection,
    id: &str,
    answer: Result<usize, rusqlite::Error>,
) -> bool {
    call_ensures(update_acked, (connection, id), answer)
}

/// The statements that create the table can be answered so on this connection.
pub closed spec fn schema_answers(
    connection: &mut Connection,
    answer: Result<(), rusqlite::Error>,
) -> bool {
    call_ensures(create_tables, (connection,), answer)
}

/// The statement that deletes the row under `id` can be answered so on this connection.
pub closed spec fn deletion_answers(
    connection: &mut Connection,
    id: &str,
    answer: Result<usize, rusqlite::Error>,
) -> bool {
    call_ensures(delete_row, (connection, id), answer)
}

/// The statement that deletes the rows whose expiry lies before `now` can be answered so on this
/// connection.
pub closed spec fn cleanup_answers(
    connection: &mut Connection,
    now: i64,
    answer: Result<usize, rusqlite::Error>,
) -> bool {
    call_ensures(delete_expired, (connection, now), answer)
}

/// The statement that writes a row can be answered so on this connection.
pub closed spec fn writing_answers(
    connection: &mut Connection,
    id: &str,
    body: &[u8],
    content_type: Option<&str>,
    expires_at: i64,
    created_at: i64,
    answer: Result<usize, rusqlite::Error>,
) -> bool {
    call_ensures(
        replace_row,
        (connection, id, body, content_type, expires_at, created_at),
        answer,
    )
}

/// The query for the row under `id` can be answered so on this connection.
pub closed spec fn lookup_answers(
    connection: &Connection,
    id: &str,
    answer: Result<Option<Row>, rusqlite::Error>,
) -> bool {
    call_ensures(select_entry, (connection, id), answer)
}

/// The query for the number of rows can be answered so on this connection.
pub closed spec fn count_answers(
    connection: &Connection,
    answer: Result<i64, rusqlite::Error>,
) -> bool {
    call_ensures(select_count, (connection,), answer)
}

/// The query for the row that was written first can be answered so on this connection.
pub closed spec fn oldest_answers(
    connection: &Connection,
    answer: Result<String, rusqlite::Error>,
) -> bool {
    call_ensures(select_oldest, (connection,), answer)
}

/// What is deleted before an entry is inserted under `id`, by the answers that this connection can
/// give: the row written first, where there are rows and no fewer than the limit, and none of them
/// is under `id`; nothing otherwise.
pub open spec fn victim_answers(
    connection: &Connection,
    limit: usize,
    id: &str,
    victim: Option<Seq<char>>,
) -> bool {
    exists|count: i64| #[trigger]
        count_answers(connection, Ok(count)) && 0 <= count <= usize::MAX && {
            ||| count < limit && victim is None
            ||| count >= limit && exists|row: Option<Row>| #[trigger]
                lookup_answers(connection, id, Ok(row)) && {
                    ||| (row is Some || count == 0) && victim is None
                    ||| row is None && count > 0 && victim is Some && exists|oldest: String|
                        #[trigger] oldest_answers(connection, Ok(oldest)) && victim == Some(oldest@)
                }
        }
}

/// Writing this record under `id` can fail, in the database that this connection is to.
pub closed spec fn writing_may_fail(
    connection: &Connection,
    id: Seq<char>,
    record: Record,
) -> bool {
    exists|
        written: &mut Connection,
        text: &str,
        body: &[u8],
        content_type: Option<&str>,
        answer: Result<usize, rusqlite::Error>,
    |
        {
            &&& is_private(&*written) == is_private(connection)
            &&& opened_on(&*written) == opened_on(connection)
            &&& text@ == id
            &&& record == fresh_record(
                body@,
                optional_str(content_type),
                record.entry.expires_at,
                record.created_at,
            )
            &&& answer is Err
            &&& #[trigger] call_ensures(
                replace_row,
                (
                    written,
                    text,
                    body,
                    content_type,
                    record.entry.expires_at,
                    record.created_at,
                ),
                answer,
            )
        }
}

/// Opening a database can fail with this error: at `path`, or in memory.
pub closed spec fn opening_may_fail(path: Option<PathBuf>, error: StorageError) -> bool {
    match error {
        StorageError::OpenFile => exists|
            file: &PathBuf,
            answer: Result<Connection, rusqlite::Error>,
        |
            path == Some(*file) && answer is Err && #[trigger] call_ensures(
                open_file,
                (file,),
                answer,
            ),
        StorageError::OpenInMemory => path is None && exists|
            answer: Result<Connection, rusqlite::Error>,
        | answer is Err && #[trigger] call_ensures(open_in_memory, (), answer),
        StorageError::EnableWal => exists|
            connection: &mut Connection,
            answer: Result<(), rusqlite::Error>,
        |
            path is Some && opened_on(&*connection) == path && answer is Err
                && #[trigger] call_ensures(enable_wal, (connection,), answer),
        StorageError::CreateSchema => exists|
            connection: &mut Connection,
            answer: Result<(), rusqlite::Error>,
        |
            opened_on(&*connection) == path && answer is Err && #[trigger] call_ensures(
                create_tables,
                (connection,),
                answer,
            ),
        _ => false,
    }
}

/// Decides whether an insertion has to make room first, where there are `count` entries and
/// `present` tells whether the entry is one of them. Replacing an entry leaves the count as it is,
/// and needs no room.
pub fn eviction_needed(count: usize, max_entries: usize, present: bool) -> (needed: bool)
    ensures
        needed == needs_room(count as int, max_entries, present),
{
    count >= max_entries && count > 0 && !present
}

/// The columns of a row that make up an entry: message body, content type, acknowledgement mark and
/// expiry.
pub type Row = (Option<Vec<u8>>, Option<String>, i64, i64);

/// Turns the answer to a query for one row into the entry.
pub fn entry_answer(answer: Result<Option<Row>, rusqlite::Error>) -> (result: Result<
    Option<StoredEntry>,
    StorageError,
>)
    ensures
        match answer {
            Ok(Some(row)) => result matches Ok(Some(entry)) && entry.message_body == row.0
                && entry.content_type == row.1 && entry.acked == (row.2 != 0) && entry.expires_at
                == row.3,
            Ok(None) => result matches Ok(None),
            Err(_) => result == Err::<Option<StoredEntry>, _>(StorageError::Get),
        },
{
    match answer {
        Ok(Some(row)) => Ok(
            Some(
                StoredEntry {
                    message_body: row.0,
                    content_type: row.1,
                    acked: row.2 != 0,
                    expires_at: row.3,
                },
            ),
        ),
        Ok(None) => Ok(None),
        Err(_) => Err(StorageError::Get),
    }
}

/// Turns the number of rows that a statement changed into whether there was one to change.
pub fn change_answer(answer: Result<usize, rusqlite::Error>, failure: StorageError) -> (result:
    Result<bool, StorageError>)
    ensures
        result == match answer {
            Ok(changed) => Ok::<bool, StorageError>(changed > 0),
            Err(_) => Err(failure),
        },
{
    match answer {
        Ok(changed) => Ok(changed > 0),
        Err(_) => Err(failure),
    }
}

/// Turns the answer to a query for the number of rows into a count.
pub fn count_answer(answer: Result<i64, rusqlite::Error>) -> (result: Result<usize, StorageError>)
    ensures
        match answer {
            Ok(count) => if 0 <= count <= usize::MAX {
                result == Ok::<usize, StorageError>(count as usize)
            } else {
                result == Err::<usize, _>(StorageError::Count)
            },
            Err(_) => result == Err::<usize, _>(StorageError::Count),
        },
{
    match answer {
        Ok(count) => {
            if count < 0 || count as u64 > usize::MAX as u64 {
                Err(StorageError::Count)
            } else {
                Ok(count as usize)
            }
        },
        Err(_) => Err(StorageError::Count),
    }
}

impl EntryRepository {
    /// The connection that the repository works on.
    pub closed spec fn connection(&self) -> Connection {
        self.connection
    }

    /// The write-ahead log was switched on.
    pub closed spec fn logs_ahead(&self) -> bool {
        logs_ahead(&self.connection)
    }

    /// Finding the oldest entry can fail.
    closed spec fn searching_may_fail(&self) -> bool {
        exists|answer: Result<String, rusqlite::Error>|
            answer is Err && #[trigger] call_ensures(select_oldest, (&self.connection,), answer)
    }

    /// A repository on a file has its write-ahead log switched on.
    pub proof fn file_is_logged_ahead(&self)
        requires
            self.wf(),
        ensures
            self.file() is Some ==> self.logs_ahead(),
    {
    }

    /// Creates a new repository.
    ///
    /// # Arguments
    /// * `path` - File path for SQLite database, or None for in-memory database
    /// * `max_entries` - Maximum entries before eviction (oldest by created_at)
    ///
    /// # Errors
    /// Returns error if database connection or schema creation fails.
    pub fn new(path: Option<&PathBuf>, max_entries: usize) -> (result: Result<Self, StorageError>)
        ensures
            result matches Ok(repository) ==> {
                &&& repository.wf()
                &&& repository.limit() == max_entries
                &&& repository.file() == (match path {
                    Some(file) => Some(*file),
                    None => None,
                })
                &&& path is Some ==> repository.logs_ahead()
                &&& exists|connection: &mut Connection|
                    *final(connection) == repository.connection() && opened_on(&*connection)
                        == repository.file() && #[trigger] schema_answers(connection, Ok(()))
                &&& path is None ==> repository.exclusive() && repository.rows() == Entries::empty()
            },
            result matches Err(error) ==> if path is None {
                error == StorageError::OpenInMemory || error == StorageError::CreateSchema
            } else {
                error == StorageError::OpenFile || error == StorageError::EnableWal || error
                    == StorageError::CreateSchema
            },
            result matches Err(error) ==> opening_may_fail(
                match path {
                    Some(file) => Some(*file),
                    None => None,
                },
                error,
            ),
    {
        let mut connection: Connection = match path {
            Some(path) => match open_file(path) {
                Ok(connection) => connection,
                Err(_) => return Err(StorageError::OpenFile),
            },
            None => match open_in_memory() {
                Ok(connection) => connection,
                Err(_) => return Err(StorageError::OpenInMemory),
            },
        };
        if path.is_some() {
            if enable_wal(&mut connection).is_err() {
                return Err(StorageError::EnableWal);
            }
        }
        Self::create_schema(&mut connection)?;
        let repository = EntryRepository { connection, max_entries };
        proof {
            if path is None {
                assert(repository.rows() =~= Entries::empty());
            }
        }
        Ok(repository)
    }

    /// Creates the database schema if it doesn't exist.
    fn create_schema(connection: &mut Connection) -> (result: Result<(), StorageError>)
        ensures
            is_private(final(connection)) == is_private(old(connection)),
            opened_on(final(connection)) == opened_on(old(connection)),
            logs_ahead(final(connection)) == logs_ahead(old(connection)),
            table_rows(final(connection)).dom().finite(),
            is_private(old(connection)) && result is Ok ==> has_table(final(connection)),
            is_private(old(connection)) && result is Ok ==> table_rows(final(connection))
                == table_rows(old(connection)),
            result matches Err(error) ==> error == StorageError::CreateSchema && opening_may_fail(
                opened_on(old(connection)),
                error,
            ),
            result is Ok ==> exists|used: &mut Connection|
                *used == *old(connection) && *final(used) == *final(connection)
                    && #[trigger] schema_answers(used, Ok(())),
    {
        match create_tables(connection) {
            Ok(done) => {
                proof {
                    let used = choose|used: &mut Connection|
                        *used == *old(connection) && *final(used) == *connection
                            && #[trigger] call_ensures(create_tables, (used,), Ok(done));
                    assert(schema_answers(used, Ok(())));
                }
                Ok(())
            },
            Err(_) => Err(StorageError::CreateSchema),
        }
    }

    /// Inserts or replaces an entry in the database, written now.
    ///
    /// If the entry count would exceed `max_entries`, the oldest entry (by created_at) is deleted
    /// first to make room.
    pub fn insert(
        &mut self,
        id: &str,
        body: &[u8],
        content_type: Option<&str>,
        expires_at: i64,
    ) -> (result: Result<(), StorageError>)
        requires
            old(self).wf(),
        ensures
            final(self).wf(),
            final(self).limit() == old(self).limit(),
            final(self).exclusive() == old(self).exclusive(),
            final(self).file() == old(self).file(),
            result matches Err(error) ==> error == StorageError::Count || error
                == StorageError::Evict || error == StorageError::Insert,
            result matches Err(error) ==> exists|created_at: i64|
                clock_reads(created_at) && old(self).inserting_may_fail(
                    id@,
                    #[trigger] fresh_record(
                        body@,
                        optional_str(content_type),
                        expires_at,
                        created_at,
                    ),
                    error,
                ),
            old(self).exclusive() && result is Ok ==> exists|created_at: i64|
                created_at >= 0 && clock_reads(created_at) && insertion(
                    old(self).rows(),
                    old(self).limit(),
                    id@,
                    #[trigger] fresh_record(
                        body@,
                        optional_str(content_type),
                        expires_at,
                        created_at,
                    ),
                    final(self).rows(),
                ),
            exists|repository: &mut Self, created_at: i64|
                *repository == *old(self) && *final(repository) == *final(self) && clock_reads(
                    created_at,
                ) && #[trigger] call_ensures(
                    Self::insert_at,
                    (repository, id, body, content_type, expires_at, created_at),
                    result,
                ),
    {
        let created_at: i64 = unix_timestamp_millis();
        self.insert_at(id, body, content_type, expires_at, created_at)
    }

    /// Inserts or replaces an entry written at `created_at`, after deleting the entry `victim`
    /// where one is named.
    pub fn insert_evicting(
        &mut self,
        victim: Option<String>,
        id: &str,
        body: &[u8],
        content_type: Option<&str>,
        expires_at: i64,
        created_at: i64,
    ) -> (result: Result<(), StorageError>)
        requires
            old(self).wf(),
        ensures
            final(self).wf(),
            final(self).limit() == old(self).limit(),
            final(self).exclusive() == old(self).exclusive(),
            final(self).file() == old(self).file(),
            result matches Err(error) ==> error == StorageError::Insert || (error
                == StorageError::Evict && victim is Some),
            result matches Err(error) ==> if error == StorageError::Evict {
                old(self).deleting_may_fail(victim->0@)
            } else {
                old(self).inserting_may_fail(
                    id@,
                    fresh_record(body@, optional_str(content_type), expires_at, created_at),
                    error,
                )
            },
            victim is None && result is Ok ==> exists|connection: &mut Connection, changed: usize|
                *connection == old(self).connection()
                    && *final(connection) == final(self).connection()
                    && #[trigger] writing_answers(
                    connection,
                    id,
                    body,
                    content_type,
                    expires_at,
                    created_at,
                    Ok(changed),
                ),
            victim is Some && result is Ok ==> exists|
                cleared: &mut Connection,
                key: &str,
                deleted: usize,
                connection: &mut Connection,
                changed: usize,
            |
                *cleared == old(self).connection() && *final(cleared) == *connection
                    && *final(connection) == final(self).connection() && key@ == victim->0@
                    && #[trigger] deletion_answers(cleared, key, Ok(deleted))
                    && #[trigger] writing_answers(
                    connection,
                    id,
                    body,
                    content_type,
                    expires_at,
                    created_at,
                    Ok(changed),
                ),
            old(self).exclusive() && result is Ok ==> final(self).rows() == (match victim {
                Some(key) => old(self).rows().remove(key@),
                None => old(self).rows(),
            }).insert(
                id@,
                fresh_record(body@, optional_str(content_type), expires_at, created_at),
            ),
    {
        let ghost before = self.rows();
        if let Some(key) = &victim {
            match delete_row(&mut self.connection, key.as_str()) {
                Ok(deleted) => {
                    proof {
                        let (cleared, name) = choose|cleared: &mut Connection, name: &str|
                            *cleared == old(self).connection && *final(cleared) == self.connection
                                && name@ == key@ && #[trigger] call_ensures(
                                delete_row,
                                (cleared, name),
                                Ok(deleted),
                            );
                        assert(deletion_answers(cleared, name, Ok(deleted)));
                    }
                },
                Err(_) => return Err(StorageError::Evict),
            }
        }
        let ghost cleared = self.connection;
        let ghost between = self.rows();
        // A new message requires a new acknowledgment from the consumer, so the mark is reset.
        let answer: Result<usize, rusqlite::Error> = replace_row(
            &mut self.connection,
            id,
            body,
            content_type,
            expires_at,
            created_at,
        );
        if answer.is_err() {
            return Err(StorageError::Insert);
        }
        proof {
            let connection = choose|connection: &mut Connection|
                *connection == cleared && *final(connection) == self.connection
                    && #[trigger] call_ensures(
                    replace_row,
                    (connection, id, body, content_type, expires_at, created_at),
                    answer,
                );
            assert(writing_answers(
                connection,
                id,
                body,
                content_type,
                expires_at,
                created_at,
                Ok(answer->Ok_0),
            ));
            if old(self).exclusive() {
                let record = fresh_record(
                    body@,
                    optional_str(content_type),
                    expires_at,
                    created_at,
                );
                match victim {
                    Some(key) => assert(between =~= before.remove(key@)),
                    None => assert(between =~= before),
                }
                assert(self.rows() =~= between.insert(id@, record));
            }
        }
        Ok(())
    }

    /// The entry to delete before an entry is inserted under `id`, if room has to be made. A
    /// repository that cannot tell makes no room, and reports so.
    fn find_victim(&self, id: &str) -> (result: Result<Option<String>, StorageError>)
        requires
            self.wf(),
        ensures
            result matches Err(error) ==> error == StorageError::Count || error
                == StorageError::Evict,
            result == Err::<Option<String>, _>(StorageError::Count) ==> self.counting_may_fail(),
            result == Err::<Option<String>, _>(StorageError::Evict) ==> self.reading_may_fail(id@)
                || self.searching_may_fail(),
            self.exclusive() && self.rows().len() < self.limit() ==> (result matches Err(error)
                ==> error == StorageError::Count),
            result matches Ok(victim) ==> victim_answers(
                &self.connection,
                self.max_entries,
                id,
                optional_text(victim),
            ),
            self.exclusive() ==> (result matches Ok(victim) ==> if needs_room(
                self.rows().len() as int,
                self.limit(),
                self.rows().contains_key(id@),
            ) {
                victim is Some && is_oldest(self.rows(), victim->0@)
            } else {
                victim is None
            }),
    {
        let count: usize = self.count()?;
        assert(self.rows().dom() =~= table_rows(&self.connection).dom());
        assert(count_answers(&self.connection, Ok(count as i64)));
        if count < self.max_entries {
            return Ok(None);
        }
        let present: bool = match self.get(id) {
            Ok(entry) => {
                let ghost row: Option<Row> = choose|row: Option<Row>| #[trigger]
                    lookup_answers(&self.connection, id, Ok(row)) && row is Some == entry is Some;
                assert(lookup_answers(&self.connection, id, Ok(row)) && row is Some
                    == entry is Some);
                entry.is_some()
            },
            Err(_) => return Err(StorageError::Evict),
        };
        if !eviction_needed(count, self.max_entries, present) {
            return Ok(None);
        }
        match select_oldest(&self.connection) {
            Ok(oldest) => {
                assert(oldest_answers(&self.connection, Ok(oldest)));
                proof {
                    if self.exclusive() {
                        assert(is_oldest(self.rows(), oldest@));
                    }
                }
                Ok(Some(oldest))
            },
            Err(_) => Err(StorageError::Evict),
        }
    }

    /// Deletes all entries that have expired by now.
    ///
    /// Returns the number of entries deleted.
    pub fn cleanup_expired(&mut self) -> (result: Result<usize, StorageError>)
        requires
            old(self).wf(),
        ensures
            final(self).wf(),
            final(self).limit() == old(self).limit(),
            final(self).exclusive() == old(self).exclusive(),
            final(self).file() == old(self).file(),
            old(self).exclusive() && result is Ok ==> exists|now: i64|
                {
                    &&& now >= 0
                    &&& clock_reads(now)
                    &&& final(self).rows() == #[trigger] unexpired(old(self).rows(), now)
                    &&& result->Ok_0 == expired(old(self).rows(), now).len()
                    &&& final(self).rows().len() + result->Ok_0 == old(self).rows().len()
                },
            result matches Err(error) ==> error == StorageError::Cleanup && exists|now: i64|
                clock_reads(now) && #[trigger] old(self).cleaning_may_fail(now),
            exists|repository: &mut Self, now: i64|
                *repository == *old(self) && *final(repository) == *final(self) && clock_reads(now)
                    && #[trigger] call_ensures(Self::cleanup_expired_at, (repository, now), result),
    {
        let now: i64 = unix_timestamp_millis();
        self.cleanup_expired_at(now)
    }
}

impl Repository for EntryRepository {
    /// A database that nothing else can reach holds the table, the table holds finitely many rows,
    /// and on a file the write-ahead log was switched on.
    closed spec fn wf(&self) -> bool {
        &&& opened_on(&self.connection) is Some ==> logs_ahead(&self.connection)
        &&& is_private(&self.connection) ==> has_table(&self.connection)
        &&& table_rows(&self.connection).dom().finite()
    }

    closed spec fn rows(&self) -> Entries {
        table_entries(&self.connection)
    }

    closed spec fn limit(&self) -> usize {
        self.max_entries
    }

    closed spec fn exclusive(&self) -> bool {
        is_private(&self.connection)
    }

    open spec fn dependable(&self) -> bool {
        false
    }

    closed spec fn file(&self) -> Option<PathBuf> {
        opened_on(&self.connection)
    }

    closed spec fn reading_may_fail(&self, id: Seq<char>) -> bool {
        exists|text: &str, answer: Result<Option<Row>, rusqlite::Error>|
            text@ == id && answer is Err && #[trigger] call_ensures(
                select_entry,
                (&self.connection, text),
                answer,
            )
    }

    closed spec fn marking_may_fail(&self, id: Seq<char>) -> bool {
        exists|connection: &mut Connection, text: &str, answer: Result<usize, rusqlite::Error>|
            *connection == self.connection && text@ == id && answer is Err
                && #[trigger] call_ensures(update_acked, (connection, text), answer)
    }

    closed spec fn deleting_may_fail(&self, id: Seq<char>) -> bool {
        exists|connection: &mut Connection, text: &str, answer: Result<usize, rusqlite::Error>|
            *connection == self.connection && text@ == id && answer is Err
                && #[trigger] call_ensures(delete_row, (connection, text), answer)
    }

    closed spec fn cleaning_may_fail(&self, now: i64) -> bool {
        exists|connection: &mut Connection, answer: Result<usize, rusqlite::Error>|
            *connection == self.connection && answer is Err && #[trigger] call_ensures(
                delete_expired,
                (connection, now),
                answer,
            )
    }

    /// The query fails, or gives a number that is out of range.
    closed spec fn counting_may_fail(&self) -> bool {
        exists|answer: Result<i64, rusqlite::Error>|
            (answer matches Ok(count) ==> !(0 <= count <= usize::MAX)) && #[trigger] call_ensures(
                select_count,
                (&self.connection,),
                answer,
            )
    }

    closed spec fn inserting_may_fail(
        &self,
        id: Seq<char>,
        record: Record,
        error: StorageError,
    ) -> bool {
        match error {
            StorageError::Count => self.counting_may_fail(),
            StorageError::Evict => {
                ||| self.reading_may_fail(id)
                ||| self.searching_may_fail()
                ||| exists|victim: Seq<char>| #[trigger] self.deleting_may_fail(victim)
            },
            StorageError::Insert => writing_may_fail(&self.connection, id, record),
            _ => false,
        }
    }

    proof fn dependable_never_fails(&self) {
    }

    proof fn rows_are_finite(&self) {
        assert(self.rows().dom() =~= table_rows(&self.connection).dom());
    }

    proof fn rows_are_consistent(&self) {
    }

    fn insert_at(
        &mut self,
        id: &str,
        body: &[u8],
        content_type: Option<&str>,
        expires_at: i64,
        created_at: i64,
    ) -> (result: Result<(), StorageError>)
        ensures
            result is Ok ==> exists|victim: Option<String>|
                #[trigger] victim_answers(
                    &old(self).connection(),
                    old(self).limit(),
                    id,
                    optional_text(victim),
                ) && exists|repository: &mut Self|
                    *repository == *old(self) && *final(repository) == *final(self)
                        && #[trigger] call_ensures(
                        Self::insert_evicting,
                        (repository, victim, id, body, content_type, expires_at, created_at),
                        result,
                    ),
    {
        let victim: Option<String> = self.find_victim(id)?;
        self.insert_evicting(victim, id, body, content_type, expires_at, created_at)
    }

    fn get(&self, id: &str) -> (result: Result<Option<StoredEntry>, StorageError>)
        ensures
            exists|answer: Result<Option<Row>, rusqlite::Error>|
                #[trigger] lookup_answers(&self.connection(), id, answer) && match answer {
                    Ok(Some(row)) => result matches Ok(Some(entry)) && entry.message_body == row.0
                        && entry.content_type == row.1 && entry.acked == (row.2 != 0)
                        && entry.expires_at == row.3,
                    Ok(None) => result matches Ok(None),
                    Err(_) => result == Err::<Option<StoredEntry>, _>(StorageError::Get),
                },
    {
        let answer: Result<Option<Row>, rusqlite::Error> = select_entry(&self.connection, id);
        assert(lookup_answers(&self.connection(), id, answer));
        entry_answer(answer)
    }

    fn ack(&mut self, id: &str) -> (result: Result<bool, StorageError>)
        ensures
            exists|connection: &mut Connection, answer: Result<usize, rusqlite::Error>|
                {
                    &&& *connection == old(self).connection()
                    &&& *final(connection) == final(self).connection()
                    &&& #[trigger] marking_answers(connection, id, answer)
                    &&& result == match answer {
                        Ok(changed) => Ok::<bool, StorageError>(changed > 0),
                        Err(_) => Err(StorageError::Acknowledge),
                    }
                },
    {
        let answer: Result<usize, rusqlite::Error> = update_acked(&mut self.connection, id);
        proof {
            let connection = choose|connection: &mut Connection|
                *connection == old(self).connection && *final(connection) == self.connection
                    && #[trigger] call_ensures(update_acked, (connection, id), answer);
            assert(marking_answers(connection, id, answer));
            if old(self).exclusive() && answer is Ok {
                assert(self.rows() =~= acknowledged(old(self).rows(), id@));
            }
        }
        change_answer(answer, StorageError::Acknowledge)
    }

    fn delete(&mut self, id: &str) -> (result: Result<bool, StorageError>)
        ensures
            exists|connection: &mut Connection, answer: Result<usize, rusqlite::Error>|
                {
                    &&& *connection == old(self).connection()
                    &&& *final(connection) == final(self).connection()
                    &&& #[trigger] deletion_answers(connection, id, answer)
                    &&& result == match answer {
                        Ok(changed) => Ok::<bool, StorageError>(changed > 0),
                        Err(_) => Err(StorageError::Delete),
                    }
                },
    {
        let answer: Result<usize, rusqlite::Error> = delete_row(&mut self.connection, id);
        proof {
            let connection = choose|connection: &mut Connection|
                *connection == old(self).connection && *final(connection) == self.connection
                    && #[trigger] call_ensures(delete_row, (connection, id), answer);
            assert(deletion_answers(connection, id, answer));
            if old(self).exclusive() && answer is Ok {
                assert(self.rows() =~= old(self).rows().remove(id@));
                old(self).rows_are_finite();
                deletion_is_counted(old(self).rows(), id@);
            }
        }
        change_answer(answer, StorageError::Delete)
    }

    fn cleanup_expired_at(&mut self, now: i64) -> (result: Result<usize, StorageError>)
        ensures
            exists|connection: &mut Connection, answer: Result<usize, rusqlite::Error>|
                {
                    &&& *connection == old(self).connection()
                    &&& *final(connection) == final(self).connection()
                    &&& #[trigger] cleanup_answers(connection, now, answer)
                    &&& result == match answer {
                        Ok(deleted) => Ok::<usize, StorageError>(deleted),
                        Err(_) => Err(StorageError::Cleanup),
                    }
                },
    {
        let answer: Result<usize, rusqlite::Error> = delete_expired(&mut self.connection, now);
        proof {
            let connection = choose|connection: &mut Connection|
                *connection == old(self).connection && *final(connection) == self.connection
                    && #[trigger] call_ensures(delete_expired, (connection, now), answer);
            assert(cleanup_answers(connection, now, answer));
        }
        match answer {
            Ok(deleted) => {
                proof {
                    if old(self).exclusive() {
                        assert(self.rows() =~= unexpired(old(self).rows(), now));
                        old(self).rows_are_finite();
                        cleanup_is_counted(old(self).rows(), now);
                        assert(self.rows().dom() =~= table_rows(&self.connection).dom());
                        assert(old(self).rows().dom() =~= table_rows(&old(self).connection).dom());
                    }
                }
                Ok(deleted)
            },
            Err(_) => Err(StorageError::Cleanup),
        }
    }

    fn count(&self) -> (result: Result<usize, StorageError>)
        ensures
            exists|answer: Result<i64, rusqlite::Error>|
                #[trigger] count_answers(&self.connection(), answer) && result == match answer {
                    Ok(count) => if 0 <= count <= usize::MAX {
                        Ok::<usize, StorageError>(count as usize)
                    } else {
                        Err(StorageError::Count)
                    },
                    Err(_) => Err(StorageError::Count),
                },
    {
        assert(self.rows().dom() =~= table_rows(&self.connection).dom());
        let answer: Result<i64, rusqlite::Error> = select_count(&self.connection);
        assert(count_answers(&self.connection(), answer));
        count_answer(answer)
    }
}

/// Every failure that the repository reports is one that SQLite reported, of the statement that the
/// operation runs, on this connection and with these arguments. In particular no id is refused that
/// the database takes.
proof fn failures_are_the_databases(
    repository: Ghost<&mut EntryRepository>,
    id: &str,
    now: i64,
    found: Result<Option<StoredEntry>, StorageError>,
    acked: Result<bool, StorageError>,
    deleted: Result<bool, StorageError>,
    cleaned: Result<usize, StorageError>,
    count: Result<usize, StorageError>,
)
    ensures
        call_ensures(EntryRepository::get, (&*repository@, id), found) && found is Err ==> exists|
            text: &str,
            answer: Result<Option<Row>, rusqlite::Error>,
        |
            text@ == id@ && answer is Err && #[trigger] call_ensures(
                select_entry,
                (&repository@.connection, text),
                answer,
            ),
        call_ensures(EntryRepository::ack, (repository@, id), acked) && acked is Err ==> exists|
            connection: &mut Connection,
            text: &str,
            answer: Result<usize, rusqlite::Error>,
        |
            *connection == repository@.connection && text@ == id@ && answer is Err
                && #[trigger] call_ensures(update_acked, (connection, text), answer),
        call_ensures(EntryRepository::delete, (repository@, id), deleted) && deleted is Err
            ==> exists|
            connection: &mut Connection,
            text: &str,
            answer: Result<usize, rusqlite::Error>,
        |
            *connection == repository@.connection && text@ == id@ && answer is Err
                && #[trigger] call_ensures(delete_row, (connection, text), answer),
        call_ensures(EntryRepository::cleanup_expired_at, (repository@, now), cleaned)
            && cleaned is Err
            ==> exists|connection: &mut Connection, answer: Result<usize, rusqlite::Error>|
            *connection == repository@.connection && answer is Err && #[trigger] call_ensures(
                delete_expired,
                (connection, now),
                answer,
            ),
        call_ensures(EntryRepository::count, (&*repository@,), count) && count is Err ==> exists|
            answer: Result<i64, rusqlite::Error>,
        |
            (answer matches Ok(count) ==> !(0 <= count <= usize::MAX)) && #[trigger] call_ensures(
                select_count,
                (&repository@.connection,),
                answer,
            ),
{
}

/// An insertion that fails does so with a statement that SQLite reported as failed: with the count,
/// with the lookup of this id, the search for the oldest entry or its deletion, or with the writing
/// of this very row.
proof fn insertion_failures_are_the_databases(
    repository: Ghost<&mut EntryRepository>,
    id: &str,
    body: &[u8],
    content_type: Option<&str>,
    expires_at: i64,
    created_at: i64,
    result: Result<(), StorageError>,
)
    requires
        call_ensures(
            EntryRepository::insert_at,
            (repository@, id, body, content_type, expires_at, created_at),
            result,
        ),
        result is Err,
    ensures
        result->Err_0 == StorageError::Count ==> exists|answer: Result<i64, rusqlite::Error>|
            (answer matches Ok(count) ==> !(0 <= count <= usize::MAX)) && #[trigger] call_ensures(
                select_count,
                (&repository@.connection,),
                answer,
            ),
        result->Err_0 == StorageError::Evict ==> {
            ||| exists|text: &str, answer: Result<Option<Row>, rusqlite::Error>|
                text@ == id@ && answer is Err && #[trigger] call_ensures(
                    select_entry,
                    (&repository@.connection, text),
                    answer,
                )
            ||| exists|answer: Result<String, rusqlite::Error>|
                answer is Err && #[trigger] call_ensures(
                    select_oldest,
                    (&repository@.connection,),
                    answer,
                )
            ||| exists|
                connection: &mut Connection,
                text: &str,
                answer: Result<usize, rusqlite::Error>,
            |
                *connection == repository@.connection && answer is Err && #[trigger] call_ensures(
                    delete_row,
                    (connection, text),
                    answer,
                )
        },
        result->Err_0 != StorageError::Count && result->Err_0 != StorageError::Evict ==> exists|
            written: &mut Connection,
            text: &str,
            bytes: &[u8],
            mime: Option<&str>,
            answer: Result<usize, rusqlite::Error>,
        |
            is_private(&*written) == is_private(&repository@.connection) && opened_on(&*written)
                == opened_on(&repository@.connection) && text@ == id@ && bytes@ == body@
                && optional_str(mime) == optional_str(content_type) && answer is Err
                && #[trigger] call_ensures(
                replace_row,
                (written, text, bytes, mime, expires_at, created_at),
                answer,
            ),
{
    if result->Err_0 == StorageError::Insert {
        let record = fresh_record(body@, optional_str(content_type), expires_at, created_at);
        assert(writing_may_fail(&repository@.connection, id@, record));
    }
}

/// A repository that cannot be opened is one whose database could not be: SQLite reported a failure
/// to open it, to switch the write-ahead log on, or to create the table.
proof fn opening_failures_are_the_databases(
    path: Option<&PathBuf>,
    max_entries: usize,
    result: Result<EntryRepository, StorageError>,
)
    requires
        call_ensures(EntryRepository::new, (path, max_entries), result),
        result is Err,
    ensures
        path is None ==> {
            ||| exists|answer: Result<Connection, rusqlite::Error>|
                answer is Err && #[trigger] call_ensures(open_in_memory, (), answer)
            ||| exists|connection: &mut Connection, answer: Result<(), rusqlite::Error>|
                answer is Err && opened_on(&*connection) is None && #[trigger] call_ensures(
                    create_tables,
                    (connection,),
                    answer,
                )
        },
        path matches Some(file) ==> {
            ||| exists|name: &PathBuf, answer: Result<Connection, rusqlite::Error>|
                *name == *file && answer is Err && #[trigger] call_ensures(
                    open_file,
                    (name,),
                    answer,
                )
            ||| exists|connection: &mut Connection, answer: Result<(), rusqlite::Error>|
                answer is Err && opened_on(&*connection) == Some(*file) && #[trigger] call_ensures(
                    enable_wal,
                    (connection,),
                    answer,
                )
            ||| exists|connection: &mut Connection, answer: Result<(), rusqlite::Error>|
                answer is Err && opened_on(&*connection) == Some(*file) && #[trigger] call_ensures(
                    create_tables,
                    (connection,),
                    answer,
                )
        },
{
}

/// An acknowledgement runs the statement that marks the row, on this connection, and answers with
/// what came of it, on a file as in memory.
proof fn acks_run_their_statement(
    repository: Ghost<&mut EntryRepository>,
    id: &str,
    result: Result<bool, StorageError>,
)
    requires
        call_ensures(EntryRepository::ack, (repository@, id), result),
    ensures
        exists|connection: &mut Connection, answer: Result<usize, rusqlite::Error>|
            {
                &&& *connection == repository@.connection
                &&& *final(connection) == final(repository@).connection
                &&& #[trigger] call_ensures(update_acked, (connection, id), answer)
                &&& answer matches Ok(changed) ==> result == Ok::<bool, StorageError>(changed > 0)
                &&& answer is Err ==> result == Err::<bool, _>(StorageError::Acknowledge)
            },
{
    let (connection, answer) = choose|
        connection: &mut Connection,
        answer: Result<usize, rusqlite::Error>,
    |
        {
            &&& *connection == repository@.connection
            &&& *final(connection) == final(repository@).connection
            &&& #[trigger] marking_answers(connection, id, answer)
            &&& result == match answer {
                Ok(changed) => Ok::<bool, StorageError>(changed > 0),
                Err(_) => Err(StorageError::Acknowledge),
            }
        };
    assert(call_ensures(update_acked, (connection, id), answer));
}

/// A deletion runs the statement that deletes the row, on this connection, and answers with what
/// came of it, on a file as in memory.
proof fn deletes_run_their_statement(
    repository: Ghost<&mut EntryRepository>,
    id: &str,
    result: Result<bool, StorageError>,
)
    requires
        call_ensures(EntryRepository::delete, (repository@, id), result),
    ensures
        exists|connection: &mut Connection, answer: Result<usize, rusqlite::Error>|
            {
                &&& *connection == repository@.connection
                &&& *final(connection) == final(repository@).connection
                &&& #[trigger] call_ensures(delete_row, (connection, id), answer)
                &&& answer matches Ok(deleted) ==> result == Ok::<bool, StorageError>(deleted > 0)
                &&& answer is Err ==> result == Err::<bool, _>(StorageError::Delete)
            },
{
    let (connection, answer) = choose|
        connection: &mut Connection,
        answer: Result<usize, rusqlite::Error>,
    |
        {
            &&& *connection == repository@.connection
            &&& *final(connection) == final(repository@).connection
            &&& #[trigger] deletion_answers(connection, id, answer)
            &&& result == match answer {
                Ok(changed) => Ok::<bool, StorageError>(changed > 0),
                Err(_) => Err(StorageError::Delete),
            }
        };
    assert(call_ensures(delete_row, (connection, id), answer));
}

/// A cleanup runs the statement that deletes the expired rows, on this connection, and answers with
/// what came of it, on a file as in memory.
proof fn cleanups_run_their_statement(
    repository: Ghost<&mut EntryRepository>,
    now: i64,
    result: Result<usize, StorageError>,
)
    requires
        call_ensures(EntryRepository::cleanup_expired_at, (repository@, now), result),
    ensures
        exists|connection: &mut Connection, answer: Result<usize, rusqlite::Error>|
            {
                &&& *connection == repository@.connection
                &&& *final(connection) == final(repository@).connection
                &&& #[trigger] call_ensures(delete_expired, (connection, now), answer)
                &&& answer matches Ok(deleted) ==> result == Ok::<usize, StorageError>(deleted)
                &&& answer is Err ==> result == Err::<usize, _>(StorageError::Cleanup)
            },
{
    let (connection, answer) = choose|
        connection: &mut Connection,
        answer: Result<usize, rusqlite::Error>,
    |
        {
            &&& *connection == repository@.connection
            &&& *final(connection) == final(repository@).connection
            &&& #[trigger] cleanup_answers(connection, now, answer)
            &&& result == match answer {
                Ok(deleted) => Ok::<usize, StorageError>(deleted),
                Err(_) => Err(StorageError::Cleanup),
            }
        };
    assert(call_ensures(delete_expired, (connection, now), answer));
}

/// A lookup and a count run their query, on this connection, and answer with what came of it, on a
/// file as in memory.
proof fn queries_run_their_statement(
    repository: EntryRepository,
    id: &str,
    found: Result<Option<StoredEntry>, StorageError>,
    count: Result<usize, StorageError>,
)
    requires
        call_ensures(EntryRepository::get, (&repository, id), found),
        call_ensures(EntryRepository::count, (&repository,), count),
    ensures
        exists|answer: Result<Option<Row>, rusqlite::Error>|
            {
                &&& #[trigger] call_ensures(select_entry, (&repository.connection, id), answer)
                &&& answer is Err ==> found is Err
                &&& answer matches Ok(row) ==> found is Ok && (found->Ok_0 is Some <==> row is Some)
                &&& answer matches Ok(Some(row)) ==> found->Ok_0->0.message_body == row.0
                    && found->Ok_0->0.content_type == row.1 && (found->Ok_0->0.acked <==> row.2
                    != 0) && found->Ok_0->0.expires_at == row.3
            },
        exists|answer: Result<i64, rusqlite::Error>|
            {
                &&& #[trigger] call_ensures(select_count, (&repository.connection,), answer)
                &&& answer is Err ==> count is Err
                &&& answer matches Ok(rows) ==> (count is Ok <==> 0 <= rows <= usize::MAX)
                &&& count matches Ok(rows) ==> rows == answer->Ok_0
            },
{
    let answer = choose|answer: Result<Option<Row>, rusqlite::Error>|
        #[trigger] lookup_answers(&repository.connection(), id, answer) && match answer {
            Ok(Some(row)) => found matches Ok(Some(entry)) && entry.message_body == row.0
                && entry.content_type == row.1 && entry.acked == (row.2 != 0) && entry.expires_at
                == row.3,
            Ok(None) => found matches Ok(None),
            Err(_) => found == Err::<Option<StoredEntry>, _>(StorageError::Get),
        };
    assert(call_ensures(select_entry, (&repository.connection, id), answer));
    let answer = choose|answer: Result<i64, rusqlite::Error>|
        #[trigger] count_answers(&repository.connection(), answer) && count == match answer {
            Ok(rows) => if 0 <= rows <= usize::MAX {
                Ok::<usize, StorageError>(rows as usize)
            } else {
                Err(StorageError::Count)
            },
            Err(_) => Err(StorageError::Count),
        };
    assert(call_ensures(select_count, (&repository.connection,), answer));
}

/// An insertion writes this very row into the connected database, on a file as in memory, and
/// changes nothing after that. Before, it deletes the row that the database named as written first,
/// exactly if the database counted rows, and no fewer than the limit, and found none under the id.
proof fn inserts_run_their_statement(
    repository: Ghost<&mut EntryRepository>,
    id: &str,
    body: &[u8],
    content_type: Option<&str>,
    expires_at: i64,
    created_at: i64,
    result: Result<(), StorageError>,
)
    requires
        call_ensures(
            EntryRepository::insert_at,
            (repository@, id, body, content_type, expires_at, created_at),
            result,
        ),
        result is Ok,
    ensures
        exists|count: i64, connection: &mut Connection, changed: usize|
            {
                &&& *final(connection) == final(repository@).connection
                &&& #[trigger] call_ensures(
                    replace_row,
                    (connection, id, body, content_type, expires_at, created_at),
                    Ok(changed),
                )
                &&& #[trigger] call_ensures(select_count, (&repository@.connection,), Ok(count))
                &&& {
                    ||| *connection == repository@.connection && (count < repository@.max_entries
                        || count == 0 || exists|row: Row| #[trigger]
                        call_ensures(select_entry, (&repository@.connection, id), Ok(Some(row))))
                    ||| count >= repository@.max_entries && count > 0 && call_ensures(
                        select_entry,
                        (&repository@.connection, id),
                        Ok(None),
                    ) && exists|
                        cleared: &mut Connection,
                        key: &str,
                        deleted: usize,
                        oldest: String,
                    |
                        {
                            &&& *cleared == repository@.connection
                            &&& *final(cleared) == *connection
                            &&& key@ == oldest@
                            &&& #[trigger] call_ensures(delete_row, (cleared, key), Ok(deleted))
                            &&& #[trigger] call_ensures(
                                select_oldest,
                                (&repository@.connection,),
                                Ok(oldest),
                            )
                        }
                }
            },
{
    let before = repository@.connection;
    let victim = choose|victim: Option<String>|
        #[trigger] victim_answers(
            &repository@.connection(),
            repository@.limit(),
            id,
            optional_text(victim),
        ) && exists|inner: &mut EntryRepository|
            *inner == *repository@ && *final(inner) == *final(repository@)
                && #[trigger] call_ensures(
                EntryRepository::insert_evicting,
                (inner, victim, id, body, content_type, expires_at, created_at),
                result,
            );
    let count = choose|count: i64| #[trigger]
        count_answers(&before, Ok(count)) && 0 <= count <= usize::MAX && {
            ||| count < repository@.max_entries && victim is None
            ||| count >= repository@.max_entries && exists|row: Option<Row>| #[trigger]
                lookup_answers(&before, id, Ok(row)) && {
                    ||| (row is Some || count == 0) && victim is None
                    ||| row is None && count > 0 && victim is Some && exists|oldest: String|
                        #[trigger] oldest_answers(&before, Ok(oldest)) && Some(victim->0@) == Some(
                            oldest@,
                        )
                }
        };
    assert(call_ensures(select_count, (&before,), Ok::<i64, rusqlite::Error>(count)));
    if victim is Some {
        let row = choose|row: Option<Row>| #[trigger]
            lookup_answers(&before, id, Ok(row)) && row is None && exists|oldest: String|
                #[trigger] oldest_answers(&before, Ok(oldest)) && victim->0@ == oldest@;
        let oldest = choose|oldest: String| #[trigger]
            oldest_answers(&before, Ok(oldest)) && victim->0@ == oldest@;
        let (cleared, key, deleted, connection, changed) = choose|
            cleared: &mut Connection,
            key: &str,
            deleted: usize,
            connection: &mut Connection,
            changed: usize,
        |
            *cleared == before && *final(cleared) == *connection && *final(connection) == final(
                repository@
            ).connection && key@ == victim->0@ && #[trigger] deletion_answers(
                cleared,
                key,
                Ok(deleted),
            ) && #[trigger] writing_answers(
                connection,
                id,
                body,
                content_type,
                expires_at,
                created_at,
                Ok(changed),
            );
        assert(call_ensures(select_entry, (&before, id), Ok::<_, rusqlite::Error>(row)));
        assert(call_ensures(delete_row, (cleared, key), Ok::<_, rusqlite::Error>(deleted)));
        assert(call_ensures(select_oldest, (&before,), Ok::<_, rusqlite::Error>(oldest)));
        assert(call_ensures(
            replace_row,
            (connection, id, body, content_type, expires_at, created_at),
            Ok::<_, rusqlite::Error>(changed),
        ));
    } else {
        if count >= repository@.max_entries && count > 0 {
            let row = choose|row: Option<Row>| #[trigger]
                lookup_answers(&before, id, Ok(row)) && row is Some;
            assert(call_ensures(
                select_entry,
                (&before, id),
                Ok::<_, rusqlite::Error>(Some(row->0)),
            ));
        }
        let (connection, changed) = choose|connection: &mut Connection, changed: usize|
            *connection == before && *final(connection) == final(repository@).connection
                && #[trigger] writing_answers(
                connection,
                id,
                body,
                content_type,
                expires_at,
                created_at,
                Ok(changed),
            );
        assert(call_ensures(
            replace_row,
            (connection, id, body, content_type, expires_at, created_at),
            Ok::<_, rusqlite::Error>(changed),
        ));
    }
}

/// A repository that was opened has had the statements run that create its table, on a file as in
/// memory.
proof fn opening_creates_the_table(
    path: Option<&PathBuf>,
    max_entries: usize,
    result: Result<EntryRepository, StorageError>,
)
    requires
        call_ensures(EntryRepository::new, (path, max_entries), result),
        result is Ok,
    ensures
        exists|connection: &mut Connection|
            *final(connection) == result->Ok_0.connection && (opened_on(&*connection) is Some
                <==> path is Some) && #[trigger] call_ensures(
                create_tables,
                (connection,),
                Ok(()),
            ),
        path matches Some(file) ==> opened_on(&result->Ok_0.connection) == Some(*file)
            && logs_ahead(&result->Ok_0.connection),
        path is None ==> is_private(&result->Ok_0.connection)
            && table_rows(&result->Ok_0.connection) == Table::empty(),
        result->Ok_0.max_entries == max_entries,
{
    let connection = choose|connection: &mut Connection|
        *final(connection) == result->Ok_0.connection && opened_on(&*connection)
            == result->Ok_0.file() && #[trigger] schema_answers(connection, Ok(()));
    assert(call_ensures(create_tables, (connection,), Ok::<(), rusqlite::Error>(())));
    if path is None {
        assert(table_rows(&result->Ok_0.connection).dom() =~= result->Ok_0.rows().dom());
        assert(table_rows(&result->Ok_0.connection) =~= Table::empty());
    }
}

} // verus!
