//! What a repository holds, as a mathematical value, and what each operation makes of it.

use crate::payload::{optional_bytes, optional_text};
use vstd::prelude::*;

verus! {

/// A stored entry retrieved from the repository.
pub struct StoredEntry {
    /// The message body (None if entry was acked and body cleared).
    pub message_body: Option<Vec<u8>>,
    /// The content type of the message.
    pub content_type: Option<String>,
    /// Whether the entry has been acknowledged.
    pub acked: bool,
    /// Unix timestamp when the entry expires.
    pub expires_at: i64,
}

/// A stored entry, as a mathematical value.
#[verifier::ext_equal]
pub struct EntryView {
    pub message_body: Option<Seq<u8>>,
    pub content_type: Option<Seq<char>>,
    pub acked: bool,
    pub expires_at: i64,
}

impl View for StoredEntry {
    type V = EntryView;

    open spec fn view(&self) -> EntryView {
        EntryView {
            message_body: optional_bytes(self.message_body),
            content_type: optional_text(self.content_type),
            acked: self.acked,
            expires_at: self.expires_at,
        }
    }
}

/// One row of a repository: an entry and the time at which it was last written.
#[verifier::ext_equal]
pub struct Record {
    pub entry: EntryView,
    pub created_at: i64,
}

/// The rows of a repository, by id.
pub type Entries = Map<Seq<char>, Record>;

/// The row that an insertion writes: not acknowledged, whatever stood there before.
pub open spec fn fresh_record(
    body: Seq<u8>,
    content_type: Option<Seq<char>>,
    expires_at: i64,
    created_at: i64,
) -> Record {
    Record {
        entry: EntryView { message_body: Some(body), content_type, acked: false, expires_at },
        created_at,
    }
}

/// The entry under `id`, if there is one.
pub open spec fn lookup(rows: Entries, id: Seq<char>) -> Option<EntryView> {
    if rows.contains_key(id) {
        Some(rows[id].entry)
    } else {
        None
    }
}

/// The row after it has been acknowledged: marked, and without its body.
pub open spec fn acked_record(record: Record) -> Record {
    Record {
        entry: EntryView { message_body: None, acked: true, ..record.entry },
        created_at: record.created_at,
    }
}

/// The rows after the one under `id`, if there is one, has been acknowledged.
pub open spec fn acknowledged(rows: Entries, id: Seq<char>) -> Entries {
    if rows.contains_key(id) {
        rows.insert(id, acked_record(rows[id]))
    } else {
        rows
    }
}

/// The rows that have not passed their expiry at `now`.
pub open spec fn unexpired(rows: Entries, now: i64) -> Entries {
    rows.restrict(rows.dom().filter(|id: Seq<char>| rows[id].entry.expires_at >= now))
}

/// The rows that have passed their expiry at `now`.
pub open spec fn expired(rows: Entries, now: i64) -> Entries {
    rows.restrict(rows.dom().filter(|id: Seq<char>| rows[id].entry.expires_at < now))
}

/// `id` names a row that no other row was written before.
pub open spec fn is_oldest(rows: Entries, id: Seq<char>) -> bool {
    &&& rows.contains_key(id)
    &&& forall|other: Seq<char>| #[trigger]
        rows.contains_key(other) ==> rows[id].created_at <= rows[other].created_at
}

/// The entry under `id` exists and has not expired at `now`.
pub open spec fn is_live(rows: Entries, id: Seq<char>, now: i64) -> bool {
    rows.contains_key(id) && now < rows[id].entry.expires_at
}

/// An entry holds a message body exactly until it is acknowledged.
pub open spec fn is_consistent(rows: Entries) -> bool {
    forall|id: Seq<char>| #[trigger]
        rows.contains_key(id) ==> (rows[id].entry.acked <==> rows[id].entry.message_body is None)
}

/// Whether an insertion under `id` into `count` rows has to make room first. Replacing a row never
/// has to.
pub open spec fn needs_room(count: int, limit: usize, present: bool) -> bool {
    count >= limit && count > 0 && !present
}

/// How the rows after an insertion relate to those before it: a new id that meets a full
/// repository displaces a row that was written first.
pub open spec fn insertion(
    before: Entries,
    limit: usize,
    id: Seq<char>,
    record: Record,
    after: Entries,
) -> bool {
    if needs_room(before.len() as int, limit, before.contains_key(id)) {
        exists|victim: Seq<char>| #[trigger]
            is_oldest(before, victim) && after == before.remove(victim).insert(id, record)
    } else {
        after == before.insert(id, record)
    }
}

/// The rows agree under every id but two.
pub open spec fn agree_but(
    left: Entries,
    right: Entries,
    one: Seq<char>,
    two: Seq<char>,
) -> bool {
    forall|other: Seq<char>|
        #![trigger lookup(left, other)]
        #![trigger lookup(right, other)]
        other != one && other != two ==> lookup(left, other) == lookup(right, other)
}

/// An insertion writes its record, and does nothing to other rows but to remove at most one.
pub proof fn insertion_spares(
    before: Entries,
    limit: usize,
    id: Seq<char>,
    record: Record,
    after: Entries,
)
    requires
        insertion(before, limit, id, record, after),
    ensures
        after.contains_key(id),
        after[id] == record,
        forall|other: Seq<char>| #[trigger]
            after.contains_key(other) && other != id ==> before.contains_key(other) && after[other]
                == before[other],
        exists|victim: Seq<char>| #[trigger] agree_but(before, after, id, victim),
{
    let victim = if needs_room(before.len() as int, limit, before.contains_key(id)) {
        choose|victim: Seq<char>| #[trigger]
            is_oldest(before, victim) && after == before.remove(victim).insert(id, record)
    } else {
        id
    };
    assert(agree_but(before, after, id, victim));
}

/// An insertion keeps the number of rows within the limit, or where it was if it was beyond; a
/// limit of zero still admits one row.
pub proof fn insertion_is_bounded(
    before: Entries,
    limit: usize,
    id: Seq<char>,
    record: Record,
    after: Entries,
)
    requires
        before.dom().finite(),
        insertion(before, limit, id, record, after),
    ensures
        after.dom().finite(),
        after.len() <= limit || after.len() <= before.len() || after.len() == 1,
        before.len() <= after.len() <= before.len() + 1,
{
    if needs_room(before.len() as int, limit, before.contains_key(id)) {
        let victim = choose|victim: Seq<char>| #[trigger]
            is_oldest(before, victim) && after == before.remove(victim).insert(id, record);
        assert(after.dom() =~= before.dom().remove(victim).insert(id));
    } else {
        assert(after.dom() =~= before.dom().insert(id));
    }
}

/// Replacing an entry evicts nothing, however full the repository: every other row is as it was,
/// and there are as many as before.
pub proof fn replacing_evicts_nothing(
    before: Entries,
    limit: usize,
    id: Seq<char>,
    record: Record,
    after: Entries,
)
    requires
        before.dom().finite(),
        insertion(before, limit, id, record, after),
        before.contains_key(id),
    ensures
        after == before.insert(id, record),
        after.len() == before.len(),
        forall|other: Seq<char>| other != id ==> #[trigger] lookup(after, other) == lookup(
            before,
            other,
        ),
{
    assert(after.dom() =~= before.dom());
}

/// A new entry that meets a full repository takes the place of one that was written first.
pub proof fn full_repository_gives_up_its_oldest(
    before: Entries,
    limit: usize,
    id: Seq<char>,
    record: Record,
    after: Entries,
)
    requires
        before.dom().finite(),
        insertion(before, limit, id, record, after),
        !before.contains_key(id),
        before.len() > 0,
        before.len() >= limit,
    ensures
        after.len() == before.len(),
        exists|victim: Seq<char>| #[trigger]
            is_oldest(before, victim) && victim != id && !after.contains_key(victim),
{
    let victim = choose|victim: Seq<char>| #[trigger]
        is_oldest(before, victim) && after == before.remove(victim).insert(id, record);
    assert(after.dom() =~= before.dom().remove(victim).insert(id));
    assert(is_oldest(before, victim) && victim != id && !after.contains_key(victim));
}

/// Deleting takes away one row if there is one, and none otherwise.
pub proof fn deletion_is_counted(rows: Entries, id: Seq<char>)
    requires
        rows.dom().finite(),
    ensures
        rows.remove(id).dom().finite(),
        rows.remove(id).len() + (if rows.contains_key(id) {
            1int
        } else {
            0int
        }) == rows.len(),
        !rows.remove(id).contains_key(id),
{
    assert(rows.remove(id).dom() =~= rows.dom().remove(id));
}

/// The rows that a cleanup keeps and those that it deletes are all there were, and a second one at
/// the same time finds none to delete.
pub proof fn cleanup_is_counted(rows: Entries, now: i64)
    requires
        rows.dom().finite(),
    ensures
        unexpired(rows, now).dom().finite(),
        unexpired(rows, now).len() + expired(rows, now).len() == rows.len(),
        unexpired(unexpired(rows, now), now) == unexpired(rows, now),
        expired(unexpired(rows, now), now).len() == 0,
{
    let kept = rows.dom().filter(|id: Seq<char>| rows[id].entry.expires_at >= now);
    let gone = rows.dom().filter(|id: Seq<char>| rows[id].entry.expires_at < now);
    assert(unexpired(rows, now).dom() =~= kept);
    assert(expired(rows, now).dom() =~= gone);
    assert(kept.disjoint(gone));
    vstd::set_lib::lemma_set_disjoint_lens(kept, gone);
    assert(kept.union(gone) =~= rows.dom());
    assert(unexpired(unexpired(rows, now), now) =~= unexpired(rows, now));
    assert(expired(unexpired(rows, now), now).dom() =~= Set::empty());
}

/// Acknowledging keeps the rows under the same ids.
pub proof fn acknowledging_keeps_ids(rows: Entries, id: Seq<char>)
    ensures
        acknowledged(rows, id).dom() == rows.dom(),
{
    assert(acknowledged(rows, id).dom() =~= rows.dom());
}

/// An insertion keeps it so that an entry holds a message body exactly until it is acknowledged.
pub proof fn insertion_keeps_consistency(
    rows: Entries,
    limit: usize,
    id: Seq<char>,
    body: Seq<u8>,
    content_type: Option<Seq<char>>,
    expires_at: i64,
    created_at: i64,
    after: Entries,
)
    requires
        is_consistent(rows),
        insertion(rows, limit, id, fresh_record(body, content_type, expires_at, created_at), after),
    ensures
        is_consistent(after),
{
    insertion_spares(
        rows,
        limit,
        id,
        fresh_record(body, content_type, expires_at, created_at),
        after,
    );
}

/// An acknowledgement keeps it so that an entry holds a message body exactly until it is
/// acknowledged.
pub proof fn acknowledgement_keeps_consistency(rows: Entries, id: Seq<char>)
    requires
        is_consistent(rows),
    ensures
        is_consistent(acknowledged(rows, id)),
{
}

/// A deletion keeps it so that an entry holds a message body exactly until it is acknowledged.
pub proof fn deletion_keeps_consistency(rows: Entries, id: Seq<char>)
    requires
        is_consistent(rows),
    ensures
        is_consistent(rows.remove(id)),
{
}

/// A cleanup keeps it so that an entry holds a message body exactly until it is acknowledged.
pub proof fn cleanup_keeps_consistency(rows: Entries, now: i64)
    requires
        is_consistent(rows),
    ensures
        is_consistent(unexpired(rows, now)),
{
}

} // verus!
