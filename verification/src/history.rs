//! What holds of a repository, and of a waiting list on top of it, after any history of
//! operations.
//!
//! A history is a sequence of operations that succeeded, with the rows before the first and after
//! each. It starts from an empty repository.

use crate::clock::has_expired;
use crate::entries::{
    acked_record, acknowledged, acknowledging_keeps_ids, cleanup_is_counted, deletion_is_counted,
    fresh_record, insertion, insertion_is_bounded, insertion_spares, is_consistent, is_live,
    lookup, unexpired, Entries, EntryView,
};
use crate::laws::{deadline, message_is_given_until_acked};
use crate::payload::MessageView;
use crate::repository::Repository;
use crate::waiting_list::{
    AckOutcome, CleanupOutcome, GetOrSubscribeResult, Reading, StoreOutcome, SubscribeError,
    WaitingList,
};
use std::time::Duration;
use vstd::prelude::*;

verus! {

/// An operation that changes rows.
pub enum Operation {
    /// An entry was inserted or replaced.
    Insert {
        id: Seq<char>,
        body: Seq<u8>,
        content_type: Option<Seq<char>>,
        expires_at: i64,
        created_at: i64,
    },
    /// An entry was marked as acknowledged.
    Acknowledge(Seq<char>),
    /// An entry was deleted.
    Delete(Seq<char>),
    /// The entries that had expired were deleted.
    Cleanup(i64),
}

/// How one operation changes the rows.
pub open spec fn step(before: Entries, limit: usize, operation: Operation, after: Entries) -> bool {
    match operation {
        Operation::Insert { id, body, content_type, expires_at, created_at } => insertion(
            before,
            limit,
            id,
            fresh_record(body, content_type, expires_at, created_at),
            after,
        ),
        Operation::Acknowledge(id) => after == acknowledged(before, id),
        Operation::Delete(id) => after == before.remove(id),
        Operation::Cleanup(now) => after == unexpired(before, now),
    }
}

/// The rows go through `states` as the operations are performed one after the other.
pub open spec fn is_history(
    states: Seq<Entries>,
    limit: usize,
    operations: Seq<Operation>,
) -> bool {
    &&& states.len() == operations.len() + 1
    &&& states[0] == Entries::empty()
    &&& forall|i: int| #![trigger operations[i]]
        0 <= i < operations.len() ==> step(states[i], limit, operations[i], states[i + 1])
}

/// The entry to be expected under `id` after the first `n` operations: what the last insertion
/// under `id` wrote, without its body and marked once it was acknowledged; nothing, if there was
/// no such insertion, or since then it was deleted, cleaned up, or gave way to another entry.
pub open spec fn recalled(
    states: Seq<Entries>,
    operations: Seq<Operation>,
    n: int,
    id: Seq<char>,
) -> Option<EntryView>
    decreases n,
{
    if n <= 0 {
        None
    } else {
        let prior = recalled(states, operations, n - 1, id);
        match operations[n - 1] {
            Operation::Insert { id: at, body, content_type, expires_at, .. } => if at == id {
                Some(
                    EntryView { message_body: Some(body), content_type, acked: false, expires_at },
                )
            } else if !states[n].contains_key(id) {
                None
            } else {
                prior
            },
            Operation::Acknowledge(at) => match prior {
                Some(entry) => if at == id {
                    Some(EntryView { message_body: None, acked: true, ..entry })
                } else {
                    prior
                },
                None => None,
            },
            Operation::Delete(at) => if at == id {
                None
            } else {
                prior
            },
            Operation::Cleanup(now) => match prior {
                Some(entry) => if entry.expires_at < now {
                    None
                } else {
                    prior
                },
                None => None,
            },
        }
    }
}

/// Whether, among the first `n` operations, `id` was acknowledged after the last insertion under
/// it.
pub open spec fn acked_since(operations: Seq<Operation>, n: int, id: Seq<char>) -> bool
    decreases n,
{
    if n <= 0 {
        false
    } else {
        match operations[n - 1] {
            Operation::Insert { id: at, .. } => at != id && acked_since(operations, n - 1, id),
            Operation::Acknowledge(at) => at == id || acked_since(operations, n - 1, id),
            _ => acked_since(operations, n - 1, id),
        }
    }
}

/// Whether there was an insertion under `id` among the first `n` operations.
pub open spec fn was_inserted(operations: Seq<Operation>, n: int, id: Seq<char>) -> bool {
    exists|i: int|
        0 <= i < n && (#[trigger] operations[i]) is Insert && operations[i]->Insert_id == id
}

/// After any history, looking an entry up gives what the history says of it, whether or not it has
/// expired. An id that was never inserted has no entry.
pub proof fn lookup_recalls_history(
    states: Seq<Entries>,
    limit: usize,
    operations: Seq<Operation>,
    n: int,
    id: Seq<char>,
)
    requires
        is_history(states, limit, operations),
        0 <= n <= operations.len(),
    ensures
        lookup(states[n], id) == recalled(states, operations, n, id),
        !was_inserted(operations, n, id) ==> lookup(states[n], id) is None,
    decreases n,
{
    if n > 0 {
        lookup_recalls_history(states, limit, operations, n - 1, id);
        let operation = operations[n - 1];
        assert(step(states[n - 1], limit, operation, states[n]));
        if was_inserted(operations, n - 1, id) {
            let i = choose|i: int|
                0 <= i < n - 1 && (#[trigger] operations[i]) is Insert && operations[i]->Insert_id
                    == id;
            assert(0 <= i < n && operations[i] is Insert);
        }
        if operation is Insert {
            insertion_spares(
                states[n - 1],
                limit,
                operation->Insert_id,
                fresh_record(
                    operation->body,
                    operation->content_type,
                    operation->expires_at,
                    operation->created_at,
                ),
                states[n],
            );
        }
    }
}

/// After any history an entry is marked exactly if it was acknowledged after its last insertion,
/// and holds a message body exactly if it is not marked.
pub proof fn mark_tells_acknowledgement(
    states: Seq<Entries>,
    limit: usize,
    operations: Seq<Operation>,
    n: int,
)
    requires
        is_history(states, limit, operations),
        0 <= n <= operations.len(),
    ensures
        is_consistent(states[n]),
        forall|id: Seq<char>| #[trigger]
            states[n].contains_key(id) ==> states[n][id].entry.acked == acked_since(
                operations,
                n,
                id,
            ),
    decreases n,
{
    if n > 0 {
        mark_tells_acknowledgement(states, limit, operations, n - 1);
        let operation = operations[n - 1];
        assert(step(states[n - 1], limit, operation, states[n]));
        if operation is Insert {
            insertion_spares(
                states[n - 1],
                limit,
                operation->Insert_id,
                fresh_record(
                    operation->body,
                    operation->content_type,
                    operation->expires_at,
                    operation->created_at,
                ),
                states[n],
            );
        }
        let rows = states[n];
        assert forall|id: Seq<char>| #[trigger] rows.contains_key(id) implies rows[id].entry.acked
            == acked_since(operations, n, id) && (rows[id].entry.acked
            <==> rows[id].entry.message_body is None) by {
            assert(states[n - 1].contains_key(id) ==> states[n - 1][id].entry.acked == acked_since(
                operations,
                n - 1,
                id,
            ));
        }
    }
}

/// Memory is bounded: after any history there are no more entries than the limit allows; a limit
/// of zero still admits one.
pub proof fn entries_are_bounded(
    states: Seq<Entries>,
    limit: usize,
    operations: Seq<Operation>,
    n: int,
)
    requires
        is_history(states, limit, operations),
        0 <= n <= operations.len(),
    ensures
        states[n].dom().finite(),
        states[n].len() <= limit || states[n].len() <= 1,
    decreases n,
{
    if n > 0 {
        entries_are_bounded(states, limit, operations, n - 1);
        let operation = operations[n - 1];
        assert(step(states[n - 1], limit, operation, states[n]));
        match operation {
            Operation::Insert { id, body, content_type, expires_at, created_at } => {
                insertion_is_bounded(
                    states[n - 1],
                    limit,
                    id,
                    fresh_record(body, content_type, expires_at, created_at),
                    states[n],
                );
            },
            Operation::Acknowledge(id) => {
                acknowledging_keeps_ids(states[n - 1], id);
            },
            Operation::Delete(id) => {
                deletion_is_counted(states[n - 1], id);
            },
            Operation::Cleanup(now) => {
                cleanup_is_counted(states[n - 1], now);
            },
        }
    }
}

/// Storing a message, if it is persisted, is an insertion.
pub proof fn store_is_a_step<R: Repository>(
    before: WaitingList<R>,
    now: i64,
    id: Seq<char>,
    message: MessageView,
    ttl: Duration,
    outcome: StoreOutcome,
    after: WaitingList<R>,
)
    requires
        WaitingList::stored(before, now, id, message, ttl, outcome, after),
        before.exclusive(),
        outcome.persisted is Ok,
    ensures
        step(
            before.rows(),
            before.limit(),
            Operation::Insert {
                id,
                body: message.body,
                content_type: message.content_type,
                expires_at: deadline(now, ttl),
                created_at: now,
            },
            after.rows(),
        ),
{
}

/// Acknowledging an entry of a waiting list, if it succeeds, is an acknowledgement, the second time
/// as well as the first.
pub proof fn ack_is_a_step<R: Repository>(
    before: WaitingList<R>,
    now: i64,
    id: Seq<char>,
    reading: Reading,
    outcome: AckOutcome,
    after: WaitingList<R>,
)
    requires
        WaitingList::acked_given(before, now, id, reading, outcome, after),
        before.exclusive(),
        outcome.acked,
        is_consistent(before.rows()),
    ensures
        step(before.rows(), before.limit(), Operation::Acknowledge(id), after.rows()),
{
    if before.rows()[id].entry.acked {
        assert(before.rows().contains_key(id));
        assert(acked_record(before.rows()[id]) == before.rows()[id]);
        assert(acknowledged(before.rows(), id) =~= before.rows());
    }
}

/// A cleanup of a waiting list, where the repository answers, is a cleanup.
pub proof fn cleanup_is_a_step<R: Repository>(
    before: WaitingList<R>,
    now: i64,
    closed: Seq<u64>,
    gone: Set<Seq<char>>,
    outcome: CleanupOutcome,
    after: WaitingList<R>,
)
    requires
        WaitingList::cleaned_given(before, now, closed, gone, true, outcome, after),
        before.exclusive(),
    ensures
        step(before.rows(), before.limit(), Operation::Cleanup(now), after.rows()),
{
}

/// What a waiting list reports of an entry after a history: nothing if the entry is missing or has
/// expired, and otherwise whether it was acknowledged after the last message was stored under it.
pub proof fn status_tells_history<R: Repository>(
    states: Seq<Entries>,
    operations: Seq<Operation>,
    list: WaitingList<R>,
    now: i64,
    id: Seq<char>,
    reading: Reading,
    status: Option<bool>,
)
    requires
        is_history(states, list.limit(), operations),
        list.rows() == states.last(),
        list.exclusive(),
        list.status_given(now, id, reading, status),
        reading !is Failed,
    ensures
        status == if is_live(list.rows(), id, now) {
            Some(acked_since(operations, operations.len() as int, id))
        } else {
            None
        },
        status is Some <==> (recalled(
            states,
            operations,
            operations.len() as int,
            id,
        ) matches Some(entry) && !has_expired(now, entry.expires_at)),
{
    let n = operations.len() as int;
    mark_tells_acknowledgement(states, list.limit(), operations, n);
    lookup_recalls_history(states, list.limit(), operations, n, id);
}

/// The message that a waiting list gives out after a history: one is given exactly while the entry
/// is live and was not acknowledged after the last message was stored under it, and it is that
/// last message.
pub proof fn message_tells_history<R: Repository>(
    states: Seq<Entries>,
    operations: Seq<Operation>,
    before: WaitingList<R>,
    now: i64,
    id: Seq<char>,
    handle: u64,
    reading: Reading,
    result: Result<GetOrSubscribeResult, SubscribeError>,
    after: WaitingList<R>,
)
    requires
        is_history(states, before.limit(), operations),
        before.rows() == states.last(),
        before.exclusive(),
        WaitingList::requested_given(before, now, id, handle, reading, result, after),
        reading !is Failed,
    ensures
        result matches Ok(GetOrSubscribeResult::Message(_)) <==> is_live(before.rows(), id, now)
            && !acked_since(operations, operations.len() as int, id),
        result matches Ok(GetOrSubscribeResult::Message(message)) ==> (recalled(
            states,
            operations,
            operations.len() as int,
            id,
        ) matches Some(entry) && entry.message_body == Some(message@.body) && entry.content_type
            == message@.content_type),
        result matches Ok(GetOrSubscribeResult::Message(_)) ==> after.rows() == before.rows()
            && after.waiters() == before.waiters(),
{
    let n = operations.len() as int;
    mark_tells_acknowledgement(states, before.limit(), operations, n);
    lookup_recalls_history(states, before.limit(), operations, n, id);
    message_is_given_until_acked(before, now, id, handle, reading, result, after);
}

} // verus!
