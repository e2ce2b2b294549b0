//! What holds of a waiting list across several operations.
//!
//! Each statement takes the list before and after the operations it speaks of, and the results
//! that they gave, as described by `WaitingList::stored` and by `acked_given`, `status_given`,
//! `subscribed_given`, `requested_given` and `cleaned_given`. These also take what the repository
//! answered; where a statement needs an answer it says so. A list that is `certain` always gets
//! one.

use crate::clock::{duration_millis, expiry, has_expired};
use crate::entries::{
    acknowledgement_keeps_consistency, agree_but, cleanup_is_counted, cleanup_keeps_consistency,
    fresh_record, insertion_keeps_consistency, insertion_spares, is_consistent, is_live, lookup,
    Record,
};
use crate::payload::MessageView;
use crate::repository::Repository;
use crate::waiters::{acks_of, messages_of, open_handles_members, waits};
use crate::waiting_list::{
    is_overdue, AckOutcome, AckSubscription, CleanupOutcome, GetOrSubscribeResult, Reading,
    StoreOutcome, SubscribeError, WaitingList,
};
use std::time::Duration;
use vstd::prelude::*;

verus! {

/// The time at which a message stored at `now` expires.
pub open spec fn deadline(now: i64, ttl: Duration) -> i64 {
    expiry(now, duration_millis(ttl)) as i64
}

/// The record that storing a message writes.
pub open spec fn stored_record(now: i64, message: MessageView, ttl: Duration) -> Record {
    fresh_record(message.body, message.content_type, deadline(now, ttl), now)
}

/// A message that was persisted stands in the repository, and every other entry is as it was, but
/// for at most one that made room.
pub proof fn store_writes_and_spares<R: Repository>(
    before: WaitingList<R>,
    now: i64,
    id: Seq<char>,
    message: MessageView,
    ttl: Duration,
    outcome: StoreOutcome,
    after: WaitingList<R>,
)
    requires
        WaitingList::stored(before, now, id, message, ttl, outcome, after),
        before.exclusive(),
        outcome.persisted is Ok,
    ensures
        after.rows().contains_key(id),
        after.rows()[id] == stored_record(now, message, ttl),
        exists|victim: Seq<char>| #[trigger] agree_but(before.rows(), after.rows(), id, victim),
        forall|other: Seq<char>| #[trigger]
            after.rows().contains_key(other) && other != id ==> {
                &&& before.rows().contains_key(other)
                &&& after.rows()[other] == before.rows()[other]
            },
{
    let record = stored_record(now, message, ttl);
    insertion_spares(before.rows(), before.limit(), id, record, after.rows());
}

/// A message that was persisted is what a reader gets until it expires; a reader who comes later
/// does not get it. That reader waits, or is refused for want of room.
pub proof fn stored_message_is_read<R: Repository>(
    before: WaitingList<R>,
    now: i64,
    id: Seq<char>,
    message: MessageView,
    ttl: Duration,
    outcome: StoreOutcome,
    between: WaitingList<R>,
    later: i64,
    handle: u64,
    reading: Reading,
    result: Result<GetOrSubscribeResult, SubscribeError>,
    after: WaitingList<R>,
)
    requires
        WaitingList::stored(before, now, id, message, ttl, outcome, between),
        WaitingList::requested_given(between, later, id, handle, reading, result, after),
        before.exclusive(),
        outcome.persisted is Ok,
    ensures
        result matches Ok(GetOrSubscribeResult::Message(read)) ==> read@ == message && !has_expired(
            later,
            deadline(now, ttl),
        ),
        reading !is Failed && !has_expired(later, deadline(now, ttl)) ==> (result matches Ok(
            GetOrSubscribeResult::Message(read),
        ) && read@ == message),
{
    store_writes_and_spares(before, now, id, message, ttl, outcome, between);
}

/// A new message needs a new acknowledgement: after a message was persisted its entry is not
/// acknowledged until it expires, whatever stood there before; from then on nothing is reported.
pub proof fn store_resets_ack<R: Repository>(
    before: WaitingList<R>,
    now: i64,
    id: Seq<char>,
    message: MessageView,
    ttl: Duration,
    outcome: StoreOutcome,
    after: WaitingList<R>,
    later: i64,
    reading: Reading,
    status: Option<bool>,
)
    requires
        WaitingList::stored(before, now, id, message, ttl, outcome, after),
        after.status_given(later, id, reading, status),
        before.exclusive(),
        outcome.persisted is Ok,
    ensures
        status != Some(true),
        reading !is Failed && !has_expired(later, deadline(now, ttl)) ==> status == Some(false),
        has_expired(later, deadline(now, ttl)) ==> status is None,
{
    store_writes_and_spares(before, now, id, message, ttl, outcome, after);
}

/// Storing a message keeps it so that an entry holds a message body exactly until it is
/// acknowledged.
pub proof fn store_keeps_consistency<R: Repository>(
    before: WaitingList<R>,
    now: i64,
    id: Seq<char>,
    message: MessageView,
    ttl: Duration,
    outcome: StoreOutcome,
    after: WaitingList<R>,
)
    requires
        WaitingList::stored(before, now, id, message, ttl, outcome, after),
        before.exclusive(),
        outcome.persisted is Ok,
        is_consistent(before.rows()),
    ensures
        is_consistent(after.rows()),
{
    insertion_keeps_consistency(
        before.rows(),
        before.limit(),
        id,
        message.body,
        message.content_type,
        deadline(now, ttl),
        now,
        after.rows(),
    );
}

/// Acknowledging an entry keeps it so that an entry holds a message body exactly until it is
/// acknowledged.
pub proof fn ack_keeps_consistency<R: Repository>(
    before: WaitingList<R>,
    now: i64,
    id: Seq<char>,
    reading: Reading,
    outcome: AckOutcome,
    after: WaitingList<R>,
)
    requires
        WaitingList::acked_given(before, now, id, reading, outcome, after),
        before.exclusive(),
        outcome.acked,
        is_consistent(before.rows()),
    ensures
        is_consistent(after.rows()),
{
    acknowledgement_keeps_consistency(before.rows(), id);
}

/// A cleanup keeps it so that an entry holds a message body exactly until it is acknowledged.
pub proof fn cleanup_of_list_keeps_consistency<R: Repository>(
    before: WaitingList<R>,
    now: i64,
    closed: Seq<u64>,
    gone: Set<Seq<char>>,
    outcome: CleanupOutcome,
    after: WaitingList<R>,
)
    requires
        WaitingList::cleaned_given(before, now, closed, gone, true, outcome, after),
        before.exclusive(),
        is_consistent(before.rows()),
    ensures
        is_consistent(after.rows()),
{
    cleanup_keeps_consistency(before.rows(), now);
}

/// A message is given out exactly while its entry is live and unacknowledged: as it stands in the
/// entry, and leaving the list as it was.
pub proof fn message_is_given_until_acked<R: Repository>(
    before: WaitingList<R>,
    now: i64,
    id: Seq<char>,
    handle: u64,
    reading: Reading,
    result: Result<GetOrSubscribeResult, SubscribeError>,
    after: WaitingList<R>,
)
    requires
        WaitingList::requested_given(before, now, id, handle, reading, result, after),
        before.exclusive(),
        reading !is Failed,
        is_consistent(before.rows()),
    ensures
        result matches Ok(GetOrSubscribeResult::Message(_)) <==> is_live(before.rows(), id, now)
            && !before.rows()[id].entry.acked,
        result matches Ok(GetOrSubscribeResult::Message(message)) ==> {
            &&& before.rows()[id].entry.message_body == Some(message@.body)
            &&& before.rows()[id].entry.content_type == message@.content_type
            &&& after.waiters() == before.waiters()
        },
        after.rows() == before.rows(),
{
}

/// Acknowledging an entry leaves it marked, without a body, with its expiry as it was, and all the
/// entries under the ids that they had.
pub proof fn ack_marks_entry<R: Repository>(
    before: WaitingList<R>,
    now: i64,
    id: Seq<char>,
    reading: Reading,
    outcome: AckOutcome,
    after: WaitingList<R>,
)
    requires
        WaitingList::acked_given(before, now, id, reading, outcome, after),
        before.exclusive(),
        outcome.acked,
        is_consistent(before.rows()),
    ensures
        is_live(before.rows(), id, now),
        after.rows().dom() == before.rows().dom(),
        after.rows()[id].entry.acked,
        after.rows()[id].entry.message_body is None,
        after.rows()[id].entry.expires_at == before.rows()[id].entry.expires_at,
{
    assert(after.rows().dom() =~= before.rows().dom());
}

/// Once an entry is acknowledged, that is what is reported of it until it expires.
pub proof fn ack_is_reported<R: Repository>(
    before: WaitingList<R>,
    now: i64,
    id: Seq<char>,
    ack_reading: Reading,
    outcome: AckOutcome,
    after: WaitingList<R>,
    later: i64,
    reading: Reading,
    status: Option<bool>,
)
    requires
        WaitingList::acked_given(before, now, id, ack_reading, outcome, after),
        after.status_given(later, id, reading, status),
        before.exclusive(),
        outcome.acked,
    ensures
        status != Some(false),
        reading !is Failed && later < before.rows()[id].entry.expires_at ==> status == Some(true),
{
    assert(after.rows()[id].entry.expires_at == before.rows()[id].entry.expires_at);
    assert(after.rows()[id].entry.acked);
}

/// Once an entry is acknowledged, its message is no longer given out.
pub proof fn acked_message_is_withheld<R: Repository>(
    before: WaitingList<R>,
    now: i64,
    id: Seq<char>,
    ack_reading: Reading,
    outcome: AckOutcome,
    between: WaitingList<R>,
    later: i64,
    handle: u64,
    reading: Reading,
    result: Result<GetOrSubscribeResult, SubscribeError>,
    after: WaitingList<R>,
)
    requires
        WaitingList::acked_given(before, now, id, ack_reading, outcome, between),
        WaitingList::requested_given(between, later, id, handle, reading, result, after),
        before.exclusive(),
        outcome.acked,
        is_consistent(before.rows()),
    ensures
        !(result matches Ok(GetOrSubscribeResult::Message(_))),
{
    ack_marks_entry(before, now, id, ack_reading, outcome, between);
}

/// Acknowledging succeeds exactly on live entries, where the repository can be read and written.
pub proof fn ack_takes_live_entries<R: Repository>(
    before: WaitingList<R>,
    now: i64,
    id: Seq<char>,
    reading: Reading,
    outcome: AckOutcome,
    after: WaitingList<R>,
)
    requires
        WaitingList::acked_given(before, now, id, reading, outcome, after),
        before.exclusive(),
    ensures
        outcome.acked ==> is_live(before.rows(), id, now),
        before.certain() ==> (outcome.acked <==> is_live(before.rows(), id, now)),
        reading !is Failed && is_live(before.rows(), id, now) && before.rows()[id].entry.acked
            ==> outcome.acked,
        !is_live(before.rows(), id, now) ==> after.rows() == before.rows() && after.waiters()
            == before.waiters(),
{
}

/// Acknowledging an entry a second time succeeds, notifies nobody and changes no entry.
pub proof fn ack_is_idempotent<R: Repository>(
    before: WaitingList<R>,
    now: i64,
    id: Seq<char>,
    first_reading: Reading,
    first: AckOutcome,
    between: WaitingList<R>,
    later: i64,
    second_reading: Reading,
    second: AckOutcome,
    after: WaitingList<R>,
)
    requires
        WaitingList::acked_given(before, now, id, first_reading, first, between),
        WaitingList::acked_given(between, later, id, second_reading, second, after),
        before.exclusive(),
        first.acked,
    ensures
        second.notified@.len() == 0,
        after.waiters() == between.waiters(),
        after.rows() == between.rows(),
        second_reading !is Failed && later < before.rows()[id].entry.expires_at ==> second.acked,
{
    assert(between.rows()[id].entry.acked);
    assert(between.rows()[id].entry.expires_at == before.rows()[id].entry.expires_at);
}

/// A reader who came before the producer gets the next message stored under the id.
pub proof fn waiting_reader_gets_next_message<R: Repository>(
    before: WaitingList<R>,
    now: i64,
    id: Seq<char>,
    handle: u64,
    between: WaitingList<R>,
    later: i64,
    message: MessageView,
    ttl: Duration,
    outcome: StoreOutcome,
    after: WaitingList<R>,
)
    requires
        WaitingList::message_requested(
            before,
            now,
            id,
            handle,
            Ok(GetOrSubscribeResult::Waiting(handle)),
            between,
        ),
        WaitingList::stored(between, later, id, message, ttl, outcome, after),
    ensures
        outcome.notified@ == messages_of(before.waiters(), id).push(handle),
        outcome.notified@.contains(handle),
        outcome.message@ == message,
        !waits(after.waiters(), id, handle),
{
    assert(outcome.notified@.last() == handle);
}

/// A producer who waits for the acknowledgement is told when it comes.
pub proof fn waiting_producer_is_told<R: Repository>(
    before: WaitingList<R>,
    now: i64,
    id: Seq<char>,
    handle: u64,
    between: WaitingList<R>,
    later: i64,
    outcome: AckOutcome,
    after: WaitingList<R>,
)
    requires
        WaitingList::ack_subscribed(
            before,
            now,
            id,
            handle,
            Ok(AckSubscription::Waiting(handle)),
            between,
        ),
        WaitingList::acked_at(between, later, id, outcome, after),
        before.exclusive(),
        outcome.acked,
    ensures
        outcome.notified@ == acks_of(before.waiters(), id).push(handle),
        outcome.notified@.contains(handle),
{
    let acks = acks_of(before.waiters(), id).push(handle);
    assert(acks.last() == handle);
    assert(acks_of(between.waiters(), id) == acks);
}

/// A producer who waits for the acknowledgement is let go when another message takes the place of
/// the one that it waits for.
pub proof fn overwritten_producer_is_let_go<R: Repository>(
    before: WaitingList<R>,
    now: i64,
    id: Seq<char>,
    handle: u64,
    between: WaitingList<R>,
    later: i64,
    message: MessageView,
    ttl: Duration,
    outcome: StoreOutcome,
    after: WaitingList<R>,
)
    requires
        WaitingList::ack_subscribed(
            before,
            now,
            id,
            handle,
            Ok(AckSubscription::Waiting(handle)),
            between,
        ),
        WaitingList::stored(between, later, id, message, ttl, outcome, after),
    ensures
        outcome.dropped@ == acks_of(before.waiters(), id).push(handle),
        outcome.dropped@.contains(handle),
{
    let acks = acks_of(before.waiters(), id).push(handle);
    assert(acks.last() == handle);
    assert(acks_of(between.waiters(), id) == acks);
}

/// Subscribing to an entry that is acknowledged already never makes anybody wait nor reaches the
/// limit, however often it is done: each time the answer is at hand, and the list stays as it was.
pub proof fn acked_entry_takes_any_number<R: Repository>(
    states: Seq<WaitingList<R>>,
    times: Seq<i64>,
    id: Seq<char>,
    handles: Seq<u64>,
    readings: Seq<Reading>,
    results: Seq<Result<AckSubscription, SubscribeError>>,
    n: int,
)
    requires
        0 <= n < states.len(),
        states[0].exclusive(),
        states[0].rows().contains_key(id),
        states[0].rows()[id].entry.acked,
        forall|i: int| #![trigger states[i]]
            0 <= i < n ==> {
                &&& WaitingList::subscribed_given(
                    states[i],
                    times[i],
                    id,
                    handles[i],
                    readings[i],
                    results[i],
                    states[i + 1],
                )
                &&& readings[i] !is Failed
                &&& times[i] < states[0].rows()[id].entry.expires_at
            },
    ensures
        states[n].rows() == states[0].rows(),
        states[n].waiters() == states[0].waiters(),
        states[n].exclusive(),
        forall|i: int| #![trigger results[i]]
            0 <= i < n ==> results[i] == Ok::<_, SubscribeError>(AckSubscription::AlreadyAcked),
    decreases n,
{
    if n > 0 {
        acked_entry_takes_any_number(states, times, id, handles, readings, results, n - 1);
        let last = states[n - 1];
        assert(WaitingList::subscribed_given(
            states[n - 1],
            times[n - 1],
            id,
            handles[n - 1],
            readings[n - 1],
            results[n - 1],
            states[n],
        ));
    }
}

/// An acknowledgement wakes those who wait for it, and nobody who waits for a message: reading a
/// message and acknowledging it are different events.
pub proof fn ack_leaves_readers_waiting<R: Repository>(
    before: WaitingList<R>,
    now: i64,
    id: Seq<char>,
    outcome: AckOutcome,
    after: WaitingList<R>,
)
    requires
        WaitingList::acked_at(before, now, id, outcome, after),
    ensures
        messages_of(after.waiters(), id) == messages_of(before.waiters(), id),
{
    if messages_of(before.waiters(), id).len() == 0 {
        assert(messages_of(before.waiters(), id) =~= Seq::empty());
    }
}

/// Reading takes nothing away: a second reader before the entry expires is answered as the first,
/// and those who wait for the acknowledgement go on waiting.
pub proof fn reading_consumes_nothing<R: Repository>(
    before: WaitingList<R>,
    now: i64,
    id: Seq<char>,
    first_handle: u64,
    first_reading: Reading,
    first: Result<GetOrSubscribeResult, SubscribeError>,
    between: WaitingList<R>,
    later: i64,
    second_handle: u64,
    second_reading: Reading,
    second: Result<GetOrSubscribeResult, SubscribeError>,
    after: WaitingList<R>,
)
    requires
        WaitingList::requested_given(
            before,
            now,
            id,
            first_handle,
            first_reading,
            first,
            between,
        ),
        WaitingList::requested_given(
            between,
            later,
            id,
            second_handle,
            second_reading,
            second,
            after,
        ),
        before.exclusive(),
        second_reading !is Failed,
        is_live(before.rows(), id, later),
    ensures
        first matches Ok(GetOrSubscribeResult::Message(one)) ==> (second matches Ok(
            GetOrSubscribeResult::Message(two),
        ) && two@ == one@),
        acks_of(after.waiters(), id) == acks_of(before.waiters(), id),
        after.rows() == before.rows(),
{
}

/// Storing a message under one id leaves those who wait under another alone.
pub proof fn store_leaves_other_ids<R: Repository>(
    before: WaitingList<R>,
    now: i64,
    id: Seq<char>,
    message: MessageView,
    ttl: Duration,
    outcome: StoreOutcome,
    after: WaitingList<R>,
    other: Seq<char>,
)
    requires
        WaitingList::stored(before, now, id, message, ttl, outcome, after),
        other != id,
    ensures
        acks_of(after.waiters(), other) == acks_of(before.waiters(), other),
        messages_of(after.waiters(), other) == messages_of(before.waiters(), other),
{
}

/// Acknowledging one id leaves those who wait under another alone.
pub proof fn ack_leaves_other_ids<R: Repository>(
    before: WaitingList<R>,
    now: i64,
    id: Seq<char>,
    outcome: AckOutcome,
    after: WaitingList<R>,
    other: Seq<char>,
)
    requires
        WaitingList::acked_at(before, now, id, outcome, after),
        other != id,
    ensures
        acks_of(after.waiters(), other) == acks_of(before.waiters(), other),
        messages_of(after.waiters(), other) == messages_of(before.waiters(), other),
{
}

/// Subscribing under one id leaves those who wait under another alone.
pub proof fn subscription_leaves_other_ids<R: Repository>(
    before: WaitingList<R>,
    now: i64,
    id: Seq<char>,
    handle: u64,
    result: Result<AckSubscription, SubscribeError>,
    after: WaitingList<R>,
    other: Seq<char>,
)
    requires
        WaitingList::ack_subscribed(before, now, id, handle, result, after),
        other != id,
    ensures
        acks_of(after.waiters(), other) == acks_of(before.waiters(), other),
        messages_of(after.waiters(), other) == messages_of(before.waiters(), other),
{
}

/// Asking for a message under one id leaves those who wait under another alone.
pub proof fn request_leaves_other_ids<R: Repository>(
    before: WaitingList<R>,
    now: i64,
    id: Seq<char>,
    handle: u64,
    result: Result<GetOrSubscribeResult, SubscribeError>,
    after: WaitingList<R>,
    other: Seq<char>,
)
    requires
        WaitingList::message_requested(before, now, id, handle, result, after),
        other != id,
    ensures
        acks_of(after.waiters(), other) == acks_of(before.waiters(), other),
        messages_of(after.waiters(), other) == messages_of(before.waiters(), other),
{
}

/// A cleanup never takes away a request that is still there and whose entry has not expired. In
/// particular a consumer who came before the producer, and waits where there is no entry yet,
/// goes on waiting.
pub proof fn cleanup_keeps_live_waiters<R: Repository>(
    before: WaitingList<R>,
    now: i64,
    closed: Seq<u64>,
    outcome: CleanupOutcome,
    after: WaitingList<R>,
    id: Seq<char>,
    handle: u64,
)
    requires
        WaitingList::cleaned_up(before, now, closed, outcome, after),
        before.exclusive(),
        waits(before.waiters(), id, handle),
        !closed.contains(handle),
        !is_overdue(before.rows(), id, now),
    ensures
        waits(after.waiters(), id, handle),
        acks_of(before.waiters(), id).contains(handle) ==> acks_of(after.waiters(), id).contains(
            handle,
        ),
        messages_of(before.waiters(), id).contains(handle) ==> messages_of(
            after.waiters(),
            id,
        ).contains(handle),
{
    open_handles_members(before.waiters()[id].acks, closed, handle);
    open_handles_members(before.waiters()[id].messages, closed, handle);
    let open = before.waiters()[id].still_open(closed);
    assert(open.has(handle));
    assert(!open.is_idle());
}

/// After a cleanup nobody waits whose request has gone away, nor, where the repository answered,
/// under an id whose entry has expired; and whoever was taken off the list is named in the
/// outcome.
pub proof fn cleanup_removes_stale_waiters<R: Repository>(
    before: WaitingList<R>,
    now: i64,
    closed: Seq<u64>,
    gone: Set<Seq<char>>,
    answered: bool,
    outcome: CleanupOutcome,
    after: WaitingList<R>,
    id: Seq<char>,
    handle: u64,
)
    requires
        WaitingList::cleaned_given(before, now, closed, gone, answered, outcome, after),
        waits(before.waiters(), id, handle),
        closed.contains(handle) || (before.exclusive() && answered && is_overdue(
            before.rows(),
            id,
            now,
        )),
    ensures
        !waits(after.waiters(), id, handle),
        outcome.dropped@.contains(handle),
{
    if after.waiters().contains_key(id) {
        open_handles_members(before.waiters()[id].acks, closed, handle);
        open_handles_members(before.waiters()[id].messages, closed, handle);
    }
    assert(waits(before.waiters(), id, handle) && !waits(after.waiters(), id, handle));
}

/// A cleanup deletes nothing that can still be read, and a second one at the same time finds
/// nothing left to delete.
pub proof fn cleanup_deletes_only_expired<R: Repository>(
    before: WaitingList<R>,
    now: i64,
    closed: Seq<u64>,
    first_gone: Set<Seq<char>>,
    first: CleanupOutcome,
    between: WaitingList<R>,
    second_gone: Set<Seq<char>>,
    second: CleanupOutcome,
    after: WaitingList<R>,
    id: Seq<char>,
)
    requires
        before.wf(),
        WaitingList::cleaned_given(before, now, closed, first_gone, true, first, between),
        WaitingList::cleaned_given(between, now, closed, second_gone, true, second, after),
        before.exclusive(),
    ensures
        is_live(before.rows(), id, now) ==> lookup(between.rows(), id) == lookup(
            before.rows(),
            id,
        ),
        second.removed == 0,
        after.rows() == between.rows(),
{
    before.rows_are_finite();
    cleanup_is_counted(before.rows(), now);
}

} // verus!
