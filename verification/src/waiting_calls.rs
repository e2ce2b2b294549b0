//! What every call of a waiting list's operations does.
//!
//! Each statement is about one call, or about two in a row: if a call on the list behind `list` can
//! end with this result, then what is stated holds, whatever the list and the arguments. `before`
//! is the list before the call, and `after` the list after it. What is found and what becomes of it
//! is said of the rows and of those who wait, id by id.

use crate::clock::{
    duration_millis, expiry, lifetime_is_exact, unix_timestamp_millis, wrapped,
};
use crate::entries::{fresh_record, is_oldest, Record, StoredEntry};
use crate::laws::{store_writes_and_spares, stored_record};
use crate::payload::{bytes_content, optional_text, Message};
use crate::persistence::EntryRepository;
use crate::repository::{optional_str, Repository, StorageError};
use crate::waiters::{each_once, lists, open_handles_members, waits};
use crate::waiting_list::{
    entry_message, AckOutcome, AckSubscription, CleanupOutcome, GetOrSubscribeResult,
    StoreOutcome, SubscribeError, WaitingList,
};
use std::time::Duration;
use vstd::prelude::*;

verus! {

/// Asking for a message is refused only where ten requests wait for one under the same id already,
/// whoever waits under other ids. A refusal leaves everything as it was.
pub proof fn readers_are_refused_at_ten<R: Repository>(
    list: Ghost<&mut WaitingList<R>>,
    before: WaitingList<R>,
    now: i64,
    id: &str,
    handle: u64,
    result: Result<GetOrSubscribeResult, SubscribeError>,
    after: WaitingList<R>,
)
    requires
        call_ensures(WaitingList::<R>::get_or_subscribe_at, (list@, now, id, handle), result),
        before == *list@,
        after == *final(list@),
        result is Err,
    ensures
        result == Err::<GetOrSubscribeResult, _>(SubscribeError::WaiterLimitReached),
        before.waiters().contains_key(id@),
        before.waiters()[id@].messages.len() >= 10,
        after.waiters() == before.waiters(),
        after.rows() == before.rows(),
{
}

/// A request that is answered at once is given what stands under the id: the body and the content
/// type of an entry whose expiry lies ahead. It changes nothing.
pub proof fn readers_are_given_live_messages<R: Repository>(
    list: Ghost<&mut WaitingList<R>>,
    before: WaitingList<R>,
    now: i64,
    id: &str,
    handle: u64,
    result: Result<GetOrSubscribeResult, SubscribeError>,
    after: WaitingList<R>,
)
    requires
        call_ensures(WaitingList::<R>::get_or_subscribe_at, (list@, now, id, handle), result),
        before == *list@,
        after == *final(list@),
        result matches Ok(GetOrSubscribeResult::Message(_)),
    ensures
        before.exclusive() ==> before.rows().contains_key(id@)
            && now < before.rows()[id@].entry.expires_at,
        before.exclusive() ==> before.rows()[id@].entry.message_body == Some(
            bytes_content(&result->Ok_0->Message_0.body),
        ),
        before.exclusive() ==> before.rows()[id@].entry.content_type == optional_text(
            result->Ok_0->Message_0.content_type,
        ),
        after.waiters() == before.waiters(),
        after.rows() == before.rows(),
{
}

/// A message whose expiry lies ahead is given out, however many wait, unless the entry cannot be
/// read.
pub proof fn live_messages_are_given<R: Repository>(
    list: Ghost<&mut WaitingList<R>>,
    before: WaitingList<R>,
    now: i64,
    id: &str,
    handle: u64,
    result: Result<GetOrSubscribeResult, SubscribeError>,
    after: WaitingList<R>,
)
    requires
        call_ensures(WaitingList::<R>::get_or_subscribe_at, (list@, now, id, handle), result),
        before == *list@,
        after == *final(list@),
        before.exclusive(),
        !before.reading_may_fail(id@),
        before.rows().contains_key(id@),
        before.rows()[id@].entry.message_body is Some,
        now < before.rows()[id@].entry.expires_at,
    ensures
        result matches Ok(GetOrSubscribeResult::Message(_)),
{
}

/// A request that finds no live message waits, if fewer than ten wait for one under the same id:
/// last in the line there. Nobody else's place changes, and no entry does.
pub proof fn readers_wait_below_ten<R: Repository>(
    list: Ghost<&mut WaitingList<R>>,
    before: WaitingList<R>,
    now: i64,
    id: &str,
    handle: u64,
    result: Result<GetOrSubscribeResult, SubscribeError>,
    after: WaitingList<R>,
)
    requires
        call_ensures(WaitingList::<R>::get_or_subscribe_at, (list@, now, id, handle), result),
        before == *list@,
        after == *final(list@),
        before.exclusive(),
        !before.rows().contains_key(id@) || now >= before.rows()[id@].entry.expires_at
            || before.rows()[id@].entry.message_body is None,
        before.waiters().contains_key(id@) ==> before.waiters()[id@].messages.len() < 10,
    ensures
        result == Ok::<_, SubscribeError>(GetOrSubscribeResult::Waiting(handle)),
        after.rows() == before.rows(),
        after.waiters().contains_key(id@),
        after.waiters()[id@].messages.last() == handle,
        before.waiters().contains_key(id@) ==> after.waiters()[id@].messages.drop_last()
            == before.waiters()[id@].messages && after.waiters()[id@].acks
            == before.waiters()[id@].acks,
        !before.waiters().contains_key(id@) ==> after.waiters()[id@].messages.len() == 1
            && after.waiters()[id@].acks.len() == 0,
        after.waiters().remove(id@) == before.waiters().remove(id@),
{
    assert(after.waiters().remove(id@) =~= before.waiters().remove(id@));
    if before.waiters().contains_key(id@) {
        assert(after.waiters()[id@].messages.drop_last() =~= before.waiters()[id@].messages);
    }
}

/// Nobody waits unless a line of fewer than ten had room, and whoever waits does so under the
/// handle that was given.
pub proof fn waiting_readers_had_room<R: Repository>(
    list: Ghost<&mut WaitingList<R>>,
    before: WaitingList<R>,
    now: i64,
    id: &str,
    handle: u64,
    result: Result<GetOrSubscribeResult, SubscribeError>,
    after: WaitingList<R>,
)
    requires
        call_ensures(WaitingList::<R>::get_or_subscribe_at, (list@, now, id, handle), result),
        before == *list@,
        after == *final(list@),
        result matches Ok(GetOrSubscribeResult::Waiting(_)),
    ensures
        result->Ok_0->Waiting_0 == handle,
        before.waiters().contains_key(id@) ==> before.waiters()[id@].messages.len() < 10,
        after.waiters().contains_key(id@),
        after.waiters()[id@].messages.len() <= 10,
        after.waiters()[id@].messages.last() == handle,
        after.waiters().remove(id@) == before.waiters().remove(id@),
{
    assert(after.waiters().remove(id@) =~= before.waiters().remove(id@));
}

/// Waiting for an acknowledgement is refused for want of room only where ten requests wait for that
/// of the same entry already, whoever waits elsewhere or for messages.
pub proof fn producers_are_refused_at_ten<R: Repository>(
    list: Ghost<&mut WaitingList<R>>,
    before: WaitingList<R>,
    now: i64,
    id: &str,
    handle: u64,
    result: Result<AckSubscription, SubscribeError>,
    after: WaitingList<R>,
)
    requires
        call_ensures(WaitingList::<R>::subscribe_ack_at, (list@, now, id, handle), result),
        before == *list@,
        after == *final(list@),
        result == Err::<AckSubscription, _>(SubscribeError::WaiterLimitReached),
    ensures
        before.waiters().contains_key(id@),
        before.waiters()[id@].acks.len() >= 10,
        after.waiters() == before.waiters(),
        after.rows() == before.rows(),
{
}

/// Where the entry can be read, an acknowledgement is waited for, or known, exactly if the entry is
/// there and its expiry lies ahead.
pub proof fn subscriptions_need_live_entries<R: Repository>(
    list: Ghost<&mut WaitingList<R>>,
    before: WaitingList<R>,
    now: i64,
    id: &str,
    handle: u64,
    result: Result<AckSubscription, SubscribeError>,
    after: WaitingList<R>,
)
    requires
        call_ensures(WaitingList::<R>::subscribe_ack_at, (list@, now, id, handle), result),
        before == *list@,
        after == *final(list@),
        before.exclusive(),
        !before.reading_may_fail(id@),
    ensures
        result == Err::<AckSubscription, _>(SubscribeError::NotFound) <==> !(
        before.rows().contains_key(id@) && now < before.rows()[id@].entry.expires_at),
        result == Ok::<_, SubscribeError>(AckSubscription::AlreadyAcked) <==> (
        before.rows().contains_key(id@) && now < before.rows()[id@].entry.expires_at
            && before.rows()[id@].entry.acked),
        result is Err ==> after.waiters() == before.waiters(),
        result matches Ok(AckSubscription::AlreadyAcked) ==> after.waiters() == before.waiters(),
        after.rows() == before.rows(),
{
}

/// A request for the acknowledgement of a live entry that has none yet waits, if fewer than ten
/// wait for it: last in the line there. Nobody else's place changes, and no entry does.
pub proof fn producers_wait_below_ten<R: Repository>(
    list: Ghost<&mut WaitingList<R>>,
    before: WaitingList<R>,
    now: i64,
    id: &str,
    handle: u64,
    result: Result<AckSubscription, SubscribeError>,
    after: WaitingList<R>,
)
    requires
        call_ensures(WaitingList::<R>::subscribe_ack_at, (list@, now, id, handle), result),
        before == *list@,
        after == *final(list@),
        before.exclusive(),
        !before.reading_may_fail(id@),
        before.rows().contains_key(id@),
        now < before.rows()[id@].entry.expires_at,
        !before.rows()[id@].entry.acked,
        before.waiters().contains_key(id@) ==> before.waiters()[id@].acks.len() < 10,
    ensures
        result == Ok::<_, SubscribeError>(AckSubscription::Waiting(handle)),
        after.rows() == before.rows(),
        after.waiters().contains_key(id@),
        after.waiters()[id@].acks.last() == handle,
        before.waiters().contains_key(id@) ==> after.waiters()[id@].acks.drop_last()
            == before.waiters()[id@].acks && after.waiters()[id@].messages
            == before.waiters()[id@].messages,
        !before.waiters().contains_key(id@) ==> after.waiters()[id@].acks.len() == 1
            && after.waiters()[id@].messages.len() == 0,
        after.waiters().remove(id@) == before.waiters().remove(id@),
{
    assert(after.waiters().remove(id@) =~= before.waiters().remove(id@));
    if before.waiters().contains_key(id@) {
        assert(after.waiters()[id@].acks.drop_last() =~= before.waiters()[id@].acks);
    }
}

/// Nobody waits for an acknowledgement unless a line of fewer than ten had room, for an entry that
/// is live and has none.
pub proof fn waiting_producers_had_room<R: Repository>(
    list: Ghost<&mut WaitingList<R>>,
    before: WaitingList<R>,
    now: i64,
    id: &str,
    handle: u64,
    result: Result<AckSubscription, SubscribeError>,
    after: WaitingList<R>,
)
    requires
        call_ensures(WaitingList::<R>::subscribe_ack_at, (list@, now, id, handle), result),
        before == *list@,
        after == *final(list@),
        result matches Ok(AckSubscription::Waiting(_)),
    ensures
        result->Ok_0->Waiting_0 == handle,
        before.waiters().contains_key(id@) ==> before.waiters()[id@].acks.len() < 10,
        before.exclusive() ==> before.rows().contains_key(id@) && now
            < before.rows()[id@].entry.expires_at && !before.rows()[id@].entry.acked,
        after.waiters().contains_key(id@),
        after.waiters()[id@].acks.len() <= 10,
        after.waiters()[id@].acks.last() == handle,
        after.waiters().remove(id@) == before.waiters().remove(id@),
{
    assert(after.waiters().remove(id@) =~= before.waiters().remove(id@));
}

/// Acknowledging an entry whose expiry lies ahead succeeds, whatever its id, where it can be read
/// and marked.
pub proof fn live_entries_are_acked<R: Repository>(
    list: Ghost<&mut WaitingList<R>>,
    before: WaitingList<R>,
    now: i64,
    id: &str,
    outcome: AckOutcome,
    after: WaitingList<R>,
)
    requires
        call_ensures(WaitingList::<R>::ack_at, (list@, now, id), outcome),
        before == *list@,
        after == *final(list@),
        before.exclusive(),
        !before.reading_may_fail(id@),
        !before.marking_may_fail(id@),
        before.rows().contains_key(id@),
        now < before.rows()[id@].entry.expires_at,
    ensures
        outcome.acked,
        after.rows().contains_key(id@),
        after.rows()[id@].entry.acked,
{
}

/// An acknowledgement that did not succeed, of an entry whose expiry lies ahead, comes of a
/// repository that could not be read or not be marked. It wakes nobody.
pub proof fn failed_acks_wake_nobody<R: Repository>(
    list: Ghost<&mut WaitingList<R>>,
    before: WaitingList<R>,
    now: i64,
    id: &str,
    outcome: AckOutcome,
    after: WaitingList<R>,
)
    requires
        call_ensures(WaitingList::<R>::ack_at, (list@, now, id), outcome),
        before == *list@,
        after == *final(list@),
        !outcome.acked,
    ensures
        before.exclusive() && before.rows().contains_key(id@) && now
            < before.rows()[id@].entry.expires_at ==> before.reading_may_fail(id@)
            || before.marking_may_fail(id@),
        outcome.notified@.len() == 0,
        after.waiters() == before.waiters(),
{
}

/// An acknowledgement that succeeded was of an entry whose expiry lay ahead. An entry that was not
/// marked before is marked now, its body is gone, and the rest of it and every other entry stay.
pub proof fn acked_entries_were_live<R: Repository>(
    list: Ghost<&mut WaitingList<R>>,
    before: WaitingList<R>,
    now: i64,
    id: &str,
    outcome: AckOutcome,
    after: WaitingList<R>,
)
    requires
        call_ensures(WaitingList::<R>::ack_at, (list@, now, id), outcome),
        before == *list@,
        after == *final(list@),
        before.exclusive(),
        outcome.acked,
    ensures
        before.rows().contains_key(id@),
        now < before.rows()[id@].entry.expires_at,
        after.rows().contains_key(id@),
        after.rows()[id@].entry.acked,
        after.rows()[id@].entry.expires_at == before.rows()[id@].entry.expires_at,
        after.rows()[id@].entry.content_type == before.rows()[id@].entry.content_type,
        after.rows()[id@].created_at == before.rows()[id@].created_at,
        !before.rows()[id@].entry.acked ==> after.rows()[id@].entry.message_body is None,
        before.rows()[id@].entry.acked ==> after.rows() == before.rows(),
        after.rows().remove(id@) == before.rows().remove(id@),
{
    assert(after.rows().remove(id@) =~= before.rows().remove(id@));
}

/// An acknowledgement that marks an entry tells all who wait for it, in the order in which they
/// came, and takes them off the list. One of an entry that was marked before tells nobody. Those
/// who wait for a message stay, and so does everybody under other ids.
pub proof fn acks_tell_all_who_wait<R: Repository>(
    list: Ghost<&mut WaitingList<R>>,
    before: WaitingList<R>,
    now: i64,
    id: &str,
    outcome: AckOutcome,
    after: WaitingList<R>,
)
    requires
        call_ensures(WaitingList::<R>::ack_at, (list@, now, id), outcome),
        before == *list@,
        after == *final(list@),
        before.exclusive(),
        outcome.acked,
    ensures
        !before.rows()[id@].entry.acked && before.waiters().contains_key(id@) ==> outcome.notified@
            == before.waiters()[id@].acks,
        !before.waiters().contains_key(id@) ==> outcome.notified@.len() == 0,
        before.rows()[id@].entry.acked ==> outcome.notified@.len() == 0 && after.waiters()
            == before.waiters(),
        !before.rows()[id@].entry.acked && after.waiters().contains_key(id@)
            ==> after.waiters()[id@].acks.len()
            == 0 && before.waiters().contains_key(id@) && after.waiters()[id@].messages
            == before.waiters()[id@].messages,
        before.waiters().contains_key(id@) && before.waiters()[id@].messages.len() > 0
            ==> after.waiters().contains_key(id@),
        after.waiters().remove(id@) == before.waiters().remove(id@),
{
    assert(after.waiters().remove(id@) =~= before.waiters().remove(id@));
}

/// Acknowledging what is not there, or has expired, changes nothing and wakes nobody.
pub proof fn dead_entries_are_not_acked<R: Repository>(
    list: Ghost<&mut WaitingList<R>>,
    before: WaitingList<R>,
    now: i64,
    id: &str,
    outcome: AckOutcome,
    after: WaitingList<R>,
)
    requires
        call_ensures(WaitingList::<R>::ack_at, (list@, now, id), outcome),
        before == *list@,
        after == *final(list@),
        before.exclusive(),
        !before.rows().contains_key(id@) || now >= before.rows()[id@].entry.expires_at,
    ensures
        !outcome.acked,
        outcome.notified@.len() == 0,
        after.waiters() == before.waiters(),
        after.rows() == before.rows(),
{
}

/// Where an entry can be read, whether it was acknowledged is told exactly while its expiry lies
/// ahead, and told as it is.
pub proof fn status_is_of_live_entries<R: Repository>(
    list: WaitingList<R>,
    now: i64,
    id: &str,
    status: Option<bool>,
)
    requires
        call_ensures(WaitingList::<R>::is_acked_at, (&list, now, id), status),
        list.exclusive(),
    ensures
        status matches Some(acked) ==> list.rows().contains_key(id@) && now
            < list.rows()[id@].entry.expires_at && acked == list.rows()[id@].entry.acked,
        status is None && !list.reading_may_fail(id@) ==> !list.rows().contains_key(id@) || now
            >= list.rows()[id@].entry.expires_at,
{
}

/// Storing a message, whether or not it can be kept, hands it as it is to all who wait for one
/// under the id, in the order in which they came, and lets go of all who wait there for an
/// acknowledgement. Nobody waits there any more, and everybody under other ids goes on waiting.
pub proof fn stores_reach_all_who_wait<R: Repository>(
    list: Ghost<&mut WaitingList<R>>,
    before: WaitingList<R>,
    now: i64,
    id: String,
    message: Message,
    ttl: Duration,
    outcome: StoreOutcome,
    after: WaitingList<R>,
)
    requires
        call_ensures(WaitingList::<R>::store_at, (list@, now, id, message, ttl), outcome),
        before == *list@,
        after == *final(list@),
    ensures
        bytes_content(&outcome.message.body) == bytes_content(&message.body),
        optional_text(outcome.message.content_type) == optional_text(message.content_type),
        before.waiters().contains_key(id@) ==> outcome.notified@ == before.waiters()[id@].messages
            && outcome.dropped@ == before.waiters()[id@].acks,
        !before.waiters().contains_key(id@) ==> outcome.notified@.len() == 0
            && outcome.dropped@.len()
            == 0,
        !after.waiters().contains_key(id@),
        forall|other: Seq<char>| other != id@ ==> (#[trigger] after.waiters().contains_key(other)
            <==> before.waiters().contains_key(other)),
        forall|other: Seq<char>| #[trigger] after.waiters().contains_key(other)
            ==> after.waiters()[other] == before.waiters()[other],
{
}

/// A message that cannot be kept is one that the repository refused: the insertion of this message,
/// under this id and at this time, can fail. A repository with room never fails to make room.
pub proof fn stores_fail_with_their_insertion<R: Repository>(
    list: Ghost<&mut WaitingList<R>>,
    before: WaitingList<R>,
    now: i64,
    id: String,
    message: Message,
    ttl: Duration,
    outcome: StoreOutcome,
    after: WaitingList<R>,
)
    requires
        call_ensures(WaitingList::<R>::store_at, (list@, now, id, message, ttl), outcome),
        before == *list@,
        after == *final(list@),
        outcome.persisted is Err,
    ensures
        exists|record: Record|
            {
                &&& #[trigger] before.inserting_may_fail(id@, record, outcome.persisted->Err_0)
                &&& record.created_at == now
                &&& record.entry.message_body == Some(bytes_content(&message.body))
                &&& record.entry.content_type == optional_text(message.content_type)
                &&& !record.entry.acked
                &&& now + duration_millis(ttl) <= i64::MAX ==> record.entry.expires_at == now
                    + duration_millis(ttl)
            },
        before.exclusive() && before.rows().len() < before.limit() ==> outcome.persisted->Err_0
            != StorageError::Evict,
{
    let record = fresh_record(
        message@.body,
        message@.content_type,
        expiry(now, duration_millis(ttl)) as i64,
        now,
    );
    assert(before.inserting_may_fail(id@, record, outcome.persisted->Err_0));
}

/// A message that was kept stands under its id as it came, not acknowledged and written at this
/// time. Its expiry lies its whole lifetime ahead, counted in the sixty-four bits of a timestamp.
pub proof fn stored_entries_are_as_sent<R: Repository>(
    list: Ghost<&mut WaitingList<R>>,
    before: WaitingList<R>,
    now: i64,
    id: String,
    message: Message,
    ttl: Duration,
    outcome: StoreOutcome,
    after: WaitingList<R>,
)
    requires
        call_ensures(WaitingList::<R>::store_at, (list@, now, id, message, ttl), outcome),
        before == *list@,
        after == *final(list@),
        before.exclusive(),
        outcome.persisted is Ok,
    ensures
        after.rows().contains_key(id@),
        after.rows()[id@].entry.message_body == Some(bytes_content(&message.body)),
        after.rows()[id@].entry.content_type == optional_text(message.content_type),
        !after.rows()[id@].entry.acked,
        after.rows()[id@].created_at == now,
        (after.rows()[id@].entry.expires_at - now - duration_millis(ttl)) % 0x1_0000_0000_0000_0000
            == 0,
        now + duration_millis(ttl) <= i64::MAX ==> after.rows()[id@].entry.expires_at == now
            + duration_millis(ttl),
{
    store_writes_and_spares(before, now, id@, message@, ttl, outcome, after);
    let (sum, two64) = (now + duration_millis(ttl), 0x1_0000_0000_0000_0000int);
    let expires_at = after.rows()[id@].entry.expires_at;
    assert(expires_at == wrapped(sum));
    assert((expires_at - sum) % two64 == 0);
}

/// While there are fewer entries than the limit, and whenever an entry is replaced, storing a
/// message takes no other entry away and touches none.
pub proof fn stores_spare_entries_below_limit<R: Repository>(
    list: Ghost<&mut WaitingList<R>>,
    before: WaitingList<R>,
    now: i64,
    id: String,
    message: Message,
    ttl: Duration,
    outcome: StoreOutcome,
    after: WaitingList<R>,
)
    requires
        call_ensures(WaitingList::<R>::store_at, (list@, now, id, message, ttl), outcome),
        before == *list@,
        after == *final(list@),
        before.exclusive(),
        outcome.persisted is Ok,
        before.rows().len() < before.limit() || before.rows().contains_key(id@),
    ensures
        forall|other: Seq<char>| other != id@ ==> (#[trigger] after.rows().contains_key(other)
            <==> before.rows().contains_key(other)),
        forall|other: Seq<char>| other != id@ && #[trigger] after.rows().contains_key(other)
            ==> after.rows()[other] == before.rows()[other],
{
}

/// A new message that meets as many entries as the limit, or more, takes the place of one of them:
/// of one that none was written before. No other entry goes or is touched.
pub proof fn stores_evict_the_oldest_at_limit<R: Repository>(
    list: Ghost<&mut WaitingList<R>>,
    before: WaitingList<R>,
    now: i64,
    id: String,
    message: Message,
    ttl: Duration,
    outcome: StoreOutcome,
    after: WaitingList<R>,
)
    requires
        call_ensures(WaitingList::<R>::store_at, (list@, now, id, message, ttl), outcome),
        before == *list@,
        after == *final(list@),
        before.wf(),
        before.exclusive(),
        outcome.persisted is Ok,
        before.rows().len() >= before.limit(),
        before.rows().len() > 0,
        !before.rows().contains_key(id@),
    ensures
        exists|victim: Seq<char>|
            {
                &&& #[trigger] before.rows().contains_key(victim)
                &&& !after.rows().contains_key(victim)
                &&& forall|other: Seq<char>| #[trigger]
                    before.rows().contains_key(other) ==> before.rows()[victim].created_at
                        <= before.rows()[other].created_at
                &&& forall|other: Seq<char>| #[trigger]
                    before.rows().contains_key(other) && other != victim
                        ==> after.rows().contains_key(other) && after.rows()[other]
                        == before.rows()[other]
            },
        forall|other: Seq<char>| #[trigger]
            after.rows().contains_key(other) && other != id@ ==> before.rows().contains_key(other),
        after.rows().len() == before.rows().len(),
{
    before.rows_are_finite();
    let record = stored_record(now, message@, ttl);
    let victim = choose|victim: Seq<char>| #[trigger]
        is_oldest(before.rows(), victim) && after.rows() == before.rows().remove(victim).insert(
            id@,
            record,
        );
    assert(before.rows().contains_key(victim) && !after.rows().contains_key(victim));
    assert(after.rows().dom() =~= before.rows().dom().remove(victim).insert(id@));
}

/// A message that was kept is given to whoever asks for it before its lifetime is over, as it was
/// sent, and to nobody who asks later.
pub proof fn stored_messages_live_their_lifetime<R: Repository>(
    list: Ghost<&mut WaitingList<R>>,
    before: WaitingList<R>,
    now: i64,
    id: String,
    message: Message,
    ttl: Duration,
    outcome: StoreOutcome,
    between: WaitingList<R>,
    next: Ghost<&mut WaitingList<R>>,
    later: i64,
    name: &str,
    handle: u64,
    result: Result<GetOrSubscribeResult, SubscribeError>,
)
    requires
        call_ensures(WaitingList::<R>::store_at, (list@, now, id, message, ttl), outcome),
        before == *list@,
        between == *final(list@),
        call_ensures(WaitingList::<R>::get_or_subscribe_at, (next@, later, name, handle), result),
        between == *next@,
        name@ == id@,
        before.exclusive(),
        outcome.persisted is Ok,
        now + duration_millis(ttl) <= i64::MAX,
    ensures
        later - now < duration_millis(ttl) && !between.reading_may_fail(id@) ==> (result matches Ok(
            GetOrSubscribeResult::Message(given),
        ) && bytes_content(&given.body) == bytes_content(&message.body) && optional_text(
            given.content_type,
        ) == optional_text(message.content_type)),
        later - now >= duration_millis(ttl) ==> !(result matches Ok(
            GetOrSubscribeResult::Message(_),
        )),
{
    store_writes_and_spares(before, now, id@, message@, ttl, outcome, between);
    lifetime_is_exact(now, duration_millis(ttl), later);
}

/// A message that was kept can be acknowledged until its lifetime is over, and not after.
pub proof fn stored_messages_are_acked_in_time<R: Repository>(
    list: Ghost<&mut WaitingList<R>>,
    before: WaitingList<R>,
    now: i64,
    id: String,
    message: Message,
    ttl: Duration,
    outcome: StoreOutcome,
    between: WaitingList<R>,
    next: Ghost<&mut WaitingList<R>>,
    later: i64,
    name: &str,
    ack: AckOutcome,
)
    requires
        call_ensures(WaitingList::<R>::store_at, (list@, now, id, message, ttl), outcome),
        before == *list@,
        between == *final(list@),
        call_ensures(WaitingList::<R>::ack_at, (next@, later, name), ack),
        between == *next@,
        name@ == id@,
        before.exclusive(),
        outcome.persisted is Ok,
        now + duration_millis(ttl) <= i64::MAX,
    ensures
        later - now < duration_millis(ttl) && !between.reading_may_fail(id@)
            && !between.marking_may_fail(id@) ==> ack.acked,
        later - now >= duration_millis(ttl) ==> !ack.acked,
{
    store_writes_and_spares(before, now, id@, message@, ttl, outcome, between);
    lifetime_is_exact(now, duration_millis(ttl), later);
}

/// A cleanup deletes every entry whose expiry lies before the time given, keeps every other as it
/// is, and tells how many it deleted, unless the repository can fail to delete.
pub proof fn cleanups_delete_what_has_expired<R: Repository>(
    list: Ghost<&mut WaitingList<R>>,
    before: WaitingList<R>,
    now: i64,
    closed: &Vec<u64>,
    outcome: CleanupOutcome,
    after: WaitingList<R>,
)
    requires
        call_ensures(WaitingList::<R>::cleanup_expired_at, (list@, now, closed), outcome),
        before == *list@,
        after == *final(list@),
        before.exclusive(),
        !before.cleaning_may_fail(now),
    ensures
        forall|id: Seq<char>| #[trigger]
            after.rows().contains_key(id) <==> before.rows().contains_key(id)
                && before.rows()[id].entry.expires_at >= now,
        forall|id: Seq<char>| #[trigger]
            after.rows().contains_key(id) ==> after.rows()[id] == before.rows()[id],
        outcome.removed + after.rows().len() == before.rows().len(),
{
}

/// After a cleanup a request goes on waiting for a message exactly if it waited before, has not
/// gone away, and waits under an id that has no entry or one whose expiry lies ahead. Lines keep
/// their order. An entry that cannot be read counts as one that is not there.
pub proof fn cleanups_keep_readers_in_line<R: Repository>(
    list: Ghost<&mut WaitingList<R>>,
    before: WaitingList<R>,
    now: i64,
    closed: &Vec<u64>,
    outcome: CleanupOutcome,
    after: WaitingList<R>,
    id: Seq<char>,
)
    requires
        call_ensures(WaitingList::<R>::cleanup_expired_at, (list@, now, closed), outcome),
        before == *list@,
        after == *final(list@),
        before.exclusive(),
        !before.rows().contains_key(id) || now < before.rows()[id].entry.expires_at,
        before.waiters().contains_key(id),
    ensures
        after.waiters().contains_key(id) ==> after.waiters()[id].messages
            == before.waiters()[id].messages.filter(|handle: u64| !closed@.contains(handle)),
        after.waiters().contains_key(id) ==> after.waiters()[id].acks
            == before.waiters()[id].acks.filter(|handle: u64| !closed@.contains(handle)),
        !after.waiters().contains_key(id) ==> forall|handle: u64| #[trigger]
            before.waiters()[id].messages.contains(handle) ==> closed@.contains(handle),
        !after.waiters().contains_key(id) ==> forall|handle: u64| #[trigger]
            before.waiters()[id].acks.contains(handle) ==> closed@.contains(handle),
{
    if !after.waiters().contains_key(id) {
        assert(before.waiters()[id].still_open(closed@).is_idle());
        assert forall|handle: u64| #[trigger]
            before.waiters()[id].messages.contains(handle) implies closed@.contains(handle) by {
            open_handles_members(before.waiters()[id].messages, closed@, handle);
        }
        assert forall|handle: u64| #[trigger]
            before.waiters()[id].acks.contains(handle) implies closed@.contains(handle) by {
            open_handles_members(before.waiters()[id].acks, closed@, handle);
        }
    }
}

/// After a cleanup nobody waits under an id whose entry has expired, where the repository can be
/// read and cleaned up.
pub proof fn cleanups_let_go_of_expired<R: Repository>(
    list: Ghost<&mut WaitingList<R>>,
    before: WaitingList<R>,
    now: i64,
    closed: &Vec<u64>,
    outcome: CleanupOutcome,
    after: WaitingList<R>,
    id: Seq<char>,
)
    requires
        call_ensures(WaitingList::<R>::cleanup_expired_at, (list@, now, closed), outcome),
        before == *list@,
        after == *final(list@),
        before.exclusive(),
        !before.cleaning_may_fail(now),
        forall|other: Seq<char>| before.waiters().contains_key(other)
            ==> !#[trigger] before.reading_may_fail(other),
        before.rows().contains_key(id),
        now >= before.rows()[id].entry.expires_at,
    ensures
        !after.waiters().contains_key(id),
{
}

/// A cleanup makes nobody wait who did not, and names exactly those requests that it took from a
/// line: each once, if none waited twice.
pub proof fn cleanups_name_whom_they_drop<R: Repository>(
    list: Ghost<&mut WaitingList<R>>,
    before: WaitingList<R>,
    now: i64,
    closed: &Vec<u64>,
    outcome: CleanupOutcome,
    after: WaitingList<R>,
)
    requires
        call_ensures(WaitingList::<R>::cleanup_expired_at, (list@, now, closed), outcome),
        before == *list@,
        after == *final(list@),
    ensures
        forall|id: Seq<char>| #[trigger] after.waiters().contains_key(id)
            ==> before.waiters().contains_key(id),
        forall|id: Seq<char>, handle: u64| #[trigger] waits(after.waiters(), id, handle)
            ==> waits(before.waiters(), id, handle) && !closed@.contains(handle),
        forall|handle: u64| #[trigger] outcome.dropped@.contains(handle) <==> exists|id: Seq<char>|
            #[trigger] waits(before.waiters(), id, handle) && !waits(after.waiters(), id, handle),
        each_once(before.waiters()) ==> forall|i: int, j: int| 0 <= i < j < outcome.dropped@.len()
            ==> #[trigger] outcome.dropped@[i] != #[trigger] outcome.dropped@[j],
{
    assert forall|id: Seq<char>, handle: u64| #[trigger]
        waits(after.waiters(), id, handle) implies waits(before.waiters(), id, handle)
        && !closed@.contains(handle) by {
        open_handles_members(before.waiters()[id].acks, closed@, handle);
        open_handles_members(before.waiters()[id].messages, closed@, handle);
    }
}

/// Storing a message is storing it at a time that the clock read.
pub proof fn store_goes_by_the_clock<R: Repository>(
    list: Ghost<&mut WaitingList<R>>,
    before: WaitingList<R>,
    id: String,
    message: Message,
    ttl: Duration,
    outcome: StoreOutcome,
    after: WaitingList<R>,
)
    requires
        call_ensures(WaitingList::<R>::store, (list@, id, message, ttl), outcome),
        before == *list@,
        after == *final(list@),
    ensures
        exists|timed: &mut WaitingList<R>, now: i64|
            {
                &&& *timed == before
                &&& *final(timed) == after
                &&& call_ensures(unix_timestamp_millis, (), now)
                &&& #[trigger] call_ensures(
                    WaitingList::<R>::store_at,
                    (timed, now, id, message, ttl),
                    outcome,
                )
            },
{
}

/// Acknowledging an entry is acknowledging it at a time that the clock read.
pub proof fn ack_goes_by_the_clock<R: Repository>(
    list: Ghost<&mut WaitingList<R>>,
    before: WaitingList<R>,
    id: &str,
    outcome: AckOutcome,
    after: WaitingList<R>,
)
    requires
        call_ensures(WaitingList::<R>::ack, (list@, id), outcome),
        before == *list@,
        after == *final(list@),
    ensures
        exists|timed: &mut WaitingList<R>, now: i64|
            {
                &&& *timed == before
                &&& *final(timed) == after
                &&& call_ensures(unix_timestamp_millis, (), now)
                &&& #[trigger] call_ensures(
                    WaitingList::<R>::ack_at,
                    (timed, now, id),
                    outcome,
                )
            },
{
}

/// Subscribing to an acknowledgement is subscribing at a time that the clock read.
pub proof fn subscription_goes_by_the_clock<R: Repository>(
    list: Ghost<&mut WaitingList<R>>,
    before: WaitingList<R>,
    id: &str,
    handle: u64,
    result: Result<AckSubscription, SubscribeError>,
    after: WaitingList<R>,
)
    requires
        call_ensures(WaitingList::<R>::subscribe_ack, (list@, id, handle), result),
        before == *list@,
        after == *final(list@),
    ensures
        exists|timed: &mut WaitingList<R>, now: i64|
            {
                &&& *timed == before
                &&& *final(timed) == after
                &&& call_ensures(unix_timestamp_millis, (), now)
                &&& #[trigger] call_ensures(
                    WaitingList::<R>::subscribe_ack_at,
                    (timed, now, id, handle),
                    result,
                )
            },
{
}

/// Asking for a message is asking for it at a time that the clock read.
pub proof fn request_goes_by_the_clock<R: Repository>(
    list: Ghost<&mut WaitingList<R>>,
    before: WaitingList<R>,
    id: &str,
    handle: u64,
    result: Result<GetOrSubscribeResult, SubscribeError>,
    after: WaitingList<R>,
)
    requires
        call_ensures(WaitingList::<R>::get_or_subscribe, (list@, id, handle), result),
        before == *list@,
        after == *final(list@),
    ensures
        exists|timed: &mut WaitingList<R>, now: i64|
            {
                &&& *timed == before
                &&& *final(timed) == after
                &&& call_ensures(unix_timestamp_millis, (), now)
                &&& #[trigger] call_ensures(
                    WaitingList::<R>::get_or_subscribe_at,
                    (timed, now, id, handle),
                    result,
                )
            },
{
}

/// Asking whether an entry was acknowledged is asking at a time that the clock read.
pub proof fn status_goes_by_the_clock<R: Repository>(
    list: WaitingList<R>,
    id: &str,
    status: Option<bool>,
)
    requires
        call_ensures(WaitingList::<R>::is_acked, (&list, id), status),
    ensures
        exists|now: i64|
            call_ensures(unix_timestamp_millis, (), now) && #[trigger] call_ensures(
                WaitingList::<R>::is_acked_at,
                (&list, now, id),
                status,
            ),
{
}

/// A cleanup by the clock goes by a time that the clock read. Every entry whose expiry lies before
/// that time is deleted and counted, and every other is kept, unless the repository can fail to
/// delete.
pub proof fn cleanup_goes_by_the_clock<R: Repository>(
    list: Ghost<&mut WaitingList<R>>,
    before: WaitingList<R>,
    closed: &Vec<u64>,
    outcome: CleanupOutcome,
    after: WaitingList<R>,
)
    requires
        call_ensures(WaitingList::<R>::cleanup_expired, (list@, closed), outcome),
        before == *list@,
        after == *final(list@),
    ensures
        exists|timed: &mut WaitingList<R>, now: i64|
            {
                &&& *timed == before
                &&& *final(timed) == after
                &&& call_ensures(unix_timestamp_millis, (), now)
                &&& #[trigger] call_ensures(
                    WaitingList::<R>::cleanup_expired_at,
                    (timed, now, closed),
                    outcome,
                )
            },
        exists|now: i64|
            {
                &&& #[trigger] call_ensures(unix_timestamp_millis, (), now)
                &&& before.exclusive() && !before.cleaning_may_fail(now) ==> {
                    &&& outcome.removed + after.rows().len() == before.rows().len()
                    &&& forall|id: Seq<char>| #[trigger]
                        after.rows().contains_key(id) <==> before.rows().contains_key(id)
                            && before.rows()[id].entry.expires_at >= now
                    &&& forall|id: Seq<char>| #[trigger]
                        after.rows().contains_key(id) ==> after.rows()[id] == before.rows()[id]
                }
            },
{
}

/// The number of entries is how many rows there are, unless the repository can fail to count them.
pub proof fn entries_are_counted<R: Repository>(list: WaitingList<R>, len: usize, empty: bool)
    requires
        call_ensures(WaitingList::<R>::len, (&list,), len),
        call_ensures(WaitingList::<R>::is_empty, (&list,), empty),
        list.exclusive(),
        !list.counting_may_fail(),
    ensures
        len == list.rows().dom().len(),
        empty <==> list.rows().dom().len() == 0,
{
}

/// What an operation leaves alone: the limit, who else can reach the entries, and where they are
/// kept. The list stays in order.
pub proof fn operations_keep_the_repository<R: Repository>(
    list: Ghost<&mut WaitingList<R>>,
    before: WaitingList<R>,
    now: i64,
    id: String,
    message: Message,
    ttl: Duration,
    closed: &Vec<u64>,
    handle: u64,
    stored: StoreOutcome,
    ack: AckOutcome,
    subscription: Result<AckSubscription, SubscribeError>,
    request: Result<GetOrSubscribeResult, SubscribeError>,
    cleanup: CleanupOutcome,
    name: &str,
    after: WaitingList<R>,
)
    requires
        call_ensures(WaitingList::<R>::store_at, (list@, now, id, message, ttl), stored)
            || call_ensures(WaitingList::<R>::ack_at, (list@, now, name), ack) || call_ensures(
            WaitingList::<R>::subscribe_ack_at,
            (list@, now, name, handle),
            subscription,
        ) || call_ensures(
            WaitingList::<R>::get_or_subscribe_at,
            (list@, now, name, handle),
            request,
        ) || call_ensures(WaitingList::<R>::cleanup_expired_at, (list@, now, closed), cleanup),
        before == *list@,
        after == *final(list@),
    ensures
        after.wf(),
        after.limit() == before.limit(),
        after.exclusive() == before.exclusive(),
        after.certain() == before.certain(),
        after.file() == before.file(),
{
}

/// A new list has its repository's entries, limit and failures, and nobody waits.
pub proof fn lists_start_with_nobody_waiting<R: Repository>(repository: R, list: WaitingList<R>)
    requires
        call_ensures(WaitingList::<R>::new, (repository,), list),
    ensures
        list.wf(),
        list.rows() == repository.rows(),
        list.limit() == repository.limit(),
        list.exclusive() == repository.exclusive(),
        list.certain() <==> repository.exclusive() && repository.dependable(),
        list.file() == repository.file(),
        list.repository() == repository,
        forall|id: Seq<char>| !#[trigger] list.waiters().contains_key(id),
        forall|id: Seq<char>| #[trigger]
            list.reading_may_fail(id) <==> repository.reading_may_fail(id),
        forall|id: Seq<char>| #[trigger]
            list.marking_may_fail(id) <==> repository.marking_may_fail(id),
        forall|now: i64| #[trigger]
            list.cleaning_may_fail(now) <==> repository.cleaning_may_fail(now),
        list.counting_may_fail() <==> repository.counting_may_fail(),
        forall|id: Seq<char>, record: Record, error: StorageError| #[trigger]
            list.inserting_may_fail(id, record, error) <==> repository.inserting_may_fail(
                id,
                record,
                error,
            ),
{
}

/// Somebody is said to wait under an id exactly if somebody does.
pub proof fn waiting_is_told<R: Repository>(list: WaitingList<R>, id: &str, waiting: bool)
    requires
        call_ensures(WaitingList::<R>::has_waiters, (&list, id), waiting),
        list.wf(),
    ensures
        waiting <==> list.waiters().contains_key(id@) && (list.waiters()[id@].acks.len() > 0
            || list.waiters()[id@].messages.len() > 0),
{
    list.waiters_are_bounded(id@);
}

/// In a list that is in order no more than ten requests wait under any id, for either event.
pub proof fn lines_are_of_ten_at_most<R: Repository>(list: WaitingList<R>, id: Seq<char>)
    requires
        list.wf(),
        list.waiters().contains_key(id),
    ensures
        list.waiters()[id].acks.len() <= 10,
        list.waiters()[id].messages.len() <= 10,
        list.waiters()[id].acks.len() + list.waiters()[id].messages.len() > 0,
{
    list.waiters_are_bounded(id);
}

/// A new list in memory is empty, nobody else can reach it, and it has the limit that was asked
/// for.
pub proof fn lists_in_memory_start_empty(
    max_entries: usize,
    result: Result<WaitingList<EntryRepository>, StorageError>,
)
    requires
        call_ensures(WaitingList::<EntryRepository>::new_in_memory, (max_entries,), result),
        result is Ok,
    ensures
        result->Ok_0.wf(),
        result->Ok_0.exclusive(),
        result->Ok_0.limit() == max_entries,
        result->Ok_0.file() is None,
        forall|id: Seq<char>| !#[trigger] result->Ok_0.rows().contains_key(id),
        forall|id: Seq<char>| !#[trigger] result->Ok_0.waiters().contains_key(id),
{
}

/// An entry's message is its body, as long as it holds one, and its content type.
pub proof fn entries_hold_their_message(entry: StoredEntry, message: Option<Message>)
    requires
        call_ensures(entry_message, (entry,), message),
    ensures
        message is Some <==> entry.message_body is Some,
        message matches Some(given) ==> bytes_content(&given.body) == entry.message_body->0@
            && optional_text(given.content_type) == optional_text(entry.content_type),
{
}

/// A handle is listed exactly if it is one of those listed.
pub proof fn handles_are_found(handles: &Vec<u64>, handle: u64, listed: bool)
    requires
        call_ensures(lists, (handles, handle), listed),
    ensures
        listed <==> exists|i: int| 0 <= i < handles@.len() && #[trigger] handles@[i] == handle,
{
}

/// What a subscription is told of an acknowledgement is never made up: it is said to be there only
/// where it is, and the entry is said not to be there only where it is not, has expired, or cannot
/// be read.
pub proof fn subscriptions_are_told_the_truth<R: Repository>(
    list: Ghost<&mut WaitingList<R>>,
    before: WaitingList<R>,
    now: i64,
    id: &str,
    handle: u64,
    result: Result<AckSubscription, SubscribeError>,
    after: WaitingList<R>,
)
    requires
        call_ensures(WaitingList::<R>::subscribe_ack_at, (list@, now, id, handle), result),
        before == *list@,
        after == *final(list@),
        before.exclusive(),
    ensures
        result == Ok::<_, SubscribeError>(AckSubscription::AlreadyAcked)
            ==> before.rows().contains_key(
            id@,
        ) && now < before.rows()[id@].entry.expires_at && before.rows()[id@].entry.acked,
        result == Err::<AckSubscription, _>(SubscribeError::NotFound)
            ==> before.reading_may_fail(id@)
            || !before.rows().contains_key(id@) || now >= before.rows()[id@].entry.expires_at,
        !(result matches Ok(AckSubscription::Waiting(_))) ==> after.waiters() == before.waiters(),
        after.rows() == before.rows(),
{
}

/// Asking for a message is answered by one lookup in the repository, whoever else can reach it:
/// what was found there, if its expiry lies ahead, is given out as it is; otherwise nothing is.
pub proof fn requests_ask_the_repository<R: Repository>(
    list: Ghost<&mut WaitingList<R>>,
    before: WaitingList<R>,
    now: i64,
    id: &str,
    handle: u64,
    result: Result<GetOrSubscribeResult, SubscribeError>,
    after: WaitingList<R>,
)
    requires
        call_ensures(WaitingList::<R>::get_or_subscribe_at, (list@, now, id, handle), result),
        before == *list@,
        after == *final(list@),
    ensures
        exists|answer: Result<Option<StoredEntry>, StorageError>|
            {
                &&& #[trigger] call_ensures(R::get, (&before.repository(), id), answer)
                &&& (result matches Ok(GetOrSubscribeResult::Message(_))) <==> (answer matches Ok(
                    Some(entry),
                ) && now < entry.expires_at && entry.message_body is Some)
                &&& result matches Ok(GetOrSubscribeResult::Message(given)) ==> bytes_content(
                    &given.body,
                ) == answer->Ok_0->0.message_body->0@ && optional_text(given.content_type)
                    == optional_text(answer->Ok_0->0.content_type)
            },
        after.repository() == before.repository(),
{
}

/// A subscription to an acknowledgement is answered by one lookup in the repository, whoever else
/// can reach it.
pub proof fn subscriptions_ask_the_repository<R: Repository>(
    list: Ghost<&mut WaitingList<R>>,
    before: WaitingList<R>,
    now: i64,
    id: &str,
    handle: u64,
    result: Result<AckSubscription, SubscribeError>,
    after: WaitingList<R>,
)
    requires
        call_ensures(WaitingList::<R>::subscribe_ack_at, (list@, now, id, handle), result),
        before == *list@,
        after == *final(list@),
    ensures
        exists|answer: Result<Option<StoredEntry>, StorageError>|
            {
                &&& #[trigger] call_ensures(R::get, (&before.repository(), id), answer)
                &&& result == Err::<AckSubscription, _>(SubscribeError::NotFound) <==> !(
                answer matches Ok(Some(entry)) && now < entry.expires_at)
                &&& result == Ok::<_, SubscribeError>(AckSubscription::AlreadyAcked) <==> (
                answer matches Ok(Some(entry)) && now < entry.expires_at && entry.acked)
            },
        after.repository() == before.repository(),
{
}

/// What is told of an acknowledgement is what one lookup in the repository found, whoever else can
/// reach it.
pub proof fn status_asks_the_repository<R: Repository>(
    list: WaitingList<R>,
    now: i64,
    id: &str,
    status: Option<bool>,
)
    requires
        call_ensures(WaitingList::<R>::is_acked_at, (&list, now, id), status),
    ensures
        exists|answer: Result<Option<StoredEntry>, StorageError>|
            {
                &&& #[trigger] call_ensures(R::get, (&list.repository(), id), answer)
                &&& status is Some <==> (answer matches Ok(Some(entry)) && now < entry.expires_at)
                &&& status matches Some(acked) ==> acked == answer->Ok_0->0.acked
            },
{
}

/// An acknowledgement asks the repository for the entry and, where one was found whose expiry lies
/// ahead and that is not marked, has the repository mark it, whoever else can reach it. It succeeds
/// exactly if that did, or the entry was marked before.
pub proof fn acks_ask_the_repository<R: Repository>(
    list: Ghost<&mut WaitingList<R>>,
    before: WaitingList<R>,
    now: i64,
    id: &str,
    outcome: AckOutcome,
    after: WaitingList<R>,
)
    requires
        call_ensures(WaitingList::<R>::ack_at, (list@, now, id), outcome),
        before == *list@,
        after == *final(list@),
    ensures
        exists|answer: Result<Option<StoredEntry>, StorageError>|
            {
                &&& #[trigger] call_ensures(R::get, (&before.repository(), id), answer)
                &&& !(answer matches Ok(Some(entry)) && now < entry.expires_at) ==> !outcome.acked
                    && after.repository() == before.repository()
                &&& answer matches Ok(Some(entry)) ==> (now < entry.expires_at && entry.acked
                    ==> outcome.acked && after.repository() == before.repository())
                &&& answer matches Ok(Some(entry)) ==> (now < entry.expires_at && !entry.acked
                    ==> exists|repository: &mut R, marked: Result<bool, StorageError>|
                    {
                        &&& *repository == before.repository()
                        &&& *final(repository) == after.repository()
                        &&& outcome.acked <==> marked is Ok
                        &&& #[trigger] call_ensures(R::ack, (repository, id), marked)
                    })
            },
{
}

/// Storing a message is one insertion into the repository, of this message and under this id, with
/// an expiry that lies its lifetime ahead, whoever else can reach the repository.
pub proof fn stores_ask_the_repository<R: Repository>(
    list: Ghost<&mut WaitingList<R>>,
    before: WaitingList<R>,
    now: i64,
    id: String,
    message: Message,
    ttl: Duration,
    outcome: StoreOutcome,
    after: WaitingList<R>,
)
    requires
        call_ensures(WaitingList::<R>::store_at, (list@, now, id, message, ttl), outcome),
        before == *list@,
        after == *final(list@),
    ensures
        exists|
            repository: &mut R,
            name: &str,
            body: &[u8],
            content_type: Option<&str>,
            expires_at: i64,
        |
            {
                &&& *repository == before.repository()
                &&& *final(repository) == after.repository()
                &&& name@ == id@
                &&& body@ == bytes_content(&message.body)
                &&& content_type is Some <==> message.content_type is Some
                &&& content_type is Some ==> content_type->0@ == message.content_type->0@
                &&& (expires_at - now - duration_millis(ttl)) % 0x1_0000_0000_0000_0000 == 0
                &&& #[trigger] call_ensures(
                    R::insert_at,
                    (repository, name, body, content_type, expires_at, now),
                    outcome.persisted,
                )
            },
{
    let (repository, name, body, content_type, expires_at) = choose|
        repository: &mut R,
        name: &str,
        body: &[u8],
        content_type: Option<&str>,
        expires_at: i64,
    |
        {
            &&& *repository == before.repository()
            &&& *final(repository) == after.repository()
            &&& name@ == id@
            &&& body@ == message@.body
            &&& optional_str(content_type) == message@.content_type
            &&& expires_at == expiry(now, duration_millis(ttl))
            &&& #[trigger] call_ensures(
                R::insert_at,
                (repository, name, body, content_type, expires_at, now),
                outcome.persisted,
            )
        };
    let (sum, two64) = (now + duration_millis(ttl), 0x1_0000_0000_0000_0000int);
    assert(expires_at == wrapped(sum));
    assert((expires_at - sum) % two64 == 0);
}

/// A cleanup is one cleanup of the repository, at this time, whoever else can reach it, and counts
/// what that deleted.
pub proof fn cleanups_ask_the_repository<R: Repository>(
    list: Ghost<&mut WaitingList<R>>,
    before: WaitingList<R>,
    now: i64,
    closed: &Vec<u64>,
    outcome: CleanupOutcome,
    after: WaitingList<R>,
)
    requires
        call_ensures(WaitingList::<R>::cleanup_expired_at, (list@, now, closed), outcome),
        before == *list@,
        after == *final(list@),
    ensures
        exists|repository: &mut R, deletion: Result<usize, StorageError>|
            {
                &&& *repository == before.repository()
                &&& *final(repository) == after.repository()
                &&& deletion matches Ok(removed) ==> outcome.removed == removed
                &&& deletion is Err ==> outcome.removed == 0
                &&& #[trigger] call_ensures(R::cleanup_expired_at, (repository, now), deletion)
            },
{
}

/// The number of entries is what the repository counts, whoever else can reach it, and none where
/// it cannot count.
pub proof fn counts_ask_the_repository<R: Repository>(
    list: WaitingList<R>,
    len: usize,
)
    requires
        call_ensures(WaitingList::<R>::len, (&list,), len),
    ensures
        exists|answer: Result<usize, StorageError>|
            {
                &&& #[trigger] call_ensures(R::count, (&list.repository(),), answer)
                &&& answer matches Ok(count) ==> len == count
                &&& answer is Err ==> len == 0
            },
{
}

/// A list is said to be empty exactly if its number of entries is none.
pub proof fn emptiness_is_of_the_count<R: Repository>(
    list: WaitingList<R>,
    empty: bool,
)
    requires
        call_ensures(WaitingList::<R>::is_empty, (&list,), empty),
    ensures
        exists|len: usize| #[trigger] call_ensures(WaitingList::<R>::len, (&list,), len) && (empty
            <==> len == 0),
{
}

/// A cleanup looks up every id that somebody waits for, whoever else can reach the repository. It
/// lets go of everybody under an id whose entry was found to have expired; under all others those
/// stay, in their order, whose request has not gone away.
pub proof fn cleanups_look_up_whom_they_drop<R: Repository>(
    list: Ghost<&mut WaitingList<R>>,
    before: WaitingList<R>,
    now: i64,
    closed: &Vec<u64>,
    outcome: CleanupOutcome,
    after: WaitingList<R>,
    id: Seq<char>,
)
    requires
        call_ensures(WaitingList::<R>::cleanup_expired_at, (list@, now, closed), outcome),
        before == *list@,
        after == *final(list@),
        before.waiters().contains_key(id),
    ensures
        exists|text: &str, answer: Result<Option<StoredEntry>, StorageError>|
            {
                &&& text@ == id
                &&& #[trigger] call_ensures(R::get, (&before.repository(), text), answer)
                &&& (answer matches Ok(Some(entry)) && now >= entry.expires_at)
                    ==> !after.waiters().contains_key(id)
                &&& !(answer matches Ok(Some(entry)) && now >= entry.expires_at)
                    ==> if after.waiters().contains_key(id) {
                    &&& after.waiters()[id].messages == before.waiters()[id].messages.filter(
                        |handle: u64| !closed@.contains(handle),
                    )
                    &&& after.waiters()[id].acks == before.waiters()[id].acks.filter(
                        |handle: u64| !closed@.contains(handle),
                    )
                } else {
                    &&& forall|handle: u64| #[trigger]
                        before.waiters()[id].messages.contains(handle) ==> closed@.contains(handle)
                    &&& forall|handle: u64| #[trigger]
                        before.waiters()[id].acks.contains(handle) ==> closed@.contains(handle)
                }
            },
{
    let (gone, answered) = choose|gone: Set<Seq<char>>, answered: bool| #[trigger]
        WaitingList::cleaned_given(before, now, closed@, gone, answered, outcome, after);
    assert(before.found_overdue(id, now, gone.contains(id)));
    let (text, answer) = choose|text: &str, answer: Result<Option<StoredEntry>, StorageError>|
        {
            &&& text@ == id
            &&& #[trigger] call_ensures(R::get, (&before.repository(), text), answer)
            &&& gone.contains(id) <==> (answer matches Ok(Some(entry)) && now >= entry.expires_at)
        };
    if !gone.contains(id) && !after.waiters().contains_key(id) {
        assert(before.waiters()[id].still_open(closed@).is_idle());
        assert forall|handle: u64| #[trigger]
            before.waiters()[id].messages.contains(handle) implies closed@.contains(handle) by {
            open_handles_members(before.waiters()[id].messages, closed@, handle);
        }
        assert forall|handle: u64| #[trigger]
            before.waiters()[id].acks.contains(handle) implies closed@.contains(handle) by {
            open_handles_members(before.waiters()[id].acks, closed@, handle);
        }
    }
    assert(call_ensures(R::get, (&before.repository(), text), answer));
}

} // verus!
