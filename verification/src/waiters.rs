//! The requests that wait for something to happen to an entry.
//!
//! A waiting request is known by a handle, a number by which the caller finds the channel that
//! wakes the request up. The lists here decide who is woken, and with what.

use vstd::prelude::*;

verus! {

/// Bounds concurrent long-poll connections per entry to prevent memory exhaustion.
/// With 10k entries at 10 waiters each, worst case is ~100k channels.
pub const MAX_WAITERS_PER_ENTRY: usize = 10;

/// The waiters of one entry, as a mathematical value.
#[verifier::ext_equal]
pub struct WaitersView {
    pub acks: Seq<u64>,
    pub messages: Seq<u64>,
}

impl WaitersView {
    /// Nobody waits.
    pub open spec fn is_idle(self) -> bool {
        self.acks.len() == 0 && self.messages.len() == 0
    }

    /// `handle` waits, for whichever event.
    pub open spec fn has(self, handle: u64) -> bool {
        self.acks.contains(handle) || self.messages.contains(handle)
    }

    /// Those whose request has not gone away.
    pub open spec fn still_open(self, closed: Seq<u64>) -> WaitersView {
        WaitersView {
            acks: open_handles(self.acks, closed),
            messages: open_handles(self.messages, closed),
        }
    }

    /// Neither list is longer than it may be.
    pub open spec fn within_limit(self) -> bool {
        self.acks.len() <= MAX_WAITERS_PER_ENTRY && self.messages.len() <= MAX_WAITERS_PER_ENTRY
    }
}

/// The waiters of all entries, by id.
pub type WaiterMap = Map<Seq<char>, WaitersView>;

/// The handles that are not among the closed ones, in their order.
pub open spec fn open_handles(handles: Seq<u64>, closed: Seq<u64>) -> Seq<u64> {
    handles.filter(|handle: u64| !closed.contains(handle))
}

/// The handles that are among the closed ones, in their order.
pub open spec fn closed_handles(handles: Seq<u64>, closed: Seq<u64>) -> Seq<u64> {
    handles.filter(|handle: u64| closed.contains(handle))
}

/// Those who wait for the acknowledgement of `id`, in the order in which they came.
pub open spec fn acks_of(waiters: WaiterMap, id: Seq<char>) -> Seq<u64> {
    if waiters.contains_key(id) {
        waiters[id].acks
    } else {
        Seq::empty()
    }
}

/// Those who wait for a message under `id`, in the order in which they came.
pub open spec fn messages_of(waiters: WaiterMap, id: Seq<char>) -> Seq<u64> {
    if waiters.contains_key(id) {
        waiters[id].messages
    } else {
        Seq::empty()
    }
}

/// `handle` waits under `id`.
pub open spec fn waits(waiters: WaiterMap, id: Seq<char>, handle: u64) -> bool {
    waiters.contains_key(id) && waiters[id].has(handle)
}

/// The waiters with one more for the acknowledgement of `id`.
pub open spec fn with_ack_waiter(waiters: WaiterMap, id: Seq<char>, handle: u64) -> WaiterMap {
    waiters.insert(
        id,
        WaitersView {
            acks: acks_of(waiters, id).push(handle),
            messages: messages_of(waiters, id),
        },
    )
}

/// The waiters with one more for a message under `id`.
pub open spec fn with_message_waiter(waiters: WaiterMap, id: Seq<char>, handle: u64) -> WaiterMap {
    waiters.insert(
        id,
        WaitersView {
            acks: acks_of(waiters, id),
            messages: messages_of(waiters, id).push(handle),
        },
    )
}

/// The waiters once those for the acknowledgement of `id` are gone.
pub open spec fn without_acks(waiters: WaiterMap, id: Seq<char>) -> WaiterMap {
    if messages_of(waiters, id).len() == 0 {
        waiters.remove(id)
    } else {
        waiters.insert(
            id,
            WaitersView { acks: Seq::empty(), messages: messages_of(waiters, id) },
        )
    }
}

/// The waiters once those whose request has gone away, and all those under the ids in `gone`, have
/// been removed.
pub open spec fn swept(waiters: WaiterMap, closed: Seq<u64>, gone: Set<Seq<char>>) -> WaiterMap {
    Map::new(
        |id: Seq<char>|
            waiters.contains_key(id) && !gone.contains(id) && !waiters[id].still_open(
                closed,
            ).is_idle(),
        |id: Seq<char>| waiters[id].still_open(closed),
    )
}

/// Under every id somebody waits, and no more than the limit.
pub open spec fn all_bounded(waiters: WaiterMap) -> bool {
    forall|id: Seq<char>| #[trigger]
        waiters.contains_key(id) ==> !waiters[id].is_idle() && waiters[id].within_limit()
}

/// No request waits twice: neither under two ids, nor twice under one.
pub open spec fn each_once(waiters: WaiterMap) -> bool {
    &&& forall|id: Seq<char>| #[trigger]
        waiters.contains_key(id) ==> (waiters[id].acks + waiters[id].messages).no_duplicates()
    &&& forall|one: Seq<char>, two: Seq<char>, handle: u64|
        #[trigger] waits(waiters, one, handle) && #[trigger] waits(waiters, two, handle) ==> one
            == two
}

/// In-memory waiters for a single entry.
pub(crate) struct Waiters {
    /// Subscribers waiting to be notified when ACK occurs.
    ack_waiters: Vec<u64>,
    /// Subscribers waiting to receive a message when it arrives.
    message_waiters: Vec<u64>,
}

impl View for Waiters {
    type V = WaitersView;

    closed spec fn view(&self) -> WaitersView {
        WaitersView { acks: self.ack_waiters@, messages: self.message_waiters@ }
    }
}

/// Tells whether `handle` is listed.
pub fn lists(handles: &Vec<u64>, handle: u64) -> (listed: bool)
    ensures
        listed == handles@.contains(handle),
{
    let mut i: usize = 0;
    while i < handles.len()
        invariant
            i <= handles@.len(),
            forall|j: int| 0 <= j < i ==> handles@[j] != handle,
        decreases handles@.len() - i,
    {
        if handles[i] == handle {
            return true;
        }
        i = i + 1;
    }
    false
}

/// Splits `handles` into those still open, in their order, and the rest, which go onto `dropped`.
fn split_closed(handles: &Vec<u64>, closed: &Vec<u64>, dropped: &mut Vec<u64>) -> (open: Vec<u64>)
    ensures
        open@ == open_handles(handles@, closed@),
        final(dropped)@ == old(dropped)@ + closed_handles(handles@, closed@),
{
    let mut open: Vec<u64> = Vec::new();
    let mut i: usize = 0;
    proof {
        reveal(Seq::filter);
        assert(open@ =~= open_handles(handles@.take(0), closed@));
        assert(dropped@ =~= old(dropped)@ + closed_handles(handles@.take(0), closed@));
    }
    while i < handles.len()
        invariant
            i <= handles@.len(),
            open@ == open_handles(handles@.take(i as int), closed@),
            dropped@ == old(dropped)@ + closed_handles(handles@.take(i as int), closed@),
        decreases handles@.len() - i,
    {
        let handle: u64 = handles[i];
        proof {
            reveal(Seq::filter);
            let seen = handles@.take(i as int);
            assert(handles@.take(i + 1) =~= seen.push(handle));
            assert(seen.push(handle).drop_last() =~= seen);
        }
        if lists(closed, handle) {
            dropped.push(handle);
        } else {
            open.push(handle);
        }
        assert(dropped@ =~= old(dropped)@ + closed_handles(handles@.take(i + 1), closed@));
        i = i + 1;
    }
    assert(handles@.take(i as int) =~= handles@);
    open
}

/// Appends `more` to `list`.
fn append_all(list: &mut Vec<u64>, more: &Vec<u64>)
    ensures
        final(list)@ == old(list)@ + more@,
{
    let mut i: usize = 0;
    while i < more.len()
        invariant
            i <= more@.len(),
            list@ == old(list)@ + more@.take(i as int),
        decreases more@.len() - i,
    {
        list.push(more[i]);
        assert(more@.take(i + 1) =~= more@.take(i as int).push(more@[i as int]));
        i = i + 1;
    }
    assert(more@.take(i as int) =~= more@);
}

impl Waiters {
    /// Makes an empty list.
    pub(crate) fn new() -> (waiters: Self)
        ensures
            waiters@.acks == Seq::<u64>::empty(),
            waiters@.messages == Seq::<u64>::empty(),
    {
        Waiters { ack_waiters: Vec::new(), message_waiters: Vec::new() }
    }

    /// Whether nobody waits.
    pub(crate) fn is_empty(&self) -> (empty: bool)
        ensures
            empty == self@.is_idle(),
    {
        self.ack_waiters.is_empty() && self.message_waiters.is_empty()
    }

    /// Adds an ACK waiter. Returns false if limit reached.
    pub(crate) fn add_ack_waiter(&mut self, handle: u64) -> (added: bool)
        ensures
            added == (old(self)@.acks.len() < MAX_WAITERS_PER_ENTRY),
            final(self)@.messages == old(self)@.messages,
            final(self)@.acks == if added {
                old(self)@.acks.push(handle)
            } else {
                old(self)@.acks
            },
    {
        if self.ack_waiters.len() >= MAX_WAITERS_PER_ENTRY {
            return false;
        }
        self.ack_waiters.push(handle);
        true
    }

    /// Adds a message waiter. Returns false if limit reached.
    pub(crate) fn add_message_waiter(&mut self, handle: u64) -> (added: bool)
        ensures
            added == (old(self)@.messages.len() < MAX_WAITERS_PER_ENTRY),
            final(self)@.acks == old(self)@.acks,
            final(self)@.messages == if added {
                old(self)@.messages.push(handle)
            } else {
                old(self)@.messages
            },
    {
        if self.message_waiters.len() >= MAX_WAITERS_PER_ENTRY {
            return false;
        }
        self.message_waiters.push(handle);
        true
    }

    /// Clears both lists: the message waiters are handed back to be notified, and the ACK waiters,
    /// stale now that the message is overwritten, to be dropped.
    pub(crate) fn notify_message_waiters(self) -> (both: (Vec<u64>, Vec<u64>))
        ensures
            both.0@ == self@.messages,
            both.1@ == self@.acks,
    {
        (self.message_waiters, self.ack_waiters)
    }

    /// Clears the list of ACK waiters, and hands them back to be notified.
    pub(crate) fn notify_ack_waiters(&mut self) -> (notified: Vec<u64>)
        ensures
            notified@ == old(self)@.acks,
            final(self)@.acks == Seq::<u64>::empty(),
            final(self)@.messages == old(self)@.messages,
    {
        let mut notified: Vec<u64> = Vec::new();
        notified.append(&mut self.ack_waiters);
        assert(notified@ =~= old(self)@.acks);
        notified
    }

    /// The waiters whose request is still there. The others go onto `dropped`.
    pub(crate) fn without_closed(&self, closed: &Vec<u64>, dropped: &mut Vec<u64>) -> (open: Self)
        ensures
            open@ == self@.still_open(closed@),
            forall|handle: u64| #[trigger]
                final(dropped)@.contains(handle) <==> old(dropped)@.contains(handle) || (
                self@.has(handle) && closed@.contains(handle)),
            final(dropped)@ == old(dropped)@ + (closed_handles(self@.acks, closed@)
                + closed_handles(self@.messages, closed@)),
    {
        let ack_waiters: Vec<u64> = split_closed(&self.ack_waiters, closed, dropped);
        let message_waiters: Vec<u64> = split_closed(&self.message_waiters, closed, dropped);
        proof {
            let first = old(dropped)@;
            let acks = closed_handles(self.ack_waiters@, closed@);
            let messages = closed_handles(self.message_waiters@, closed@);
            assert(dropped@ =~= first + (acks + messages));
            assert forall|handle: u64| #[trigger]
                dropped@.contains(handle) <==> first.contains(handle) || (self@.has(handle)
                    && closed@.contains(handle)) by {
                lemma_contains_sum(first + acks, messages, handle);
                lemma_contains_sum(first, acks, handle);
                lemma_filter_members(
                    self.ack_waiters@,
                    |h: u64| closed@.contains(h),
                    handle,
                );
                lemma_filter_members(
                    self.message_waiters@,
                    |h: u64| closed@.contains(h),
                    handle,
                );
            }
        }
        Waiters { ack_waiters, message_waiters }
    }

    /// Puts all the waiters onto `dropped`.
    pub(crate) fn drop_all(&self, dropped: &mut Vec<u64>)
        ensures
            forall|handle: u64| #[trigger]
                final(dropped)@.contains(handle) <==> old(dropped)@.contains(handle)
                    || self@.has(handle),
            final(dropped)@ == old(dropped)@ + (self@.acks + self@.messages),
    {
        append_all(dropped, &self.ack_waiters);
        append_all(dropped, &self.message_waiters);
        proof {
            let first = old(dropped)@;
            let acks = self.ack_waiters@;
            let messages = self.message_waiters@;
            assert(dropped@ =~= first + (acks + messages));
            assert forall|handle: u64| #[trigger]
                dropped@.contains(handle) <==> first.contains(handle) || self@.has(handle) by {
                lemma_contains_sum(first + acks, messages, handle);
                lemma_contains_sum(first, acks, handle);
            }
        }
    }
}

proof fn lemma_filter_members(handles: Seq<u64>, keep: spec_fn(u64) -> bool, handle: u64)
    ensures
        handles.filter(keep).contains(handle) <==> handles.contains(handle) && keep(handle),
        handles.filter(keep).len() <= handles.len(),
    decreases handles.len(),
{
    reveal(Seq::filter);
    if handles.len() > 0 {
        let front = handles.drop_last();
        let last = handles.last();
        lemma_filter_members(front, keep, handle);
        assert(handles =~= front + seq![last]);
        lemma_contains_sum(front, seq![last], handle);
        lemma_contains_sum(front.filter(keep), seq![last], handle);
        assert(front.filter(keep).push(last) =~= front.filter(keep) + seq![last]);
        assert(seq![last].contains(handle) <==> last == handle) by {
            assert(seq![last][0] == last);
        }
    }
}

proof fn lemma_contains_sum(left: Seq<u64>, right: Seq<u64>, handle: u64)
    ensures
        (left + right).contains(handle) <==> left.contains(handle) || right.contains(handle),
{
    if left.contains(handle) {
        let k = left.index_of(handle);
        assert((left + right)[k] == handle);
    }
    if right.contains(handle) {
        let k = right.index_of(handle);
        assert((left + right)[left.len() + k] == handle);
    }
}

/// Two lists without repetitions that share no handle have none together.
pub proof fn lists_without_repetition_add_up(left: Seq<u64>, right: Seq<u64>)
    requires
        left.no_duplicates(),
        right.no_duplicates(),
        forall|handle: u64| !(#[trigger] left.contains(handle) && right.contains(handle)),
    ensures
        (left + right).no_duplicates(),
{
    let both = left + right;
    assert forall|i: int, j: int| 0 <= i < both.len() && 0 <= j < both.len() && i
        != j implies both[i] != both[j] by {
        if i < left.len() && j >= left.len() {
            assert(left.contains(left[i]));
            assert(right[j - left.len()] == both[j]);
        } else if j < left.len() && i >= left.len() {
            assert(left.contains(left[j]));
            assert(right[i - left.len()] == both[i]);
        }
    }
}

proof fn lemma_filter_once(handles: Seq<u64>, keep: spec_fn(u64) -> bool)
    requires
        handles.no_duplicates(),
    ensures
        handles.filter(keep).no_duplicates(),
    decreases handles.len(),
{
    reveal(Seq::filter);
    if handles.len() > 0 {
        let front = handles.drop_last();
        let last = handles.last();
        lemma_filter_once(front, keep);
        lemma_filter_members(front, keep, last);
        assert(!front.contains(last));
        if keep(last) {
            let kept = front.filter(keep);
            assert(handles.filter(keep) =~= kept.push(last));
            assert forall|i: int, j: int| 0 <= i < kept.len() + 1 && 0 <= j < kept.len() + 1 && i
                != j implies kept.push(last)[i] != kept.push(last)[j] by {
                if i < kept.len() {
                    assert(kept.contains(kept[i]));
                }
                if j < kept.len() {
                    assert(kept.contains(kept[j]));
                }
            }
        }
    }
}

/// Where no handle is listed twice, none is listed twice among those that are closed.
pub proof fn closed_handles_are_listed_once(acks: Seq<u64>, messages: Seq<u64>, closed: Seq<u64>)
    requires
        (acks + messages).no_duplicates(),
    ensures
        (closed_handles(acks, closed) + closed_handles(messages, closed)).no_duplicates(),
{
    let is_closed = |handle: u64| closed.contains(handle);
    let both = acks + messages;
    assert forall|i: int, j: int| 0 <= i < acks.len() && 0 <= j < acks.len() && i
        != j implies acks[i] != acks[j] by {
        assert(both[i] == acks[i] && both[j] == acks[j]);
    }
    assert forall|i: int, j: int| 0 <= i < messages.len() && 0 <= j < messages.len() && i
        != j implies messages[i] != messages[j] by {
        assert(both[acks.len() + i] == messages[i] && both[acks.len() + j] == messages[j]);
    }
    lemma_filter_once(acks, is_closed);
    lemma_filter_once(messages, is_closed);
    let (left, right) = (closed_handles(acks, closed), closed_handles(messages, closed));
    assert forall|handle: u64| !(#[trigger] left.contains(handle) && right.contains(handle)) by {
        lemma_filter_members(acks, is_closed, handle);
        lemma_filter_members(messages, is_closed, handle);
        if left.contains(handle) && right.contains(handle) {
            let i = acks.index_of(handle);
            let j = messages.index_of(handle);
            assert(both[i] == both[acks.len() + j]);
        }
    }
    lists_without_repetition_add_up(left, right);
}

/// Filtering keeps a handle exactly if it was listed and is not closed, and never lengthens the
/// list.
pub proof fn open_handles_members(handles: Seq<u64>, closed: Seq<u64>, handle: u64)
    ensures
        open_handles(handles, closed).contains(handle) <==> handles.contains(handle)
            && !closed.contains(handle),
        open_handles(handles, closed).len() <= handles.len(),
{
    lemma_filter_members(handles, |h: u64| !closed.contains(h), handle);
}

/// A handle that is taken from the waiters of an entry is one that waited there.
pub proof fn taken_handles_waited(waiters: WaitersView, closed: Seq<u64>, handle: u64)
    ensures
        (waiters.acks + waiters.messages).contains(handle) <==> waiters.has(handle),
        (closed_handles(waiters.acks, closed) + closed_handles(waiters.messages, closed)).contains(
            handle,
        ) <==> waiters.has(handle) && closed.contains(handle),
{
    let is_closed = |h: u64| closed.contains(h);
    lemma_contains_sum(waiters.acks, waiters.messages, handle);
    lemma_contains_sum(
        closed_handles(waiters.acks, closed),
        closed_handles(waiters.messages, closed),
        handle,
    );
    lemma_filter_members(waiters.acks, is_closed, handle);
    lemma_filter_members(waiters.messages, is_closed, handle);
}

} // verus!
