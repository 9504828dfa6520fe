//! Requests that were sent over a stream and wait for their answer, keyed by
//! request id: the bookkeeping of the client API stream and of the Raft
//! replication stream.

use vstd::prelude::*;

verus! {

/// Whether the ids of `entries` are pairwise distinct.
pub open spec fn distinct_ids<A>(entries: Seq<(usize, A)>) -> bool {
    forall|i: int, j: int|
        0 <= i < entries.len() && 0 <= j < entries.len() && i != j ==> #[trigger] entries[i].0
            != #[trigger] entries[j].0
}

/// Whether some entry has id `id`.
pub open spec fn has_id<A>(entries: Seq<(usize, A)>, id: usize) -> bool {
    exists|i: int| 0 <= i < entries.len() && #[trigger] entries[i].0 == id
}

/// A position of an entry with id `id`.
pub open spec fn index_of_id<A>(entries: Seq<(usize, A)>, id: usize) -> int {
    choose|i: int| 0 <= i < entries.len() && #[trigger] entries[i].0 == id
}

/// The waiters that `entries` hold, by request id.
pub open spec fn waiters<A>(entries: Seq<(usize, A)>) -> Map<usize, A> {
    Map::new(|id: usize| has_id(entries, id), |id: usize| entries[index_of_id(entries, id)].1)
}

/// With distinct ids, the entry at `i` is the one `index_of_id` finds.
pub proof fn lemma_index_of_id_unique<A>(entries: Seq<(usize, A)>, i: int)
    requires
        distinct_ids(entries),
        0 <= i < entries.len(),
    ensures
        index_of_id(entries, entries[i].0) == i,
        waiters(entries).contains_key(entries[i].0),
        waiters(entries)[entries[i].0] == entries[i].1,
{
    let id = entries[i].0;
    assert(has_id(entries, id));
    let k = index_of_id(entries, id);
    assert(entries[k].0 == id);
}

/// Appending an entry under a fresh id adds it to the waiters.
pub proof fn lemma_push_fresh<A>(entries: Seq<(usize, A)>, id: usize, ack: A)
    requires
        distinct_ids(entries),
        !has_id(entries, id),
    ensures
        distinct_ids(entries.push((id, ack))),
        waiters(entries.push((id, ack))) == waiters(entries).insert(id, ack),
{
    let s = entries.push((id, ack));
    assert forall|i: int, j: int|
        0 <= i < s.len() && 0 <= j < s.len() && i != j implies #[trigger] s[i].0 != #[trigger] s[j].0 by {
        if i == entries.len() {
            assert(entries[j].0 == s[j].0);
        } else if j == entries.len() {
            assert(entries[i].0 == s[i].0);
        } else {
            assert(entries[i].0 != entries[j].0);
        }
    }
    assert(s[entries.len() as int].0 == id);
    lemma_index_of_id_unique(s, entries.len() as int);
    assert forall|k: usize| #[trigger] has_id(s, k) == (has_id(entries, k) || k == id) by {
        if has_id(entries, k) {
            let i = choose|i: int| 0 <= i < entries.len() && #[trigger] entries[i].0 == k;
            assert(s[i].0 == k);
        }
        if has_id(s, k) && k != id {
            let i = choose|i: int| 0 <= i < s.len() && #[trigger] s[i].0 == k;
            assert(entries[i].0 == k);
        }
    }
    assert forall|k: usize| has_id(entries, k) implies #[trigger] waiters(s)[k] == waiters(
        entries,
    )[k] by {
        let i = choose|i: int| 0 <= i < entries.len() && #[trigger] entries[i].0 == k;
        lemma_index_of_id_unique(entries, i);
        assert(s[i] == entries[i]);
        lemma_index_of_id_unique(s, i);
    }
    assert(waiters(s) =~= waiters(entries).insert(id, ack));
}

/// Removing the entry at `i` removes its id from the waiters.
pub proof fn lemma_remove_at<A>(entries: Seq<(usize, A)>, i: int)
    requires
        distinct_ids(entries),
        0 <= i < entries.len(),
    ensures
        distinct_ids(entries.remove(i)),
        waiters(entries.remove(i)) == waiters(entries).remove(entries[i].0),
{
    let s = entries.remove(i);
    let id = entries[i].0;
    assert forall|a: int, b: int|
        0 <= a < s.len() && 0 <= b < s.len() && a != b implies #[trigger] s[a].0 != #[trigger] s[b].0 by {
        let a2 = if a < i { a } else { a + 1 };
        let b2 = if b < i { b } else { b + 1 };
        assert(s[a] == entries[a2]);
        assert(s[b] == entries[b2]);
        assert(entries[a2].0 != entries[b2].0);
    }
    assert forall|k: usize| #[trigger] has_id(s, k) == (has_id(entries, k) && k != id) by {
        if has_id(s, k) {
            let a = choose|a: int| 0 <= a < s.len() && #[trigger] s[a].0 == k;
            let a2 = if a < i { a } else { a + 1 };
            assert(s[a] == entries[a2]);
            assert(entries[a2].0 == k);
            assert(a2 != i);
        }
        if has_id(entries, k) && k != id {
            let a2 = choose|a: int| 0 <= a < entries.len() && #[trigger] entries[a].0 == k;
            assert(a2 != i);
            let a = if a2 < i { a2 } else { a2 - 1 };
            assert(s[a] == entries[a2]);
        }
    }
    assert forall|k: usize| has_id(s, k) implies #[trigger] waiters(s)[k] == waiters(entries)[k] by {
        let a = choose|a: int| 0 <= a < s.len() && #[trigger] s[a].0 == k;
        let a2 = if a < i { a } else { a + 1 };
        assert(s[a] == entries[a2]);
        lemma_index_of_id_unique(s, a);
        lemma_index_of_id_unique(entries, a2);
    }
    assert(waiters(s) =~= waiters(entries).remove(id));
}

/// The waiters of no entries.
pub proof fn lemma_no_waiters<A>(entries: Seq<(usize, A)>)
    requires
        entries.len() == 0,
    ensures
        distinct_ids(entries),
        waiters(entries) == Map::<usize, A>::empty(),
{
    assert(waiters(entries) =~= Map::<usize, A>::empty());
}

/// The position of the entry with id `id`, if any.
fn find_id<A>(entries: &Vec<(usize, A)>, id: usize) -> (r: Option<usize>)
    ensures
        match r {
            Some(i) => i < entries@.len() && entries@[i as int].0 == id,
            None => !has_id(entries@, id),
        },
{
    let mut i: usize = 0;
    while i < entries.len()
        invariant
            i <= entries@.len(),
            forall|j: int| 0 <= j < i ==> #[trigger] entries@[j].0 != id,
        decreases entries@.len() - i,
    {
        if entries[i].0 == id {
            return Some(i);
        }
        i = i + 1;
    }
    None
}

/// Waiters by request id, each id at most once: the map of answer channels
/// a stream keeps for the requests it has sent.
pub struct PendingAcks<A> {
    entries: Vec<(usize, A)>,
}

impl<A> PendingAcks<A> {
    #[verifier::type_invariant]
    spec fn ids_distinct(self) -> bool {
        distinct_ids(self.entries@)
    }

    /// The waiters by request id.
    pub closed spec fn waiting(self) -> Map<usize, A> {
        waiters(self.entries@)
    }

    /// No waiters.
    pub fn new() -> (r: Self)
        ensures
            r.waiting() == Map::<usize, A>::empty(),
    {
        let entries: Vec<(usize, A)> = Vec::new();
        proof {
            lemma_no_waiters(entries@);
        }
        PendingAcks { entries }
    }

    /// Whether a waiter is registered under `id`.
    pub fn contains(&self, id: usize) -> (r: bool)
        ensures
            r == self.waiting().contains_key(id),
    {
        proof {
            use_type_invariant(&*self);
        }
        match find_id(&self.entries, id) {
            Some(i) => {
                proof {
                    lemma_index_of_id_unique(self.entries@, i as int);
                }
                true
            },
            None => false,
        }
    }

    /// Whether no waiter is registered.
    pub fn is_empty(&self) -> (r: bool)
        ensures
            r == (self.waiting() == Map::<usize, A>::empty()),
    {
        proof {
            use_type_invariant(self);
        }
        if self.entries.len() == 0 {
            proof {
                lemma_no_waiters(self.entries@);
            }
            true
        } else {
            proof {
                lemma_index_of_id_unique(self.entries@, 0);
                assert(!(self.waiting() =~= Map::<usize, A>::empty()));
            }
            false
        }
    }

    /// Registers `ack` under `id`; a waiter already registered under `id` is
    /// replaced and handed back.
    pub fn insert(&mut self, id: usize, ack: A) -> (r: Option<A>)
        ensures
            final(self).waiting() == old(self).waiting().insert(id, ack),
            match r {
                Some(prev) => old(self).waiting().contains_key(id) && prev == old(self).waiting()[id],
                None => !old(self).waiting().contains_key(id),
            },
    {
        proof {
            use_type_invariant(&*self);
        }
        let mut entries: Vec<(usize, A)> = Vec::new();
        std::mem::swap(&mut entries, &mut self.entries);
        let ghost before = entries@;
        let r = match find_id(&entries, id) {
            Some(i) => {
                let (_, prev) = entries.remove(i);
                proof {
                    lemma_index_of_id_unique(before, i as int);
                    lemma_remove_at(before, i as int);
                    assert(!has_id(entries@, id)) by {
                        if has_id(entries@, id) {
                            let j = choose|j: int| 0 <= j < entries@.len() && #[trigger] entries@[j].0 == id;
                            lemma_index_of_id_unique(entries@, j);
                        }
                    }
                    lemma_push_fresh(entries@, id, ack);
                    assert(waiters(before).remove(id).insert(id, ack) =~= waiters(before).insert(
                        id,
                        ack,
                    ));
                }
                entries.push((id, ack));
                Some(prev)
            },
            None => {
                proof {
                    lemma_push_fresh(entries@, id, ack);
                }
                entries.push((id, ack));
                None
            },
        };
        self.entries = entries;
        r
    }

    /// Takes the waiter registered under `id`, if any.
    pub fn remove(&mut self, id: usize) -> (r: Option<A>)
        ensures
            final(self).waiting() == old(self).waiting().remove(id),
            match r {
                Some(ack) => old(self).waiting().contains_key(id) && ack == old(self).waiting()[id],
                None => !old(self).waiting().contains_key(id),
            },
    {
        proof {
            use_type_invariant(&*self);
        }
        let mut entries: Vec<(usize, A)> = Vec::new();
        std::mem::swap(&mut entries, &mut self.entries);
        let ghost before = entries@;
        let r = match find_id(&entries, id) {
            Some(i) => {
                let (_, ack) = entries.remove(i);
                proof {
                    lemma_index_of_id_unique(before, i as int);
                    lemma_remove_at(before, i as int);
                }
                Some(ack)
            },
            None => {
                proof {
                    assert(waiters(before).remove(id) =~= waiters(before));
                }
                None
            },
        };
        self.entries = entries;
        r
    }

    /// Takes every waiter, leaving none.
    pub fn take_all(&mut self) -> (r: Vec<(usize, A)>)
        ensures
            final(self).waiting() == Map::<usize, A>::empty(),
            distinct_ids(r@),
            waiters(r@) == old(self).waiting(),
    {
        proof {
            use_type_invariant(&*self);
        }
        let mut out: Vec<(usize, A)> = Vec::new();
        proof {
            lemma_no_waiters(out@);
        }
        std::mem::swap(&mut out, &mut self.entries);
        out
    }
}

/// Where the answer to request `id` goes, from the requests in flight on the
/// current connection and those carried over from an earlier one: a waiter
/// in flight takes it; else, while carried-over requests may still be
/// answered, a carried-over waiter takes it; else nobody does. Returns the
/// two maps afterwards and the waiter that takes the answer.
pub open spec fn forwarded<A>(
    in_flight: Map<usize, A>,
    carried: Map<usize, A>,
    id: usize,
    awaiting_timeout: bool,
) -> (Map<usize, A>, Map<usize, A>, Option<A>) {
    if in_flight.contains_key(id) {
        (in_flight.remove(id), carried, Some(in_flight[id]))
    } else if awaiting_timeout && carried.contains_key(id) {
        (in_flight, carried.remove(id), Some(carried[id]))
    } else {
        (in_flight, carried, None)
    }
}

/// The client side of the API stream to the leader: the requests in flight
/// on the current connection, those carried over from a connection that
/// broke, and whether carried-over requests may still be answered.
pub struct ClientStreamBook<A> {
    pub in_flight: PendingAcks<A>,
    pub in_flight_buf: PendingAcks<A>,
    pub awaiting_timeout: bool,
}

impl<A> ClientStreamBook<A> {
    /// Nothing in flight and nothing carried over.
    pub fn new() -> (r: Self)
        ensures
            r.in_flight.waiting() == Map::<usize, A>::empty(),
            r.in_flight_buf.waiting() == Map::<usize, A>::empty(),
            r.awaiting_timeout,
    {
        ClientStreamBook {
            in_flight: PendingAcks::new(),
            in_flight_buf: PendingAcks::new(),
            awaiting_timeout: true,
        }
    }

    /// A connection is open: carried-over requests may be answered again
    /// until the buffer is cleaned up.
    pub fn connection_opened(&mut self)
        ensures
            final(self).in_flight.waiting() == old(self).in_flight.waiting(),
            final(self).in_flight_buf.waiting() == old(self).in_flight_buf.waiting(),
            final(self).awaiting_timeout,
    {
        self.awaiting_timeout = true;
    }

    /// Request `id` was handed to the writer: its waiter is in flight. A
    /// waiter already in flight under `id` is replaced and handed back.
    pub fn request_sent(&mut self, id: usize, ack: A) -> (r: Option<A>)
        ensures
            final(self).in_flight.waiting() == old(self).in_flight.waiting().insert(id, ack),
            final(self).in_flight_buf.waiting() == old(self).in_flight_buf.waiting(),
            final(self).awaiting_timeout == old(self).awaiting_timeout,
            match r {
                Some(prev) => old(self).in_flight.waiting().contains_key(id) && prev == old(
                    self,
                ).in_flight.waiting()[id],
                None => !old(self).in_flight.waiting().contains_key(id),
            },
    {
        self.in_flight.insert(id, ack)
    }

    /// The answer to request `id` arrived: takes the waiter it goes to, as
    /// `forwarded` says, with `awaiting_timeout` telling whether carried-over
    /// requests may still be answered.
    pub fn try_forward_response(&mut self, id: usize, awaiting_timeout: bool) -> (r: Option<A>)
        ensures
            (final(self).in_flight.waiting(), final(self).in_flight_buf.waiting(), r) == forwarded(
                old(self).in_flight.waiting(),
                old(self).in_flight_buf.waiting(),
                id,
                awaiting_timeout,
            ),
            final(self).awaiting_timeout == old(self).awaiting_timeout,
    {
        match self.in_flight.remove(id) {
            Some(ack) => Some(ack),
            None => {
                if awaiting_timeout {
                    self.in_flight_buf.remove(id)
                } else {
                    None
                }
            },
        }
    }

    /// The leader changed: every request in flight is handed back to be
    /// answered with an error; carried-over requests stay.
    pub fn leader_changed(&mut self) -> (r: Vec<(usize, A)>)
        ensures
            final(self).in_flight.waiting() == Map::<usize, A>::empty(),
            final(self).in_flight_buf.waiting() == old(self).in_flight_buf.waiting(),
            final(self).awaiting_timeout == old(self).awaiting_timeout,
            distinct_ids(r@),
            waiters(r@) == old(self).in_flight.waiting(),
    {
        self.in_flight.take_all()
    }

    /// The time for carried-over requests is up: they are dropped and no
    /// longer answered.
    pub fn cleanup_buffer(&mut self)
        ensures
            final(self).in_flight.waiting() == old(self).in_flight.waiting(),
            final(self).in_flight_buf.waiting() == Map::<usize, A>::empty(),
            !final(self).awaiting_timeout,
    {
        self.in_flight_buf = PendingAcks::new();
        self.awaiting_timeout = false;
    }

    /// The connection ended: the requests in flight are carried over, ahead
    /// of carried-over requests under the same id.
    pub fn connection_closed(&mut self)
        ensures
            final(self).in_flight.waiting() == Map::<usize, A>::empty(),
            final(self).in_flight_buf.waiting() == old(self).in_flight_buf.waiting().union_prefer_right(
                old(self).in_flight.waiting(),
            ),
            final(self).awaiting_timeout == old(self).awaiting_timeout,
    {
        let ghost carried = self.in_flight_buf.waiting();
        let mut moved = self.in_flight.take_all();
        let ghost all = moved@;
        let total: usize = moved.len();
        let ghost n = total;
        let ghost awaiting = self.awaiting_timeout;
        let mut k: usize = 0;
        proof {
            lemma_no_waiters(all.subrange(0, 0));
            assert(carried.union_prefer_right(Map::<usize, A>::empty()) =~= carried);
        }
        while moved.len() > 0
            invariant
                distinct_ids(all),
                n == all.len(),
                k <= n,
                moved@ == all.subrange(k as int, n as int),
                self.in_flight.waiting() == Map::<usize, A>::empty(),
                self.awaiting_timeout == awaiting,
                self.in_flight_buf.waiting() == carried.union_prefer_right(
                    waiters(all.subrange(0, k as int)),
                ),
            decreases moved@.len(),
        {
            let (id, ack) = moved.remove(0);
            proof {
                let done = all.subrange(0, k as int);
                assert(all[k as int] == (id, ack));
                assert(distinct_ids(done));
                assert(!has_id(done, id)) by {
                    if has_id(done, id) {
                        let j = choose|j: int| 0 <= j < done.len() && #[trigger] done[j].0 == id;
                        assert(all[j].0 == id);
                    }
                }
                lemma_push_fresh(done, id, ack);
                assert(done.push((id, ack)) =~= all.subrange(0, k as int + 1));
                assert(carried.union_prefer_right(waiters(done)).insert(id, ack)
                    =~= carried.union_prefer_right(waiters(done).insert(id, ack)));
                assert(moved@ =~= all.subrange(k as int + 1, n as int));
            }
            self.in_flight_buf.insert(id, ack);
            k = k + 1;
        }
        proof {
            assert(all.subrange(0, k as int) =~= all);
        }
    }
}

/// The answer to a request is handed to one waiter only: once it was
/// forwarded, an answer carrying the same id again reaches nobody, unless
/// the id was both in flight and carried over.
pub proof fn law_forwarded_response_is_consumed<A>(
    in_flight: Map<usize, A>,
    carried: Map<usize, A>,
    id: usize,
    awaiting_timeout: bool,
)
    requires
        !(in_flight.contains_key(id) && carried.contains_key(id)),
        forwarded(in_flight, carried, id, awaiting_timeout).2 is Some,
    ensures
        ({
            let first = forwarded(in_flight, carried, id, awaiting_timeout);
            forwarded(first.0, first.1, id, awaiting_timeout).2 is None
        }),
{
}

/// A request in flight when its connection breaks still gets its answer
/// while carried-over requests may be answered: after the carry-over, the
/// answer to it reaches the same waiter.
pub proof fn law_carried_request_reaches_its_waiter<A>(
    in_flight: Map<usize, A>,
    carried: Map<usize, A>,
    id: usize,
)
    requires
        in_flight.contains_key(id),
    ensures
        forwarded(Map::<usize, A>::empty(), carried.union_prefer_right(in_flight), id, true).2
            == Some(in_flight[id]),
{
}

/// The Raft replication stream to one peer: request ids are handed out in
/// ascending order, and each waiter is registered under its id until the
/// answer arrives or the connection ends.
pub struct RaftRequestBook<A> {
    next_id: usize,
    in_flight: PendingAcks<A>,
}

impl<A> RaftRequestBook<A> {
    #[verifier::type_invariant]
    spec fn ids_issued(self) -> bool {
        forall|id: usize| #[trigger] self.in_flight.waiting().contains_key(id) ==> id < self.next_id
    }

    /// The id the next request gets.
    pub closed spec fn next(self) -> usize {
        self.next_id
    }

    /// The waiters by request id.
    pub closed spec fn waiting(self) -> Map<usize, A> {
        self.in_flight.waiting()
    }

    /// Ids start at `0`, nothing in flight.
    pub fn new() -> (r: Self)
        ensures
            r.next() == 0,
            r.waiting() == Map::<usize, A>::empty(),
    {
        RaftRequestBook { next_id: 0, in_flight: PendingAcks::new() }
    }

    /// The id the next request gets.
    pub fn next_request_id(&self) -> (r: usize)
        ensures
            r == self.next(),
    {
        self.next_id
    }

    /// Whether nothing is in flight.
    pub fn is_empty(&self) -> (r: bool)
        ensures
            r == (self.waiting() == Map::<usize, A>::empty()),
    {
        self.in_flight.is_empty()
    }

    /// The request with the next id was handed to the writer: its waiter is
    /// registered under that id, which is returned, and the next id is one
    /// higher.
    pub fn register(&mut self, ack: A) -> (r: usize)
        requires
            old(self).next() < usize::MAX,
        ensures
            r == old(self).next(),
            !old(self).waiting().contains_key(r),
            final(self).waiting() == old(self).waiting().insert(r, ack),
            final(self).next() == old(self).next() + 1,
    {
        proof {
            use_type_invariant(&*self);
        }
        let id = self.next_id;
        let mut book = PendingAcks::new();
        std::mem::swap(&mut book, &mut self.in_flight);
        let _ = book.insert(id, ack);
        self.next_id = id + 1;
        self.in_flight = book;
        id
    }

    /// The answer to request `id` arrived: takes its waiter, if any.
    pub fn take(&mut self, id: usize) -> (r: Option<A>)
        ensures
            final(self).next() == old(self).next(),
            final(self).waiting() == old(self).waiting().remove(id),
            match r {
                Some(ack) => old(self).waiting().contains_key(id) && ack == old(self).waiting()[id],
                None => !old(self).waiting().contains_key(id),
            },
    {
        proof {
            use_type_invariant(&*self);
        }
        let mut book = PendingAcks::new();
        std::mem::swap(&mut book, &mut self.in_flight);
        let r = book.remove(id);
        self.in_flight = book;
        r
    }

    /// The connection ended: every waiter is handed back to be answered with
    /// an error, and nothing is in flight.
    pub fn take_all(&mut self) -> (r: Vec<(usize, A)>)
        ensures
            final(self).next() == old(self).next(),
            final(self).waiting() == Map::<usize, A>::empty(),
            distinct_ids(r@),
            waiters(r@) == old(self).waiting(),
    {
        proof {
            use_type_invariant(&*self);
        }
        let mut book = PendingAcks::new();
        std::mem::swap(&mut book, &mut self.in_flight);
        let r = book.take_all();
        self.in_flight = book;
        r
    }
}

/// An answer carrying the id that registering a waiter returned reaches that
/// waiter, and no other waiter is disturbed.
pub proof fn law_answer_reaches_registered_waiter<A>(waiting: Map<usize, A>, id: usize, ack: A)
    requires
        !waiting.contains_key(id),
    ensures
        waiting.insert(id, ack).contains_key(id),
        waiting.insert(id, ack)[id] == ack,
        waiting.insert(id, ack).remove(id) == waiting,
{
    assert(waiting.insert(id, ack).remove(id) =~= waiting);
}

} // verus!
