//! The waiting room: inbound connections that were accepted by the network
//! layer and wait for the operator to pick them.
//!
//! Entries keep the order in which they came. The operator names an entry by
//! its index in the list; taking an entry moves every later entry down by one
//! and leaves the earlier ones where they were.

use crate::connection::{Connection, PeerAddress};
use vstd::prelude::*;

verus! {

/// The index named no pending entry.
#[derive(Clone, Copy, Debug, PartialEq, Eq, Structural)]
pub struct IndexError {
    /// The index that was asked for.
    pub index: usize,
    /// The number of entries that were pending.
    pub len: usize,
}

/// The addresses of `pending`, in order.
pub open spec fn addresses<S>(pending: Seq<Connection<S>>) -> Seq<PeerAddress> {
    pending.map_values(|c: Connection<S>| c.peer_address)
}

/// What is left of `pending` once the entry at `index` was asked for: all but
/// that entry, or all of it where there is no such entry.
pub open spec fn after_take<S>(pending: Seq<Connection<S>>, index: int) -> Seq<Connection<S>> {
    if 0 <= index < pending.len() {
        pending.remove(index)
    } else {
        pending
    }
}

/// The connections that wait to be picked, oldest first.
#[derive(Debug, PartialEq, Eq)]
pub struct PendingRequestRegistry<S> {
    pending: Vec<Connection<S>>,
}

impl<S> View for PendingRequestRegistry<S> {
    type V = Seq<Connection<S>>;

    closed spec fn view(&self) -> Seq<Connection<S>> {
        self.pending@
    }
}

impl<S> PendingRequestRegistry<S> {
    /// An empty waiting room.
    pub fn new() -> (registry: Self)
        ensures
            registry@ == Seq::<Connection<S>>::empty(),
    {
        PendingRequestRegistry { pending: Vec::new() }
    }

    /// Files `connection` behind those that already wait.
    pub fn enqueue(&mut self, connection: Connection<S>)
        ensures
            final(self)@ == old(self)@.push(connection),
    {
        self.pending.push(connection);
    }

    /// The number of connections that wait.
    pub fn len(&self) -> (len: usize)
        ensures
            len == self@.len(),
    {
        self.pending.len()
    }

    /// Whether no connection waits.
    pub fn is_empty(&self) -> (empty: bool)
        ensures
            empty == (self@.len() == 0),
    {
        self.pending.len() == 0
    }

    /// The addresses of the peers that wait, oldest first. The place of an
    /// address in this list is the index by which `take` finds its entry.
    pub fn list(&self) -> (peers: Vec<PeerAddress>)
        ensures
            peers@ == addresses(self@),
    {
        let mut peers: Vec<PeerAddress> = Vec::new();
        let mut i: usize = 0;
        while i < self.pending.len()
            invariant
                i <= self.pending@.len(),
                peers@ == addresses(self.pending@.subrange(0, i as int)),
            decreases self.pending@.len() - i,
        {
            peers.push(self.pending[i].peer_address);
            assert(self.pending@.subrange(0, i + 1) == self.pending@.subrange(0, i as int).push(
                self.pending@[i as int],
            ));
            i = i + 1;
        }
        assert(self.pending@.subrange(0, i as int) == self.pending@);
        peers
    }

    /// Removes the entry at `index` and hands it over. The entries behind it
    /// move down by one; those before it stay.
    ///
    /// Fails, and changes nothing, where `index` names no entry.
    pub fn take(&mut self, index: usize) -> (taken: Result<Connection<S>, IndexError>)
        ensures
            final(self)@ == after_take(old(self)@, index as int),
            index < old(self)@.len() ==> taken == Ok::<_, IndexError>(old(self)@[index as int]),
            index >= old(self)@.len() ==> taken == Err::<Connection<S>, _>(
                IndexError { index, len: old(self)@.len() as usize },
            ),
    {
        let len = self.pending.len();
        if index < len {
            Ok(self.pending.remove(index))
        } else {
            Err(IndexError { index, len })
        }
    }
}

/// Where the entries stand after a take: those before the index keep their
/// place, and each one behind it stands one place lower than before.
pub proof fn lemma_take_moves_later_entries_down<S>(pending: Seq<Connection<S>>, index: int)
    requires
        0 <= index < pending.len(),
    ensures
        after_take(pending, index).len() == pending.len() - 1,
        forall|j: int| 0 <= j < index ==> after_take(pending, index)[j] == pending[j],
        forall|j: int|
            index <= j < pending.len() - 1 ==> after_take(pending, index)[j] == pending[j + 1],
{
}

/// Taking the entry that nothing follows leaves its index unused: the list
/// that comes after has no entry at that index, so none has moved into it.
/// The same holds where the index named no entry at all.
pub proof fn lemma_take_last_frees_index<S>(pending: Seq<Connection<S>>, index: int)
    requires
        0 <= index,
        index + 1 >= pending.len(),
    ensures
        addresses(after_take(pending, index)).len() <= index,
{
}

/// A connection that is filed while the operator looks at the list does not
/// disturb it: every entry that was listed is still found at its index.
pub proof fn lemma_enqueue_keeps_indices<S>(
    pending: Seq<Connection<S>>,
    connection: Connection<S>,
    index: int,
)
    requires
        0 <= index < pending.len(),
    ensures
        pending.push(connection)[index] == pending[index],
        addresses(pending.push(connection))[index] == addresses(pending)[index],
        after_take(pending.push(connection), index) == after_take(pending, index).push(connection),
{
}

} // verus!
