//! The client's pending-reply table: one entry per request in flight,
//! keyed by correlation id, holding the completion the caller awaits.
//!
//! The completion value is asynchronous plumbing and is opaque here — the
//! table is generic in it.  What is verified is the table discipline that
//! carries the at-most-one-reply guarantee: an entry is removed the
//! moment it is taken, so a correlation id can complete a caller at most
//! once, and a frame whose id is unknown (stale, duplicate or forged)
//! finds nothing and is discarded.

use vstd::prelude::*;
use std::collections::HashMap;

verus! {

broadcast use vstd::std_specs::hash::group_hash_axioms;

/// The table of requests awaiting a reply, keyed by correlation id.
pub struct PendingTable<V> {
    entries: HashMap<u128, V>,
}

impl<V> View for PendingTable<V> {
    type V = Map<u128, V>;

    closed spec fn view(&self) -> Map<u128, V> {
        self.entries@
    }
}

impl<V> PendingTable<V> {
    /// An empty table.
    pub fn new() -> (r: PendingTable<V>)
        ensures
            r@ == Map::<u128, V>::empty(),
    {
        PendingTable { entries: HashMap::new() }
    }

    /// Records a request in flight: the caller's completion slot, under
    /// the request's correlation id.  Returns the slot previously under
    /// that id, if any (a fresh id finds none).
    pub fn insert(&mut self, unique_id: u128, slot: V) -> (prev: Option<V>)
        ensures
            final(self)@ == old(self)@.insert(unique_id, slot),
            prev matches Some(p) ==> old(self)@.contains_key(unique_id) && p == old(
                self,
            )@[unique_id],
            prev is None <==> !old(self)@.contains_key(unique_id),
    {
        self.entries.insert(unique_id, slot)
    }

    /// Takes the completion slot for a correlation id out of the table.
    /// Answers `Some` exactly when a request with that id is in flight;
    /// either way the id is absent afterwards.
    pub fn take(&mut self, unique_id: u128) -> (r: Option<V>)
        ensures
            final(self)@ == old(self)@.remove(unique_id),
            r matches Some(v) ==> old(self)@.contains_key(unique_id) && v == old(
                self,
            )@[unique_id],
            r is None <==> !old(self)@.contains_key(unique_id),
            !final(self)@.contains_key(unique_id),
    {
        self.entries.remove(&unique_id)
    }

    /// Whether a request with this correlation id is in flight.
    pub fn contains(&self, unique_id: u128) -> (r: bool)
        ensures
            r == self@.contains_key(unique_id),
    {
        self.entries.contains_key(&unique_id)
    }

    /// How many requests are in flight.
    pub fn len(&self) -> (r: usize)
        ensures
            r == self@.dom().len(),
    {
        self.entries.len()
    }
}

/// At-most-one-reply: taking a correlation id removes it, whatever the
/// table held, so a second frame carrying the same id finds nothing.
/// With [`PendingTable::take`]'s contract this means the completion slot
/// of any request is handed out — and so resolved — at most once.
pub proof fn lemma_reply_resolves_at_most_once<V>(table: Map<u128, V>, unique_id: u128)
    ensures
        !table.remove(unique_id).contains_key(unique_id),
{
}

} // verus!
