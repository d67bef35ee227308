//! The cross-thread wake registry.
//!
//! Each driver instance carries a process-unique numeric identity for its
//! lifetime. Two independent mappings go from that identity to (i) an
//! unpark handle able to interrupt the driver's blocking poll and (ii) a
//! channel sender for delivering a wake signal to it. Entries are inserted
//! when a driver starts and removed when it shuts down; registration
//! replaces any prior entry (last writer wins), and a lookup returns its
//! own copy of the stored handle, so the copy stays usable even if the
//! entry is removed right afterwards.
//!
//! The registry is an explicitly owned value: whoever shares it across
//! threads wraps it in a mutual-exclusion lock and keeps the critical
//! section to the one map operation.

use vstd::prelude::*;

use std::collections::HashMap;

verus! {

broadcast use vstd::std_specs::hash::group_hash_axioms;

/// A handle that can be duplicated into an equal, independently usable
/// copy — the discipline reference-counted wake capabilities follow, so
/// that a registry lookup can hand out a copy and release the entry.
pub trait Dup: Sized {
    /// An equal copy of the handle.
    fn dup(&self) -> (r: Self)
        ensures
            r == *self,
    ;
}

impl Dup for u64 {
    fn dup(&self) -> (r: u64) {
        *self
    }
}

impl Dup for usize {
    fn dup(&self) -> (r: usize) {
        *self
    }
}

#[verifier::external_type_specification]
#[verifier::external_body]
#[verifier::reject_recursive_types(T)]
pub struct ExSender<T>(flume::Sender<T>);

/// Relies on `flume::Sender::clone`: the clone is a sender for the same
/// channel, interchangeable with the original.
pub assume_specification<T>[ <flume::Sender<T> as Clone>::clone ](
    s: &flume::Sender<T>,
) -> (r: flume::Sender<T>)
    ensures
        r == *s,
;

impl<T> Dup for flume::Sender<T> {
    fn dup(&self) -> (r: flume::Sender<T>) {
        self.clone()
    }
}

/// The wake registry of a process: driver identity to unpark handle, and
/// driver identity to wake-signal sender, as two independent mappings.
pub struct Registry<U, W> {
    unpark: HashMap<usize, U>,
    waker: HashMap<usize, W>,
}

impl<U: Dup, W: Dup> Registry<U, W> {
    /// The mapping from driver identity to unpark handle.
    pub closed spec fn unpark_map(&self) -> Map<usize, U> {
        self.unpark@
    }

    /// The mapping from driver identity to wake-signal sender.
    pub closed spec fn waker_map(&self) -> Map<usize, W> {
        self.waker@
    }

    /// An empty registry: no driver is known.
    pub fn new() -> (r: Registry<U, W>)
        ensures
            r.unpark_map() == Map::<usize, U>::empty(),
            r.waker_map() == Map::<usize, W>::empty(),
    {
        Registry { unpark: HashMap::new(), waker: HashMap::new() }
    }

    /// Registers the unpark handle of driver `id`, replacing any prior
    /// entry for that identity and touching no other.
    pub fn register_unpark_handle(&mut self, id: usize, unpark: U)
        ensures
            final(self).unpark_map() == old(self).unpark_map().insert(id, unpark),
            final(self).waker_map() == old(self).waker_map(),
    {
        self.unpark.insert(id, unpark);
    }

    /// Removes the unpark entry of driver `id` if present; a no-op
    /// otherwise. No other entry changes.
    pub fn unregister_unpark_handle(&mut self, id: usize)
        ensures
            final(self).unpark_map() == old(self).unpark_map().remove(id),
            final(self).waker_map() == old(self).waker_map(),
    {
        self.unpark.remove(&id);
    }

    /// Looks up the unpark handle of driver `id`: a copy of the stored
    /// handle if the driver is registered, `None` after deregistration
    /// or for an identity never seen.
    pub fn get_unpark_handle(&self, id: usize) -> (r: Option<U>)
        ensures
            match r {
                Some(h) => self.unpark_map().contains_key(id) && h == self.unpark_map()[id],
                None => !self.unpark_map().contains_key(id),
            },
    {
        match self.unpark.get(&id) {
            Some(h) => Some(h.dup()),
            None => None,
        }
    }

    /// Registers the wake-signal sender of driver `id`, replacing any
    /// prior entry for that identity and touching no other.
    pub fn register_waker_sender(&mut self, id: usize, sender: W)
        ensures
            final(self).waker_map() == old(self).waker_map().insert(id, sender),
            final(self).unpark_map() == old(self).unpark_map(),
    {
        self.waker.insert(id, sender);
    }

    /// Removes the wake-signal entry of driver `id` if present; a no-op
    /// otherwise. No other entry changes.
    pub fn unregister_waker_sender(&mut self, id: usize)
        ensures
            final(self).waker_map() == old(self).waker_map().remove(id),
            final(self).unpark_map() == old(self).unpark_map(),
    {
        self.waker.remove(&id);
    }

    /// Looks up the wake-signal sender of driver `id`: a copy of the
    /// stored sender if the driver is registered, `None` otherwise.
    pub fn get_waker_sender(&self, id: usize) -> (r: Option<W>)
        ensures
            match r {
                Some(s) => self.waker_map().contains_key(id) && s == self.waker_map()[id],
                None => !self.waker_map().contains_key(id),
            },
    {
        match self.waker.get(&id) {
            Some(s) => Some(s.dup()),
            None => None,
        }
    }
}

/// Registering then looking up the same identity yields exactly the
/// handle just registered, and registering twice leaves only the most
/// recent handle retrievable.
pub proof fn lemma_register_then_get<U>(m: Map<usize, U>, id: usize, h1: U, h2: U)
    ensures
        m.insert(id, h1).contains_key(id),
        m.insert(id, h1)[id] == h1,
        m.insert(id, h1).insert(id, h2).contains_key(id),
        m.insert(id, h1).insert(id, h2)[id] == h2,
{
}

/// After removing an identity, a lookup of it finds nothing, whatever
/// was registered before.
pub proof fn lemma_unregister_then_get<U>(m: Map<usize, U>, id: usize)
    ensures
        !m.remove(id).contains_key(id),
{
}

/// Operations on one driver identity never disturb another: a
/// registration or a deregistration for `id` leaves every other
/// identity's entry exactly as it was.
pub proof fn lemma_disjoint_ids_independent<U>(m: Map<usize, U>, id: usize, other: usize, h: U)
    requires
        id != other,
    ensures
        m.insert(id, h).contains_key(other) == m.contains_key(other),
        m.contains_key(other) ==> m.insert(id, h)[other] == m[other],
        m.remove(id).contains_key(other) == m.contains_key(other),
        m.contains_key(other) ==> m.remove(id)[other] == m[other],
{
}

} // verus!
