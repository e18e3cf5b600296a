//! Handle tables: integer-keyed tables whose keys are issued once, in rising
//! order, and never again in the same session.

use std::collections::HashMap;
use vstd::prelude::*;

verus! {

broadcast use vstd::std_specs::hash::group_hash_axioms;

/// A table from handles to values, with the next handle to issue.
pub struct HandleTable<T> {
    entries: HashMap<u64, T>,
    next_id: u64,
}

impl<T> View for HandleTable<T> {
    type V = Map<u64, T>;

    closed spec fn view(&self) -> Map<u64, T> {
        self.entries@
    }
}

impl<T> HandleTable<T> {
    /// The handle that the next insertion gets.
    pub closed spec fn next(&self) -> u64 {
        self.next_id
    }

    /// Every handle in the table was issued: it lies below the next one.
    pub closed spec fn wf(&self) -> bool {
        forall|id: u64| #[trigger] self.entries@.contains_key(id) ==> id < self.next_id
    }

    /// In a well-formed table every open handle lies below the next one.
    pub proof fn lemma_issued_below_next(&self)
        requires
            self.wf(),
        ensures
            forall|id: u64| #[trigger] self@.contains_key(id) ==> id < self.next(),
    {
    }

    /// An empty table whose first handle will be `first`.
    pub fn new(first: u64) -> (r: HandleTable<T>)
        ensures
            r@ == Map::<u64, T>::empty(),
            r.next() == first,
            r.wf(),
    {
        HandleTable { entries: HashMap::new(), next_id: first }
    }

    /// The handle that the next insertion gets.
    pub fn next_handle(&self) -> (r: u64)
        ensures
            r == self.next(),
    {
        self.next_id
    }

    /// Stores `value` under a fresh handle and returns the handle. The handle
    /// is the next one, and the next one rises by one. With the handles
    /// exhausted nothing is stored.
    pub fn insert(&mut self, value: T) -> (r: Option<u64>)
        requires
            old(self).wf(),
        ensures
            final(self).wf(),
            old(self).next() < u64::MAX ==> {
                &&& r == Some(old(self).next())
                &&& final(self)@ == old(self)@.insert(old(self).next(), value)
                &&& final(self).next() == old(self).next() + 1
            },
            old(self).next() == u64::MAX ==> {
                &&& r is None
                &&& final(self)@ == old(self)@
                &&& final(self).next() == old(self).next()
            },
    {
        if self.next_id == u64::MAX {
            return None;
        }
        let id = self.next_id;
        self.entries.insert(id, value);
        self.next_id = id + 1;
        Some(id)
    }

    /// Uses up the next handle without storing anything under it.
    pub fn skip(&mut self) -> (r: Option<u64>)
        requires
            old(self).wf(),
        ensures
            final(self).wf(),
            final(self)@ == old(self)@,
            old(self).next() < u64::MAX ==> {
                &&& r == Some(old(self).next())
                &&& final(self).next() == old(self).next() + 1
            },
            old(self).next() == u64::MAX ==> {
                &&& r is None
                &&& final(self).next() == old(self).next()
            },
    {
        if self.next_id == u64::MAX {
            return None;
        }
        let id = self.next_id;
        self.next_id = id + 1;
        Some(id)
    }

    /// Stores `value` under a handle that was issued before.
    pub fn put(&mut self, id: u64, value: T)
        requires
            old(self).wf(),
            id < old(self).next(),
        ensures
            final(self).wf(),
            final(self)@ == old(self)@.insert(id, value),
            final(self).next() == old(self).next(),
    {
        self.entries.insert(id, value);
    }

    /// The value under a handle, if the handle is open.
    pub fn get(&self, id: u64) -> (r: Option<&T>)
        ensures
            r == (if self@.contains_key(id) {
                Some(&self@[id])
            } else {
                None
            }),
    {
        self.entries.get(&id)
    }

    /// Whether a handle is open.
    pub fn contains(&self, id: u64) -> (r: bool)
        ensures
            r == self@.contains_key(id),
    {
        self.entries.contains_key(&id)
    }

    /// Closes a handle: removes it and returns what it held. An unknown
    /// handle changes nothing.
    pub fn remove(&mut self, id: u64) -> (r: Option<T>)
        requires
            old(self).wf(),
        ensures
            final(self).wf(),
            final(self)@ == old(self)@.remove(id),
            final(self).next() == old(self).next(),
            r == (if old(self)@.contains_key(id) {
                Some(old(self)@[id])
            } else {
                None
            }),
    {
        self.entries.remove(&id)
    }
}

/// A handle that was just issued is larger than every handle issued before,
/// so it is none of them.
pub proof fn lemma_fresh_handle<T>(before: HandleTable<T>, after: HandleTable<T>, id: u64)
    requires
        before.wf(),
        before.next() < u64::MAX,
        id == before.next(),
        after.next() == before.next() + 1,
    ensures
        !before@.contains_key(id),
        forall|other: u64| #[trigger] before@.contains_key(other) ==> other < id,
        id < after.next(),
{
    before.lemma_issued_below_next();
}

} // verus!
