//! Keyed storage for the records of one family.
//!
//! A table holds at most one record per key. A record is created only where
//! none is stored yet, and is read or changed only where one is. Nothing is
//! ever removed.

use vstd::prelude::*;
use crate::address::{Key, KeyView};
use crate::error::VoidError;

verus! {

/// One occupied address: the key and the record that lives there.
struct Slot<R> {
    key: Key,
    record: R,
}

/// The records of one family, by key.
pub struct Table<R> {
    slots: Vec<Slot<R>>,
}

impl<R: View> View for Table<R> {
    type V = Map<KeyView, R::V>;

    closed spec fn view(&self) -> Map<KeyView, R::V> {
        Map::new(
            |k: KeyView| exists|i: int| self.holds(i, k),
            |k: KeyView| self.slots[self.slot_of(k)].record@,
        )
    }
}

impl<R: View> Table<R> {
    /// Slot `i` is the slot of key `k`.
    closed spec fn holds(&self, i: int, k: KeyView) -> bool {
        0 <= i < self.slots.len() && self.slots[i].key@ == k
    }

    /// A slot of key `k`, where there is one.
    closed spec fn slot_of(&self, k: KeyView) -> int {
        choose|i: int| self.holds(i, k)
    }

    /// No key occupies two slots.
    pub closed spec fn wf(&self) -> bool {
        forall|i: int, j: int|
            0 <= i < j < self.slots.len() ==> self.slots[i].key@ != self.slots[j].key@
    }

    /// How many records the table holds.
    pub closed spec fn count(&self) -> nat {
        self.slots.len() as nat
    }

    /// The number of records fits the machine.
    pub proof fn lemma_count_bounded(&self)
        ensures
            self.count() <= usize::MAX,
    {
    }

    proof fn lemma_slot(&self, i: int)
        requires
            self.wf(),
            0 <= i < self.slots.len(),
        ensures
            self@.contains_key(self.slots[i].key@),
            self@[self.slots[i].key@] == self.slots[i].record@,
            self.slot_of(self.slots[i].key@) == i,
    {
        let k = self.slots[i].key@;
        assert(self.holds(i, k));
        let j = self.slot_of(k);
        assert(self.holds(j, k));
        if j < i {
            assert(self.slots[j].key@ != self.slots[i].key@);
        } else if i < j {
            assert(self.slots[i].key@ != self.slots[j].key@);
        }
    }

    pub fn new() -> (t: Table<R>)
        ensures
            t.wf(),
            t@ == Map::<KeyView, R::V>::empty(),
            t.count() == 0,
    {
        let t = Table { slots: Vec::new() };
        assert(t@ =~= Map::<KeyView, R::V>::empty());
        t
    }

    pub fn len(&self) -> (n: usize)
        ensures
            n == self.count(),
    {
        self.slots.len()
    }

    fn find(&self, key: &Key) -> (r: Option<usize>)
        ensures
            match r {
                Some(i) => self.holds(i as int, key@),
                None => !self@.contains_key(key@),
            },
    {
        let mut i: usize = 0;
        while i < self.slots.len()
            invariant
                i <= self.slots.len(),
                forall|j: int| 0 <= j < i ==> !self.holds(j, key@),
            decreases self.slots.len() - i,
        {
            if self.slots[i].key.same(key) {
                return Some(i);
            }
            i += 1;
        }
        None
    }

    /// True when a record lives at `key`.
    pub fn contains(&self, key: &Key) -> (r: bool)
        ensures
            r == self@.contains_key(key@),
    {
        self.find(key).is_some()
    }

    /// The record at `key`.
    pub fn read(&self, key: &Key) -> (r: Result<&R, VoidError>)
        requires
            self.wf(),
        ensures
            match r {
                Ok(record) => self@.contains_key(key@) && record@ == self@[key@],
                Err(e) => e == VoidError::NotFound && !self@.contains_key(key@),
            },
    {
        match self.find(key) {
            Some(i) => {
                proof {
                    self.lemma_slot(i as int);
                }
                Ok(&self.slots[i].record)
            },
            None => Err(VoidError::NotFound),
        }
    }

    /// Stores `record` at `key` where no record lives yet. An occupied key is
    /// refused and the table stays as it was.
    pub fn create_if_absent(&mut self, key: Key, record: R) -> (r: Result<(), VoidError>)
        requires
            old(self).wf(),
        ensures
            final(self).wf(),
            match r {
                Ok(()) => {
                    &&& !old(self)@.contains_key(key@)
                    &&& final(self)@ == old(self)@.insert(key@, record@)
                    &&& final(self).count() == old(self).count() + 1
                },
                Err(e) => {
                    &&& e == VoidError::AlreadyExists
                    &&& old(self)@.contains_key(key@)
                    &&& final(self)@ == old(self)@
                    &&& final(self).count() == old(self).count()
                },
            },
    {
        match self.find(&key) {
            Some(_) => Err(VoidError::AlreadyExists),
            None => {
                let ghost before = *self;
                let ghost k = key@;
                let ghost v = record@;
                self.slots.push(Slot { key, record });
                proof {
                    let n = before.slots.len() as int;
                    assert forall|i: int, j: int| 0 <= i < j < self.slots.len() implies self.slots[i].key@
                        != self.slots[j].key@ by {
                        if j == n {
                            assert(!before.holds(i, k));
                        }
                    }
                    assert forall|q: KeyView| #[trigger]
                        self@.contains_key(q) == before@.insert(k, v).contains_key(q) by {
                        if self@.contains_key(q) {
                            let i = choose|i: int| self.holds(i, q);
                            if i < n {
                                assert(before.holds(i, q));
                            }
                        }
                        if before@.contains_key(q) {
                            let i = choose|i: int| before.holds(i, q);
                            assert(self.holds(i, q));
                        }
                        if q == k {
                            assert(self.holds(n, q));
                        }
                    }
                    assert forall|q: KeyView| self@.contains_key(q) implies #[trigger] self@[q]
                        == before@.insert(k, v)[q] by {
                        let i = choose|i: int| self.holds(i, q);
                        self.lemma_slot(i);
                        if i < n {
                            assert(before.holds(i, q));
                            before.lemma_slot(i);
                        }
                    }
                    assert(self@ =~= before@.insert(k, v));
                }
                Ok(())
            },
        }
    }

    /// Hands out the record at `key` for change. What the caller leaves in it
    /// is what the table holds afterwards; every other record stays as it was.
    pub fn mutate(&mut self, key: &Key) -> (r: Result<&mut R, VoidError>)
        requires
            old(self).wf(),
        ensures
            final(self).wf(),
            final(self).count() == old(self).count(),
            match r {
                Ok(record) => {
                    &&& old(self)@.contains_key(key@)
                    &&& record@ == old(self)@[key@]
                    &&& final(self)@ == old(self)@.insert(key@, final(record)@)
                },
                Err(e) => {
                    &&& e == VoidError::NotFound
                    &&& !old(self)@.contains_key(key@)
                    &&& final(self)@ == old(self)@
                },
            },
    {
        match self.find(key) {
            Some(i) => {
                proof {
                    self.lemma_slot(i as int);
                }
                let ghost before = *self;
                let record = &mut self.slots[i].record;
                proof {
                    let after = after_borrow(*self);
                    let k = key@;
                    let v = final(record)@;
                    assert(after.slots.len() == before.slots.len());
                    assert forall|j: int| 0 <= j < after.slots.len() implies #[trigger] after.slots[j].key@
                        == before.slots[j].key@ by {}
                    assert forall|q: KeyView| #[trigger]
                        after@.contains_key(q) == before@.insert(k, v).contains_key(q) by {
                        if after@.contains_key(q) {
                            let j = choose|j: int| after.holds(j, q);
                            assert(before.holds(j, q));
                        }
                        if before@.contains_key(q) {
                            let j = choose|j: int| before.holds(j, q);
                            assert(after.holds(j, q));
                        }
                    }
                    assert forall|q: KeyView| after@.contains_key(q) implies #[trigger] after@[q]
                        == before@.insert(k, v)[q] by {
                        let j = choose|j: int| after.holds(j, q);
                        after.lemma_slot(j);
                        before.lemma_slot(j);
                    }
                    assert(after@ =~= before@.insert(k, v));
                }
                Ok(record)
            },
            None => Err(VoidError::NotFound),
        }
    }
}

} // verus!
