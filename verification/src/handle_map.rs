//! A map keyed by source handles that remembers the order of insertion.
//!
//! The source engine's body set and collider set, and the table that
//! correlates the two engines' handles, are all of this shape: found by
//! handle in constant time, walked in the order in which they were filled.

use crate::handle::lemma_key_injective;
use crate::handle::SourceHandle;
use std::collections::HashMap;
use vstd::prelude::*;

verus! {

broadcast use vstd::std_specs::hash::group_hash_axioms;

/// Values found by source handle, kept in insertion order.
pub struct HandleMap<V> {
    keys: Vec<SourceHandle>,
    values: Vec<V>,
    slots: HashMap<u128, usize>,
}

impl<V> HandleMap<V> {
    /// The handles, in the order in which they were first inserted.
    pub closed spec fn keys(self) -> Seq<SourceHandle> {
        self.keys@
    }

    /// The values, each at the position of its handle in `keys`.
    pub closed spec fn values(self) -> Seq<V> {
        self.values@
    }

    /// The representation is consistent: every handle has its value, and the
    /// hash index names the position of every handle and of nothing else.
    pub closed spec fn wf(self) -> bool {
        &&& self.keys@.len() == self.values@.len()
        &&& forall|i: int|
            0 <= i < self.keys@.len() ==> self.slots@.contains_key(
                #[trigger] self.keys@[i].spec_key(),
            ) && self.slots@[self.keys@[i].spec_key()] == i
        &&& forall|k: u128|
            self.slots@.contains_key(k) ==> 0 <= #[trigger] self.slots@[k] < self.keys@.len()
                && self.keys@[self.slots@[k] as int].spec_key() == k
    }

    /// The map from each handle to its value.
    pub open spec fn view(self) -> Map<SourceHandle, V> {
        Map::new(
            |h: SourceHandle| self.keys().contains(h),
            |h: SourceHandle| self.values()[self.keys().index_of(h)],
        )
    }

    /// In a consistent map no handle occurs twice, and handles and values
    /// pair up.
    pub proof fn lemma_wf(self)
        requires
            self.wf(),
        ensures
            self.keys().len() == self.values().len(),
            self.keys().no_duplicates(),
            forall|i: int|
                0 <= i < self.keys().len() ==> self@.contains_key(#[trigger] self.keys()[i])
                    && self@[self.keys()[i]] == self.values()[i],
            self@.dom().finite(),
            self@.dom() == self.keys().to_set(),
    {
        assert forall|i: int, j: int|
            0 <= i < self.keys@.len() && 0 <= j < self.keys@.len() && i != j implies self.keys@[i]
            != self.keys@[j] by {
            if self.keys@[i] == self.keys@[j] {
                assert(self.slots@[self.keys@[i].spec_key()] == i);
                assert(self.slots@[self.keys@[j].spec_key()] == j);
            }
        }
        assert forall|i: int| 0 <= i < self.keys().len() implies self@.contains_key(
            #[trigger] self.keys()[i],
        ) && self@[self.keys()[i]] == self.values()[i] by {
            let h = self.keys()[i];
            assert(self.keys().contains(h));
            let j = self.keys().index_of(h);
            assert(self.keys()[j] == h);
        }
        assert(self@.dom() =~= self.keys().to_set());
        vstd::seq_lib::seq_to_set_is_finite(self.keys());
    }

    /// An empty map.
    pub fn new() -> (m: HandleMap<V>)
        ensures
            m.wf(),
            m.keys() == Seq::<SourceHandle>::empty(),
            m.values() == Seq::<V>::empty(),
            m@ == Map::<SourceHandle, V>::empty(),
    {
        let m = HandleMap { keys: Vec::new(), values: Vec::new(), slots: HashMap::new() };
        assert(m@ =~= Map::<SourceHandle, V>::empty());
        m
    }

    /// The number of handles in the map.
    pub fn len(&self) -> (n: usize)
        requires
            self.wf(),
        ensures
            n == self.keys().len(),
            n == self.values().len(),
    {
        self.keys.len()
    }

    /// The position of a handle in insertion order, if the map holds it.
    pub fn position(&self, handle: SourceHandle) -> (p: Option<usize>)
        requires
            self.wf(),
        ensures
            match p {
                Some(i) => i < self.keys().len() && self.keys()[i as int] == handle
                    && self.keys().index_of(handle) == i,
                None => !self.keys().contains(handle),
            },
    {
        let k = handle.key();
        match self.slots.get(&k) {
            Some(slot) => {
                let i: usize = *slot;
                proof {
                    lemma_key_injective(self.keys@[i as int], handle);
                    self.lemma_wf();
                    let j = self.keys().index_of(handle);
                    assert(self.keys()[j] == handle);
                }
                Some(i)
            },
            None => {
                proof {
                    if self.keys().contains(handle) {
                        let j = self.keys().index_of(handle);
                        assert(self.keys()[j] == handle);
                        assert(self.slots@.contains_key(self.keys@[j].spec_key()));
                    }
                }
                None
            },
        }
    }

    /// Whether the map holds the handle.
    pub fn contains(&self, handle: SourceHandle) -> (b: bool)
        requires
            self.wf(),
        ensures
            b == self@.contains_key(handle),
    {
        self.position(handle).is_some()
    }

    /// The value of a handle, if the map holds it.
    pub fn get(&self, handle: SourceHandle) -> (r: Option<&V>)
        requires
            self.wf(),
        ensures
            match r {
                Some(v) => self@.contains_key(handle) && *v == self@[handle],
                None => !self@.contains_key(handle),
            },
    {
        match self.position(handle) {
            Some(i) => Some(&self.values[i]),
            None => None,
        }
    }

    /// The value of a handle that the map holds.
    pub fn index(&self, handle: SourceHandle) -> (v: &V)
        requires
            self.wf(),
            self@.contains_key(handle),
        ensures
            *v == self@[handle],
    {
        match self.position(handle) {
            Some(i) => &self.values[i],
            None => vstd::pervasive::unreached(),
        }
    }

    /// The handle at a position of the insertion order.
    pub fn key_at(&self, i: usize) -> (h: SourceHandle)
        requires
            self.wf(),
            i < self.keys().len(),
        ensures
            h == self.keys()[i as int],
    {
        self.keys[i]
    }

    /// The value at a position of the insertion order.
    pub fn value_at(&self, i: usize) -> (v: &V)
        requires
            self.wf(),
            i < self.values().len(),
        ensures
            *v == self.values()[i as int],
    {
        &self.values[i]
    }

    /// Maps the handle to the value. A handle that the map already holds keeps
    /// its position and gets the new value; a new handle goes to the end.
    /// Returns whether the handle was new.
    pub fn insert(&mut self, handle: SourceHandle, value: V) -> (fresh: bool)
        requires
            old(self).wf(),
            old(self).keys().len() < usize::MAX,
        ensures
            final(self).wf(),
            fresh == !old(self)@.contains_key(handle),
            final(self)@ == old(self)@.insert(handle, value),
            fresh ==> final(self).keys() == old(self).keys().push(handle) && final(self).values()
                == old(self).values().push(value),
            !fresh ==> final(self).keys() == old(self).keys() && final(self).values() == old(
                self
            ).values().update(old(self).keys().index_of(handle), value),
    {
        proof {
            old(self).lemma_wf();
        }
        match self.position(handle) {
            Some(i) => {
                self.values.set(i, value);
                proof {
                    self.lemma_wf();
                    let before = old(self)@.insert(handle, value);
                    assert(self@ =~= before) by {
                        assert forall|h: SourceHandle| self@.contains_key(h) implies self@[h]
                            == before[h] by {
                            let j = self.keys().index_of(h);
                            assert(self.keys()[j] == h);
                        }
                    }
                }
                false
            },
            None => {
                let n: usize = self.keys.len();
                let k = handle.key();
                self.keys.push(handle);
                self.values.push(value);
                self.slots.insert(k, n);
                proof {
                    assert forall|i: int| 0 <= i < self.keys@.len() implies self.slots@.contains_key(
                        #[trigger] self.keys@[i].spec_key(),
                    ) && self.slots@[self.keys@[i].spec_key()] == i by {
                        if i < n {
                            assert(self.keys@[i] == old(self).keys@[i]);
                            lemma_key_injective(old(self).keys@[i], handle);
                            assert(old(self).keys().contains(old(self).keys@[i]));
                        }
                    }
                    assert(self.wf());
                    self.lemma_wf();
                    let before = old(self)@.insert(handle, value);
                    assert forall|h: SourceHandle| #[trigger]
                        before.dom().contains(h) implies self@.dom().contains(h) by {
                        if h == handle {
                            assert(self.keys()[n as int] == h);
                        } else {
                            let j = old(self).keys().index_of(h);
                            assert(old(self).keys()[j] == h);
                            assert(self.keys()[j] == h);
                        }
                    }
                    assert forall|h: SourceHandle| #[trigger]
                        self@.dom().contains(h) implies before.dom().contains(h) && self@[h]
                        == before[h] by {
                        let j = self.keys().index_of(h);
                        assert(self.keys()[j] == h);
                        assert(self@[self.keys()[j]] == self.values()[j]);
                        if j < n {
                            assert(old(self).keys()[j] == h);
                            assert(old(self)@[old(self).keys()[j]] == old(self).values()[j]);
                            lemma_key_injective(h, handle);
                        }
                    }
                    assert(self@.dom() =~= before.dom());
                    assert(self@ =~= before);
                }
                true
            },
        }
    }
}

} // verus!
