//! A keyed store of records, one per plate.

use crate::types::Plate;
use vstd::prelude::*;

verus! {

/// One stored record with the plate it is stored under.
pub struct Entry<V> {
    pub key: Plate,
    pub value: V,
}

/// A store that holds at most one record per plate.
///
/// Its view is the map from a plate's text to the record stored under it.
pub struct Table<V> {
    entries: Vec<Entry<V>>,
}

impl<V> View for Table<V> {
    type V = Map<Seq<char>, V>;

    closed spec fn view(&self) -> Map<Seq<char>, V> {
        Map::new(
            |k: Seq<char>| self.holds(k),
            |k: Seq<char>| self.entries@[self.slot_of(k)].value,
        )
    }
}

impl<V> Table<V> {
    /// No plate is stored twice. Every operation keeps this.
    pub closed spec fn wf(self) -> bool {
        forall|i: int, j: int|
            0 <= i < j < self.entries@.len() ==> self.entries@[i].key@ != self.entries@[j].key@
    }

    spec fn holds(self, k: Seq<char>) -> bool {
        exists|i: int| 0 <= i < self.entries@.len() && #[trigger] self.entries@[i].key@ == k
    }

    spec fn slot_of(self, k: Seq<char>) -> int {
        choose|i: int| 0 <= i < self.entries@.len() && #[trigger] self.entries@[i].key@ == k
    }

    /// An empty store.
    pub fn new() -> (t: Table<V>)
        ensures
            t.wf(),
            t@ == Map::<Seq<char>, V>::empty(),
    {
        let t = Table { entries: Vec::new() };
        assert(t@ =~= Map::<Seq<char>, V>::empty());
        t
    }

    fn position(&self, key: &Plate) -> (r: Option<usize>)
        ensures
            match r {
                Some(i) => i < self.entries@.len() && self.entries@[i as int].key@ == key@,
                None => !self.holds(key@),
            },
    {
        let mut i: usize = 0;
        while i < self.entries.len()
            invariant
                i <= self.entries@.len(),
                forall|j: int| 0 <= j < i ==> self.entries@[j].key@ != key@,
            decreases self.entries@.len() - i,
        {
            if self.entries[i].key.same(key) {
                return Some(i);
            }
            i = i + 1;
        }
        None
    }

    proof fn slot_is(self, i: int)
        requires
            self.wf(),
            0 <= i < self.entries@.len(),
        ensures
            self.holds(self.entries@[i].key@),
            self.slot_of(self.entries@[i].key@) == i,
            self@.contains_key(self.entries@[i].key@),
            self@[self.entries@[i].key@] == self.entries@[i].value,
    {
        let k = self.entries@[i].key@;
        let j = self.slot_of(k);
        assert(0 <= j < self.entries@.len() && self.entries@[j].key@ == k);
        if j < i {
            assert(self.entries@[j].key@ != self.entries@[i].key@);
        } else if i < j {
            assert(self.entries@[i].key@ != self.entries@[j].key@);
        }
    }

    /// Whether a record is stored under `key`.
    pub fn has(&self, key: &Plate) -> (r: bool)
        ensures
            r == self@.contains_key(key@),
    {
        self.position(key).is_some()
    }

    /// The record stored under `key`, if there is one.
    pub fn get(&self, key: &Plate) -> (r: Option<&V>)
        requires
            self.wf(),
        ensures
            match r {
                Some(v) => self@.contains_key(key@) && self@[key@] == *v,
                None => !self@.contains_key(key@),
            },
    {
        match self.position(key) {
            Some(i) => {
                proof {
                    self.slot_is(i as int);
                }
                Some(&self.entries[i].value)
            },
            None => None,
        }
    }

    /// Stores `value` under `key`, in place of any record already there.
    pub fn set(&mut self, key: Plate, value: V)
        requires
            old(self).wf(),
        ensures
            final(self).wf(),
            final(self)@ == old(self)@.insert(key@, value),
    {
        let ghost before = *self;
        match self.position(&key) {
            Some(i) => {
                self.entries.set(i, Entry { key, value });
                proof {
                    let after = *self;
                    assert(after.entries@.len() == before.entries@.len());
                    assert forall|j: int| 0 <= j < after.entries@.len() implies
                        after.entries@[j].key@ == before.entries@[j].key@ by {}
                    assert(after.wf());
                    assert forall|k: Seq<char>| after.holds(k) == before.holds(k) by {
                        if before.holds(k) {
                            let j = before.slot_of(k);
                            assert(after.entries@[j].key@ == k);
                        }
                        if after.holds(k) {
                            let j = after.slot_of(k);
                            assert(before.entries@[j].key@ == k);
                        }
                    }
                    assert forall|k: Seq<char>| after.holds(k) implies after@[k]
                        == before@.insert(key@, value)[k] by {
                        let j = after.slot_of(k);
                        after.slot_is(j);
                        before.slot_is(j);
                    }
                    before.slot_is(i as int);
                    assert(after@ =~= before@.insert(key@, value));
                }
            },
            None => {
                self.entries.push(Entry { key, value });
                proof {
                    let after = *self;
                    let n = before.entries@.len() as int;
                    assert(after.entries@[n].key@ == key@);
                    assert forall|j: int| 0 <= j < n implies after.entries@[j]
                        == before.entries@[j] by {}
                    assert(after.wf()) by {
                        assert forall|a: int, b: int| 0 <= a < b < after.entries@.len() implies
                            after.entries@[a].key@ != after.entries@[b].key@ by {
                            if b == n {
                                assert(before.entries@[a].key@ == after.entries@[a].key@);
                            }
                        }
                    }
                    assert forall|k: Seq<char>| after.holds(k) == (before.holds(k) || k == key@) by {
                        if before.holds(k) {
                            let j = before.slot_of(k);
                            assert(after.entries@[j].key@ == k);
                        }
                        if after.holds(k) {
                            let j = after.slot_of(k);
                            if j < n {
                                assert(before.entries@[j].key@ == k);
                            }
                        }
                    }
                    assert forall|k: Seq<char>| after.holds(k) implies after@[k]
                        == before@.insert(key@, value)[k] by {
                        let j = after.slot_of(k);
                        after.slot_is(j);
                        if j < n {
                            before.slot_is(j);
                        }
                    }
                    assert(after@ =~= before@.insert(key@, value));
                }
            },
        }
    }

    /// Removes the record stored under `key`, if there is one.
    pub fn remove(&mut self, key: &Plate)
        requires
            old(self).wf(),
        ensures
            final(self).wf(),
            final(self)@ == old(self)@.remove(key@),
    {
        let ghost before = *self;
        match self.position(key) {
            Some(i) => {
                self.entries.swap_remove(i);
                proof {
                    let after = *self;
                    let n = before.entries@.len() as int;
                    let last = n - 1;
                    assert(after.entries@.len() == last);
                    assert forall|j: int| 0 <= j < last implies after.entries@[j] == (if j
                        == i {
                        before.entries@[last]
                    } else {
                        before.entries@[j]
                    }) by {}
                    assert(after.wf()) by {
                        assert forall|a: int, b: int| 0 <= a < b < after.entries@.len() implies
                            after.entries@[a].key@ != after.entries@[b].key@ by {
                            let sa = if a == i { last } else { a };
                            let sb = if b == i { last } else { b };
                            assert(after.entries@[a] == before.entries@[sa]);
                            assert(after.entries@[b] == before.entries@[sb]);
                            if sa < sb {
                                assert(before.entries@[sa].key@ != before.entries@[sb].key@);
                            } else {
                                assert(before.entries@[sb].key@ != before.entries@[sa].key@);
                            }
                        }
                    }
                    assert forall|k: Seq<char>| after.holds(k) == (before.holds(k) && k != key@) by {
                        if before.holds(k) && k != key@ {
                            let j = before.slot_of(k);
                            if j == last {
                                assert(after.entries@[i as int].key@ == k);
                            } else {
                                assert(after.entries@[j].key@ == k);
                            }
                        }
                        if after.holds(k) {
                            let j = after.slot_of(k);
                            let s = if j == i { last } else { j };
                            assert(before.entries@[s].key@ == k);
                            if s < i {
                                assert(before.entries@[s].key@ != before.entries@[i as int].key@);
                            } else {
                                assert(before.entries@[i as int].key@ != before.entries@[s].key@);
                            }
                        }
                    }
                    assert forall|k: Seq<char>| after.holds(k) implies after@[k]
                        == before@.remove(key@)[k] by {
                        let j = after.slot_of(k);
                        let s = if j == i { last } else { j };
                        after.slot_is(j);
                        before.slot_is(s);
                    }
                    assert(after@ =~= before@.remove(key@));
                }
            },
            None => {
                assert(self@ =~= before@.remove(key@));
            },
        }
    }
}

} // verus!
