//! A small table from keys to values, whose entries keep their places until one is removed.

use vstd::prelude::*;

verus! {

/// A value for each of some keys.
pub struct Table<V> {
    entries: Vec<(usize, V)>,
}

impl<V> Table<V> {
    /// The entry of `key` is the one at `at`.
    pub closed spec fn lies_at(&self, key: usize, at: int) -> bool {
        0 <= at < self.entries@.len() && self.entries@[at].0 == key
    }

    /// The value of each key.
    pub closed spec fn view(&self) -> Map<usize, V> {
        Map::new(
            |key: usize| exists|at: int| self.lies_at(key, at),
            |key: usize| self.entries@[choose|at: int| self.lies_at(key, at)].1,
        )
    }

    /// No key has two entries.
    pub closed spec fn wf(&self) -> bool {
        forall|key: usize, a: int, b: int|
            #[trigger] self.lies_at(key, a) && #[trigger] self.lies_at(key, b) ==> a == b
    }

    /// An entry is of one key.
    pub proof fn lemma_lies_at(&self, key: usize, at: int)
        requires
            self.wf(),
            self.lies_at(key, at),
        ensures
            self@.dom().contains(key),
            at >= 0,
            forall|other: usize, b: int| #[trigger]
                self.lies_at(other, b) ==> (b == at <==> other == key),
    {
    }

    /// A key has an entry.
    proof fn lemma_place(&self, key: usize) -> (at: int)
        requires
            self@.dom().contains(key),
        ensures
            self.lies_at(key, at),
    {
        choose|at: int| self.lies_at(key, at)
    }

    proof fn lemma_value(&self, key: usize, at: int)
        requires
            self.wf(),
            self.lies_at(key, at),
        ensures
            self@.dom().contains(key),
            self@[key] == self.entries@[at].1,
    {
    }

    /// A table without entries.
    pub fn new() -> (r: Self)
        ensures
            r.wf(),
            r@ == Map::<usize, V>::empty(),
    {
        let r = Table { entries: Vec::new() };
        assert(r@ =~= Map::<usize, V>::empty());
        r
    }

    /// There are no more keys than entries.
    pub proof fn lemma_len(&self)
        requires
            self.wf(),
        ensures
            self@.dom().finite(),
            self@.dom().len() <= usize::MAX,
    {
        let keys = Seq::new(self.entries@.len(), |i: int| self.entries@[i].0);
        assert(keys.no_duplicates()) by {
            assert forall|i: int, j: int|
                0 <= i < keys.len() && 0 <= j < keys.len() && i != j implies keys[i] != keys[j] by {
                assert(self.lies_at(keys[i], i));
                assert(self.lies_at(keys[j], j));
            }
        }
        keys.unique_seq_to_set();
        assert(keys.to_set() =~= self@.dom()) by {
            assert forall|key: usize| keys.to_set().contains(key) <==> self@.dom().contains(
                key,
            ) by {
                if keys.to_set().contains(key) {
                    let i = choose|i: int| 0 <= i < keys.len() && keys[i] == key;
                    assert(self.lies_at(key, i));
                }
                if self@.dom().contains(key) {
                    let i = choose|i: int| self.lies_at(key, i);
                    assert(keys[i] == key);
                }
            }
        }
        vstd::seq_lib::seq_to_set_is_finite(keys);
        assert(self.entries@.len() == self.entries.len());
    }

    /// Where the entry of a key lies.
    pub fn find(&self, key: usize) -> (r: Option<usize>)
        ensures
            r is Some <==> self@.dom().contains(key),
            r matches Some(at) ==> self.lies_at(key, at as int),
    {
        let mut i: usize = 0;
        while i < self.entries.len()
            invariant
                i <= self.entries@.len(),
                forall|k: int| 0 <= k < i ==> !self.lies_at(key, k),
            decreases self.entries@.len() - i,
        {
            if self.entries[i].0 == key {
                assert(self.lies_at(key, i as int));
                return Some(i);
            }
            i = i + 1;
        }
        None
    }

    /// The value of a key whose entry lies at `at`.
    pub fn get(&self, key: usize, at: usize) -> (r: &V)
        requires
            self.wf(),
            self.lies_at(key, at as int),
        ensures
            *r == self@[key],
    {
        proof {
            self.lemma_value(key, at as int);
        }
        &self.entries[at].1
    }

    /// Puts another value in the place of that of a key whose entry lies at `at`.
    proof fn lemma_update(before: Self, after: Self, key: usize, at: int)
        requires
            before.wf(),
            before.lies_at(key, at),
            after.entries@ == before.entries@.update(at, (key, after.entries@[at].1)),
        ensures
            after.wf(),
            after@ == before@.insert(key, after.entries@[at].1),
            forall|other: usize, k: int| #[trigger]
                after.lies_at(other, k) == before.lies_at(other, k),
    {
        assert forall|other: usize, k: int| #[trigger] after.lies_at(other, k) == before.lies_at(
            other,
            k,
        ) by {}
        assert forall|other: usize| #[trigger] after@.dom().contains(other) == before@.insert(
            key,
            after.entries@[at].1,
        ).dom().contains(other) by {
            if before@.dom().contains(other) {
                let k = before.lemma_place(other);
                assert(after.lies_at(other, k));
            }
            if after@.dom().contains(other) {
                let k = after.lemma_place(other);
                assert(before.lies_at(other, k));
            }
            assert(after.lies_at(key, at));
        }
        assert forall|other: usize| #[trigger] after@.dom().contains(other) implies after@[other]
            == before@.insert(key, after.entries@[at].1)[other] by {
            let k = after.lemma_place(other);
            after.lemma_value(other, k);
            before.lemma_value(other, k);
            if other == key {
                assert(k == at);
            }
        }
        assert(after@ =~= before@.insert(key, after.entries@[at].1));
    }

    /// The value of a key whose entry lies at `at`, to be changed.
    pub fn get_mut(&mut self, key: usize, at: usize) -> (r: &mut V)
        requires
            old(self).wf(),
            old(self).lies_at(key, at as int),
        ensures
            *r == old(self)@[key],
            final(self).wf(),
            final(self)@ == old(self)@.insert(key, *final(r)),
            forall|other: usize, k: int| #[trigger]
                final(self).lies_at(other, k) == old(self).lies_at(other, k),
    {
        proof {
            self.lemma_value(key, at as int);
            let before = *self;
            assert forall|after: Self|
                #![trigger after.entries]
                after.entries@ == before.entries@.update(
                    at as int,
                    (key, after.entries@[at as int].1),
                ) implies after.wf() && after@ == before@.insert(
                key,
                after.entries@[at as int].1,
            ) && (forall|other: usize, k: int| #[trigger]
                after.lies_at(other, k) == before.lies_at(other, k)) by {
                Self::lemma_update(before, after, key, at as int);
            }
        }
        &mut self.entries[at].1
    }

    /// Adds an entry for a key that has none: where it lies.
    pub fn push(&mut self, key: usize, value: V) -> (r: usize)
        requires
            old(self).wf(),
            !old(self)@.dom().contains(key),
        ensures
            final(self).wf(),
            final(self)@ == old(self)@.insert(key, value),
            final(self).lies_at(key, r as int),
            forall|other: usize, k: int| #[trigger]
                old(self).lies_at(other, k) ==> final(self).lies_at(other, k),
    {
        let ghost before = *self;
        let n: usize = self.entries.len();
        self.entries.push((key, value));
        proof {
            assert forall|other: usize, k: int| #[trigger] self.lies_at(other, k) == (before.lies_at(
                other,
                k,
            ) || (other == key && k == n)) by {}
            assert forall|k: int| !#[trigger] before.lies_at(key, k) by {
                if before.lies_at(key, k) {
                    assert(before@.dom().contains(key));
                }
            }
            assert(self.lies_at(key, n as int));
            assert forall|other: usize| #[trigger] self@.dom().contains(other) == before@.insert(
                key,
                value,
            ).dom().contains(other) by {
                if before@.dom().contains(other) {
                    let k = before.lemma_place(other);
                    assert(self.lies_at(other, k));
                }
                if self@.dom().contains(other) && other != key {
                    let k = self.lemma_place(other);
                    assert(before.lies_at(other, k));
                }
            }
            assert(self.wf());
            assert forall|other: usize| #[trigger] self@.dom().contains(other) implies self@[other]
                == before@.insert(key, value)[other] by {
                let k = self.lemma_place(other);
                self.lemma_value(other, k);
                if other != key {
                    before.lemma_value(other, k);
                }
            }
            assert(self@ =~= before@.insert(key, value));
        }
        n
    }

    /// Takes out the entry of a key, which lies at `at`. Another entry takes its place.
    pub fn remove(&mut self, key: usize, at: usize) -> (r: V)
        requires
            old(self).wf(),
            old(self).lies_at(key, at as int),
        ensures
            final(self).wf(),
            r == old(self)@[key],
            final(self)@ == old(self)@.remove(key),
    {
        let ghost before = *self;
        let ghost last = self.entries@.len() - 1;
        let (_key, value) = self.entries.swap_remove(at);
        proof {
            before.lemma_value(key, at as int);
            assert forall|other: usize, k: int| #[trigger] self.lies_at(other, k) implies other
                != key && before.lies_at(other, if k == at { last } else { k })
                && self.entries@[k] == before.entries@[if k == at { last } else { k }] by {
                let was = if k == at { last } else { k };
                assert(before.lies_at(other, was));
                if other == key {
                    assert(was == at);
                }
            }
            assert forall|other: usize, k: int| #[trigger] before.lies_at(other, k) && other
                != key implies self.lies_at(other, if k == last { at as int } else { k }) by {}
            assert forall|other: usize| #[trigger] self@.dom().contains(other) == before@.remove(
                key,
            ).dom().contains(other) by {
                if before@.dom().contains(other) && other != key {
                    let k = before.lemma_place(other);
                    assert(self.lies_at(other, if k == last { at as int } else { k }));
                }
                if self@.dom().contains(other) {
                    let k = self.lemma_place(other);
                    assert(before.lies_at(other, if k == at { last } else { k }));
                }
            }
            assert forall|other: usize, a: int, b: int| #[trigger]
                self.lies_at(other, a) && #[trigger] self.lies_at(other, b) implies a == b by {
                assert(before.lies_at(other, if a == at { last } else { a }));
                assert(before.lies_at(other, if b == at { last } else { b }));
            }
            assert forall|other: usize| #[trigger] self@.dom().contains(other) implies self@[other]
                == before@.remove(key)[other] by {
                let k = self.lemma_place(other);
                self.lemma_value(other, k);
                before.lemma_value(other, if k == at { last } else { k });
            }
            assert(self@ =~= before@.remove(key));
        }
        value
    }
}

} // verus!
