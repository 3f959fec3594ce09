//! A small map from names to values that keeps the order of first insertion.

use crate::text::str_eq;
use vstd::prelude::*;

verus! {

/// A map keyed by strings. No key occurs twice, and a key keeps the place it
/// got when it was first inserted.
pub struct Table<V> {
    slots: Vec<(String, V)>,
}

/// `k` is the key of no slot before `n`.
pub open spec fn absent_before<V>(s: Seq<(String, V)>, k: Seq<char>, n: int) -> bool {
    forall|i: int| 0 <= i < n && i < s.len() ==> (#[trigger] s[i]).0@ != k
}

impl<V> Table<V> {
    /// No key occurs twice.
    pub closed spec fn wf(&self) -> bool {
        forall|i: int, j: int|
            0 <= i < j < self.slots@.len() ==> (#[trigger] self.slots@[i]).0@ != (
            #[trigger] self.slots@[j]).0@
    }

    /// The keys, in the order of their first insertion.
    pub closed spec fn keys(&self) -> Seq<Seq<char>> {
        Seq::new(self.slots@.len(), |i: int| self.slots@[i].0@)
    }

    /// The values, each at the place of its key.
    pub closed spec fn values(&self) -> Seq<V> {
        Seq::new(self.slots@.len(), |i: int| self.slots@[i].1)
    }

    /// The table as a mathematical map.
    pub open spec fn view(&self) -> Map<Seq<char>, V> {
        Map::new(
            |k: Seq<char>| self.keys().contains(k),
            |k: Seq<char>| self.values()[self.keys().index_of(k)],
        )
    }

    /// In a well-formed table the keys differ pairwise and each value stands
    /// beside its key.
    pub proof fn lemma_shape(&self)
        requires
            self.wf(),
        ensures
            self.keys().no_duplicates(),
            self.keys().len() == self.values().len(),
            forall|i: int|
                0 <= i < self.keys().len() ==> self@.contains_key(#[trigger] self.keys()[i])
                    && self@[self.keys()[i]] == self.values()[i],
            forall|k: Seq<char>| self@.contains_key(k) <==> self.keys().contains(k),
    {
        let keys = self.keys();
        assert forall|i: int, j: int| 0 <= i < keys.len() && 0 <= j < keys.len() && i != j implies keys[i]
            != keys[j] by {
            if i < j {
                assert(self.slots@[i].0@ != self.slots@[j].0@);
            } else {
                assert(self.slots@[j].0@ != self.slots@[i].0@);
            }
        }
        assert forall|i: int| 0 <= i < keys.len() implies self@.contains_key(#[trigger] keys[i])
            && self@[keys[i]] == self.values()[i] by {
            assert(keys.contains(keys[i]));
            let j = keys.index_of(keys[i]);
            assert(0 <= j < keys.len() && keys[j] == keys[i]);
            assert(j == i);
        }
    }

    /// The empty table.
    pub fn new() -> (r: Self)
        ensures
            r.wf(),
            r@ == Map::<Seq<char>, V>::empty(),
            r.keys() == Seq::<Seq<char>>::empty(),
    {
        let r = Table { slots: Vec::new() };
        proof {
            assert(r.keys() =~= Seq::<Seq<char>>::empty());
            assert(r@ =~= Map::<Seq<char>, V>::empty());
        }
        r
    }

    /// The number of keys.
    pub fn len(&self) -> (n: usize)
        ensures
            n == self.keys().len(),
            n == self.values().len(),
    {
        self.slots.len()
    }

    fn position(&self, key: &str) -> (r: Option<usize>)
        ensures
            match r {
                Some(i) => i < self.keys().len() && self.keys()[i as int] == key@,
                None => !self.keys().contains(key@),
            },
    {
        let mut i: usize = 0;
        while i < self.slots.len()
            invariant
                i <= self.slots@.len(),
                forall|k: int| 0 <= k < i ==> self.keys()[k] != key@,
            decreases self.slots@.len() - i,
        {
            if str_eq(self.slots[i].0.as_str(), key) {
                return Some(i);
            }
            i = i + 1;
        }
        None
    }

    /// Tells whether `key` is in the table.
    pub fn contains_key(&self, key: &str) -> (r: bool)
        ensures
            r == self@.contains_key(key@),
    {
        self.position(key).is_some()
    }

    /// The value under `key`, if there is one.
    pub fn get(&self, key: &str) -> (r: Option<&V>)
        requires
            self.wf(),
        ensures
            match r {
                Some(v) => self@.contains_key(key@) && *v == self@[key@],
                None => !self@.contains_key(key@),
            },
    {
        match self.position(key) {
            Some(i) => {
                proof {
                    self.lemma_shape();
                }
                Some(&self.slots[i].1)
            },
            None => None,
        }
    }

    /// The key at place `i`.
    pub fn key_at(&self, i: usize) -> (r: &String)
        requires
            i < self.keys().len(),
        ensures
            r@ == self.keys()[i as int],
    {
        &self.slots[i].0
    }

    /// The value at place `i`.
    pub fn value_at(&self, i: usize) -> (r: &V)
        requires
            self.wf(),
            i < self.keys().len(),
        ensures
            *r == self.values()[i as int],
            self@.contains_key(self.keys()[i as int]),
            *r == self@[self.keys()[i as int]],
    {
        proof {
            self.lemma_shape();
        }
        &self.slots[i].1
    }

    /// Puts `value` under `key`. A key that is already there keeps its place
    /// and gets the new value; a new key goes to the end.
    pub fn insert(&mut self, key: String, value: V)
        requires
            old(self).wf(),
        ensures
            final(self).wf(),
            final(self)@ == old(self)@.insert(key@, value),
            old(self)@.contains_key(key@) ==> final(self).keys() == old(self).keys(),
            !old(self)@.contains_key(key@) ==> final(self).keys() == old(self).keys().push(key@),
    {
        proof {
            self.lemma_shape();
        }
        let ghost before = *self;
        match self.position(key.as_str()) {
            Some(i) => {
                self.slots.set(i, (key, value));
                proof {
                    assert(self.keys() =~= before.keys());
                    assert(self.wf());
                    self.lemma_shape();
                    assert(self.values() =~= before.values().update(i as int, value));
                    assert forall|k: Seq<char>| #[trigger]
                        before@.insert(key@, value).contains_key(k) implies self@[k]
                        == before@.insert(key@, value)[k] by {
                        let j = self.keys().index_of(k);
                        assert(self.keys().contains(k));
                        assert(self.keys()[j] == k);
                        if k != key@ {
                            assert(j != i);
                        } else {
                            assert(j == i);
                        }
                    }
                    assert(self@ =~= before@.insert(key@, value));
                }
            },
            None => {
                self.slots.push((key, value));
                proof {
                    assert(self.keys() =~= before.keys().push(key@));
                    assert(self.values() =~= before.values().push(value));
                    assert(self.wf()) by {
                        assert forall|i: int, j: int| 0 <= i < j < self.slots@.len() implies (
                        #[trigger] self.slots@[i]).0@ != (#[trigger] self.slots@[j]).0@ by {
                            if j < before.slots@.len() {
                                assert(before.slots@[i].0@ != before.slots@[j].0@);
                            } else {
                                assert(before.keys()[i] == self.slots@[i].0@);
                                assert(before.keys().contains(before.keys()[i]));
                            }
                        }
                    }
                    self.lemma_shape();
                    let n = before.keys().len() as int;
                    assert(self.keys()[n] == key@);
                    assert forall|k: Seq<char>| #[trigger]
                        before@.insert(key@, value).contains_key(k) implies self@.contains_key(k)
                        && self@[k] == before@.insert(key@, value)[k] by {
                        if k != key@ {
                            let j = before.keys().index_of(k);
                            assert(before.keys().contains(k));
                            assert(before.keys()[j] == k);
                            assert(self.keys()[j] == k);
                        } else {
                            assert(self.keys()[n] == k);
                        }
                    }
                    assert forall|k: Seq<char>| #[trigger] self@.contains_key(k) implies before@.insert(
                        key@,
                        value,
                    ).contains_key(k) by {
                        let j = self.keys().index_of(k);
                        assert(self.keys().contains(k));
                        assert(self.keys()[j] == k);
                        if j < n {
                            assert(before.keys()[j] == k);
                        }
                    }
                    assert(self@ =~= before@.insert(key@, value));
                }
            },
        }
    }

    /// Takes `key` out and hands back its value, if it was there. The other
    /// keys keep their order.
    pub fn remove(&mut self, key: &str) -> (r: Option<V>)
        requires
            old(self).wf(),
        ensures
            final(self).wf(),
            final(self)@ == old(self)@.remove(key@),
            match r {
                Some(v) => old(self)@.contains_key(key@) && v == old(self)@[key@],
                None => !old(self)@.contains_key(key@),
            },
            final(self).keys() == if old(self)@.contains_key(key@) {
                old(self).keys().remove(old(self).keys().index_of(key@))
            } else {
                old(self).keys()
            },
    {
        proof {
            self.lemma_shape();
        }
        let ghost before = *self;
        match self.position(key) {
            Some(i) => {
                let slot = self.slots.remove(i);
                proof {
                    assert(self.keys() =~= before.keys().remove(i as int));
                    assert(self.values() =~= before.values().remove(i as int));
                    assert(self.wf()) by {
                        assert forall|a: int, b: int| 0 <= a < b < self.slots@.len() implies (
                        #[trigger] self.slots@[a]).0@ != (#[trigger] self.slots@[b]).0@ by {
                            let a0 = if a < i { a } else { a + 1 };
                            let b0 = if b < i { b } else { b + 1 };
                            assert(before.slots@[a0].0@ != before.slots@[b0].0@);
                        }
                    }
                    self.lemma_shape();
                    assert forall|k: Seq<char>| #[trigger]
                        before@.remove(key@).contains_key(k) implies self@.contains_key(k) && self@[k]
                        == before@.remove(key@)[k] by {
                        let j = before.keys().index_of(k);
                        assert(before.keys().contains(k));
                        assert(before.keys()[j] == k);
                        assert(j != i);
                        let j1 = if j < i { j } else { j - 1 };
                        assert(self.keys()[j1] == k);
                    }
                    assert forall|k: Seq<char>| #[trigger] self@.contains_key(k) implies before@.remove(
                        key@,
                    ).contains_key(k) by {
                        let j = self.keys().index_of(k);
                        assert(self.keys().contains(k));
                        assert(self.keys()[j] == k);
                        let j0 = if j < i { j } else { j + 1 };
                        assert(before.keys()[j0] == k);
                    }
                    assert(self@ =~= before@.remove(key@));
                    assert(before.keys().contains(key@));
                    assert(before.keys().index_of(key@) == i);
                }
                Some(slot.1)
            },
            None => {
                proof {
                    assert(self@ =~= before@.remove(key@));
                }
                None
            },
        }
    }
}

} // verus!
