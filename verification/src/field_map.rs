//! A small keyed collection: names mapped to values, each name held once,
//! kept in the order in which the names first arrived.

use vstd::prelude::*;
use crate::text::str_eq;

verus! {

/// Values keyed by name. A name occurs at most once; the entry order is the
/// order of first insertion. `==` compares the entries in that order.
#[derive(Debug, Clone, PartialEq)]
pub struct FieldMap<V> {
    entries: Vec<(String, V)>,
}

impl<V> View for FieldMap<V> {
    type V = Map<Seq<char>, V>;

    /// The mapping from each held name to its value.
    open spec fn view(&self) -> Map<Seq<char>, V> {
        Map::new(
            |k: Seq<char>| self.keys().contains(k),
            |k: Seq<char>| self.values()[self.keys().index_of(k)],
        )
    }
}

impl<V> FieldMap<V> {
    /// The held names, in entry order.
    pub closed spec fn keys(&self) -> Seq<Seq<char>> {
        Seq::new(self.entries@.len(), |i: int| self.entries@[i].0@)
    }

    /// The held values, in entry order.
    pub closed spec fn values(&self) -> Seq<V> {
        Seq::new(self.entries@.len(), |i: int| self.entries@[i].1)
    }

    /// Names and values line up, and no name occurs twice.
    pub open spec fn wf(&self) -> bool {
        &&& self.keys().len() == self.values().len()
        &&& self.keys().no_duplicates()
    }

    /// On a well-formed map the view holds exactly the entries.
    pub proof fn lemma_view(&self)
        requires
            self.wf(),
        ensures
            self@.dom().finite(),
            forall|i: int|
                0 <= i < self.keys().len() ==> #[trigger] self@.contains_key(self.keys()[i])
                    && self@[self.keys()[i]] == self.values()[i],
            forall|k: Seq<char>| #[trigger]
                self@.contains_key(k) ==> self.keys().contains(k) && self@[k]
                    == self.values()[self.keys().index_of(k)],
    {
        assert forall|i: int| 0 <= i < self.keys().len() implies #[trigger] self@.contains_key(
            self.keys()[i],
        ) && self@[self.keys()[i]] == self.values()[i] by {
            let k = self.keys()[i];
            assert(self.keys().contains(k));
            let j = self.keys().index_of(k);
            assert(self.keys()[j] == k);
        }
        assert(self@.dom() =~= self.keys().to_set());
        vstd::seq_lib::seq_to_set_is_finite(self.keys());
    }

    /// An empty map.
    pub fn new() -> (m: Self)
        ensures
            m@ == Map::<Seq<char>, V>::empty(),
            m.keys() == Seq::<Seq<char>>::empty(),
            m.values() == Seq::<V>::empty(),
            m.wf(),
    {
        let m = FieldMap { entries: Vec::new() };
        assert(m.keys() =~= Seq::<Seq<char>>::empty());
        assert(m.values() =~= Seq::<V>::empty());
        assert(m@ =~= Map::<Seq<char>, V>::empty());
        m
    }

    /// The number of entries.
    pub fn len(&self) -> (n: usize)
        requires
            self.wf(),
        ensures
            n == self.keys().len(),
            n == self@.dom().len(),
    {
        proof {
            self.lemma_view();
            assert(self@.dom() =~= self.keys().to_set());
            self.keys().unique_seq_to_set();
        }
        self.entries.len()
    }

    /// Whether the map holds no entry.
    pub fn is_empty(&self) -> (b: bool)
        requires
            self.wf(),
        ensures
            b == (self.keys().len() == 0),
            b == (self@ == Map::<Seq<char>, V>::empty()),
    {
        proof {
            self.lemma_view();
            if self.keys().len() == 0 {
                assert(self@ =~= Map::<Seq<char>, V>::empty());
            } else {
                assert(self@.contains_key(self.keys()[0]));
            }
        }
        self.entries.len() == 0
    }

    /// The position of `key` among the entries, if it is held.
    pub fn position(&self, key: &str) -> (r: Option<usize>)
        requires
            self.wf(),
        ensures
            match r {
                Some(i) => i < self.keys().len() && self.keys()[i as int] == key@,
                None => !self.keys().contains(key@),
            },
            r.is_some() == self@.contains_key(key@),
    {
        let mut i: usize = 0;
        while i < self.entries.len()
            invariant
                i <= self.entries@.len(),
                self.keys().len() == self.entries@.len(),
                forall|j: int| 0 <= j < i ==> self.keys()[j] != key@,
            decreases self.entries@.len() - i,
        {
            if str_eq(self.entries[i].0.as_str(), key) {
                assert(self.keys()[i as int] == key@);
                return Some(i);
            }
            i = i + 1;
        }
        None
    }

    /// Whether `key` is held.
    pub fn contains_key(&self, key: &str) -> (b: bool)
        requires
            self.wf(),
        ensures
            b == self@.contains_key(key@),
    {
        self.position(key).is_some()
    }

    /// The value held under `key`, if any.
    pub fn get(&self, key: &str) -> (r: Option<&V>)
        requires
            self.wf(),
        ensures
            match r {
                Some(v) => self@.contains_key(key@) && *v == self@[key@],
                None => !self@.contains_key(key@),
            },
    {
        match self.position(key) {
            Some(i) => {
                proof {
                    self.lemma_view();
                }
                Some(&self.entries[i].1)
            },
            None => None,
        }
    }

    /// The name of the entry at position `i`.
    pub fn key_at(&self, i: usize) -> (k: &String)
        requires
            self.wf(),
            i < self.keys().len(),
        ensures
            k@ == self.keys()[i as int],
            self@.contains_key(k@),
    {
        proof {
            self.lemma_view();
        }
        &self.entries[i].0
    }

    /// The value of the entry at position `i`.
    pub fn value_at(&self, i: usize) -> (v: &V)
        requires
            self.wf(),
            i < self.keys().len(),
        ensures
            *v == self.values()[i as int],
            *v == self@[self.keys()[i as int]],
    {
        proof {
            self.lemma_view();
        }
        &self.entries[i].1
    }

    /// Stores `value` under `key`, replacing what the name held before.
    pub fn insert(&mut self, key: String, value: V)
        requires
            old(self).wf(),
        ensures
            final(self)@ == old(self)@.insert(key@, value),
            final(self).wf(),
            old(self)@.contains_key(key@) ==> {
                &&& final(self).keys() == old(self).keys()
                &&& final(self).values() == old(self).values().update(
                    old(self).keys().index_of(key@),
                    value,
                )
            },
            !old(self)@.contains_key(key@) ==> final(self).keys() == old(self).keys().push(key@)
                && final(self).values() == old(self).values().push(value),
    {
        proof {
            self.lemma_view();
        }
        let ghost before = *self;
        match self.position(key.as_str()) {
            Some(i) => {
                self.entries.set(i, (key, value));
                proof {
                    assert(self.keys() =~= before.keys());
                    assert(self.values() =~= before.values().update(i as int, value));
                    assert(before.keys().contains(key@));
                    assert(before.keys().index_of(key@) == i);
                    assert(self.wf());
                    self.lemma_view();
                    before.lemma_view();
                    assert forall|k: Seq<char>| #[trigger]
                        before@.insert(key@, value).contains_key(k) implies self@.contains_key(k)
                        && self@[k] == before@.insert(key@, value)[k] by {
                        let j = self.keys().index_of(k);
                        assert(self.keys().contains(k));
                        assert(self.keys()[j] == k);
                    }
                    assert(self@ =~= before@.insert(key@, value));
                }
            },
            None => {
                self.entries.push((key, value));
                proof {
                    assert(self.keys() =~= before.keys().push(key@));
                    assert(self.values() =~= before.values().push(value));
                    assert(self.keys().no_duplicates());
                    self.lemma_view();
                    before.lemma_view();
                    let n = before.keys().len() as int;
                    assert(self.keys()[n] == key@);
                    assert forall|k: Seq<char>| #[trigger]
                        before@.insert(key@, value).contains_key(k) implies self@.contains_key(k)
                        && self@[k] == before@.insert(key@, value)[k] by {
                        if k == key@ {
                            assert(self@.contains_key(self.keys()[n]));
                        } else {
                            let j = before.keys().index_of(k);
                            assert(before.keys().contains(k));
                            assert(self.keys()[j] == k);
                            assert(self@.contains_key(self.keys()[j]));
                        }
                    }
                    assert forall|k: Seq<char>| #[trigger]
                        self@.contains_key(k) implies before@.insert(key@, value).contains_key(
                        k,
                    ) by {
                        let j = self.keys().index_of(k);
                        assert(self.keys().contains(k));
                        if j < n {
                            assert(before.keys()[j] == k);
                            assert(before@.contains_key(before.keys()[j]));
                        }
                    }
                    assert(self@ =~= before@.insert(key@, value));
                }
            },
        }
    }
}

} // verus!
