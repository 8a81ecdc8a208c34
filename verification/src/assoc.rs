//! Small keyed tables that keep their entries in insertion order.
//!
//! The daemon's caches are keyed by counter triples, template ids and
//! session keys. `AssocList` holds one value per key, in the order in which
//! keys were first inserted; its model is a finite map from key views to
//! values, together with the key order.
use vstd::prelude::*;

verus! {

/// Keys whose equality can be decided on their views.
pub trait KeyEq: View + Sized {
    /// Whether `self` and `other` are the same key.
    fn key_eq(&self, other: &Self) -> (r: bool)
        ensures
            r == (self@ == other@);

    /// A copy of the key.
    fn key_clone(&self) -> (r: Self)
        ensures
            r@ == self@;
}

impl KeyEq for u16 {
    fn key_eq(&self, other: &Self) -> (r: bool) {
        *self == *other
    }

    fn key_clone(&self) -> (r: Self) {
        *self
    }
}

impl KeyEq for String {
    fn key_eq(&self, other: &Self) -> (r: bool) {
        self.eq(other)
    }

    fn key_clone(&self) -> (r: Self) {
        self.clone()
    }
}

/// A table with at most one entry per key, in first-insertion order.
pub struct AssocList<K, V> {
    entries: Vec<(K, V)>,
}

impl<K: KeyEq, V> AssocList<K, V> {
    /// The entries: key views and values, in order.
    pub closed spec fn entries(&self) -> Seq<(K::V, V)> {
        self.entries@.map_values(|e: (K, V)| (e.0@, e.1))
    }

    /// The keys, in order.
    pub open spec fn keys(&self) -> Seq<K::V> {
        self.entries().map_values(|e: (K::V, V)| e.0)
    }

    /// No key occurs twice.
    pub open spec fn wf(&self) -> bool {
        forall|i: int, j: int|
            0 <= i < self.entries().len() && 0 <= j < self.entries().len()
                && #[trigger] self.entries()[i].0 == #[trigger] self.entries()[j].0 ==> i == j
    }

    /// Position of key `k`, if present.
    pub open spec fn index_of(&self, k: K::V) -> int {
        choose|i: int| 0 <= i < self.entries().len() && self.entries()[i].0 == k
    }

    /// Whether key `k` is present.
    pub open spec fn contains(&self, k: K::V) -> bool {
        exists|i: int| 0 <= i < self.entries().len() && self.entries()[i].0 == k
    }

    /// The table as a map from key views to values.
    pub open spec fn map(&self) -> Map<K::V, V> {
        Map::new(|k: K::V| self.contains(k), |k: K::V| self.entries()[self.index_of(k)].1)
    }

    /// An empty table.
    pub fn new() -> (r: Self)
        ensures
            r.wf(),
            r.entries() == Seq::<(K::V, V)>::empty(),
    {
        let r = AssocList { entries: Vec::new() };
        assert(r.entries() =~= Seq::<(K::V, V)>::empty());
        r
    }

    /// Number of entries.
    pub fn len(&self) -> (r: usize)
        ensures
            r == self.entries().len(),
    {
        self.entries.len()
    }

    /// Position of the entry with key `k`.
    pub fn find(&self, k: &K) -> (r: Option<usize>)
        ensures
            match r {
                Some(i) => i < self.entries().len() && self.entries()[i as int].0 == k@,
                None => !self.contains(k@),
            },
    {
        let mut i: usize = 0;
        while i < self.entries.len()
            invariant
                i <= self.entries@.len(),
                forall|j: int| 0 <= j < i ==> #[trigger] self.entries@[j].0@ != k@,
            decreases self.entries@.len() - i,
        {
            if self.entries[i].0.key_eq(k) {
                return Some(i);
            }
            i = i + 1;
        }
        assert forall|j: int| 0 <= j < self.entries().len() implies self.entries()[j].0 != k@ by {
            assert(self.entries@[j].0@ != k@);
        }
        None
    }

    /// Key of entry `i`.
    pub fn key_at(&self, i: usize) -> (r: &K)
        requires
            i < self.entries().len(),
        ensures
            r@ == self.entries()[i as int].0,
    {
        &self.entries[i].0
    }

    /// Value of entry `i`.
    pub fn value_at(&self, i: usize) -> (r: &V)
        requires
            i < self.entries().len(),
        ensures
            *r == self.entries()[i as int].1,
    {
        &self.entries[i].1
    }

    /// Value stored under `k`.
    pub fn get(&self, k: &K) -> (r: Option<&V>)
        requires
            self.wf(),
        ensures
            match r {
                Some(v) => self.map().dom().contains(k@) && *v == self.map()[k@],
                None => !self.map().dom().contains(k@),
            },
    {
        match self.find(k) {
            Some(i) => {
                proof {
                    self.lemma_index_of(i as int);
                }
                Some(&self.entries[i].1)
            },
            None => None,
        }
    }

    /// The position found for a present key is its only position.
    pub proof fn lemma_index_of(&self, i: int)
        requires
            self.wf(),
            0 <= i < self.entries().len(),
        ensures
            self.contains(self.entries()[i].0),
            self.index_of(self.entries()[i].0) == i,
    {
        let k = self.entries()[i].0;
        assert(self.contains(k));
        let j = self.index_of(k);
        assert(self.entries()[j].0 == self.entries()[i].0);
    }

    /// Replaces the value of entry `i`.
    pub fn set_value_at(&mut self, i: usize, v: V)
        requires
            old(self).wf(),
            i < old(self).entries().len(),
        ensures
            final(self).wf(),
            final(self).entries() == old(self).entries().update(i as int, (old(self).entries()[i as int].0, v)),
            final(self).map() == old(self).map().insert(old(self).entries()[i as int].0, v),
    {
        let ghost k = self.entries()[i as int].0;
        let ghost before = self.entries();
        let ghost m0 = self.map();
        let entry = self.entries.remove(i);
        let key = entry.0;
        self.entries.insert(i, (key, v));
        assert(self.entries() =~= before.update(i as int, (k, v)));
        proof {
            assert forall|a: int, b: int|
                0 <= a < self.entries().len() && 0 <= b < self.entries().len()
                    && #[trigger] self.entries()[a].0 == #[trigger] self.entries()[b].0 implies a == b by {
                assert(before[a].0 == self.entries()[a].0);
                assert(before[b].0 == self.entries()[b].0);
            }
            assert forall|kk: K::V| #[trigger] self.contains(kk) == m0.insert(k, v).dom().contains(kk) by {
                if self.contains(kk) {
                    let a = choose|a: int| 0 <= a < self.entries().len() && self.entries()[a].0 == kk;
                    assert(before[a].0 == kk);
                } else {
                    if m0.dom().contains(kk) && kk != k {
                        let a = choose|a: int| 0 <= a < before.len() && before[a].0 == kk;
                        assert(self.entries()[a].0 == kk);
                    }
                    assert(self.entries()[i as int].0 == k);
                }
            }
            assert(self.map().dom() =~= m0.insert(k, v).dom());
            assert forall|kk: K::V| self.map().dom().contains(kk) implies self.map()[kk] == m0.insert(k, v)[kk] by {
                let a = self.index_of(kk);
                self.lemma_index_of(a);
                if kk == k {
                    self.lemma_index_of(i as int);
                } else {
                    assert(before[a].0 == kk);
                    let b = choose|b: int| 0 <= b < before.len() && before[b].0 == kk;
                    assert(b == a);
                }
            }
            assert(self.map() =~= m0.insert(k, v));
        }
    }

    /// Stores `v` under `k`: replaces the value of an existing entry, or
    /// appends a new entry at the end.
    pub fn insert(&mut self, k: K, v: V)
        requires
            old(self).wf(),
        ensures
            final(self).wf(),
            final(self).map() == old(self).map().insert(k@, v),
            old(self).contains(k@) ==> final(self).keys() == old(self).keys(),
            !old(self).contains(k@) ==> final(self).keys() == old(self).keys().push(k@),
    {
        match self.find(&k) {
            Some(i) => {
                let ghost ks = self.keys();
                self.set_value_at(i, v);
                assert(self.keys() =~= ks);
            },
            None => {
                let ghost before = self.entries();
                let ghost m0 = self.map();
                let ghost kv = k@;
                self.entries.push((k, v));
                proof {
                    assert(self.entries() =~= before.push((kv, v)));
                    assert(self.keys() =~= before.map_values(|e: (K::V, V)| e.0).push(kv));
                    assert forall|a: int, b: int|
                        0 <= a < self.entries().len() && 0 <= b < self.entries().len()
                            && #[trigger] self.entries()[a].0 == #[trigger] self.entries()[b].0 implies a == b by {
                        if a < before.len() && b < before.len() {
                            assert(before[a].0 == before[b].0);
                        } else if a < before.len() {
                            assert(before[a].0 == kv);
                        } else if b < before.len() {
                            assert(before[b].0 == kv);
                        }
                    }
                    assert forall|kk: K::V| #[trigger] self.contains(kk) == m0.insert(kv, v).dom().contains(kk) by {
                        if self.contains(kk) {
                            let a = choose|a: int| 0 <= a < self.entries().len() && self.entries()[a].0 == kk;
                            if a < before.len() {
                                assert(before[a].0 == kk);
                            }
                        } else {
                            if m0.dom().contains(kk) {
                                let a = choose|a: int| 0 <= a < before.len() && before[a].0 == kk;
                                assert(self.entries()[a].0 == kk);
                            }
                            assert(self.entries()[before.len() as int].0 == kv);
                        }
                    }
                    assert(self.map().dom() =~= m0.insert(kv, v).dom());
                    assert forall|kk: K::V| self.map().dom().contains(kk) implies self.map()[kk] == m0.insert(kv, v)[kk] by {
                        let a = self.index_of(kk);
                        self.lemma_index_of(a);
                        if kk == kv {
                            self.lemma_index_of(before.len() as int);
                        } else {
                            assert(a < before.len());
                            assert(before[a].0 == kk);
                            let b = choose|b: int| 0 <= b < before.len() && before[b].0 == kk;
                            assert(before[b].0 == self.entries()[b].0);
                        }
                    }
                    assert(self.map() =~= m0.insert(kv, v));
                }
            },
        }
    }

    /// Removes the entry of `k`, if any, and returns its value; the other
    /// entries keep their order.
    pub fn remove(&mut self, k: &K) -> (r: Option<V>)
        requires
            old(self).wf(),
        ensures
            final(self).wf(),
            final(self).map() == old(self).map().remove(k@),
            match r {
                Some(v) => old(self).map().dom().contains(k@) && v == old(self).map()[k@],
                None => !old(self).map().dom().contains(k@),
            },
            final(self).keys() == old(self).keys().filter(|x: K::V| x != k@),
    {
        let ghost before = self.entries();
        let ghost m0 = self.map();
        match self.find(k) {
            None => {
                proof {
                    assert(self.map().remove(k@) =~= self.map());
                    self.lemma_keys_filter_absent(k@);
                }
                None
            },
            Some(i) => {
                proof {
                    self.lemma_index_of(i as int);
                    self.lemma_keys_filter_at(i as int);
                }
                let (_key, v) = self.entries.remove(i);
                proof {
                    assert(self.entries() =~= before.remove(i as int));
                    assert forall|a: int, b: int|
                        0 <= a < self.entries().len() && 0 <= b < self.entries().len()
                            && #[trigger] self.entries()[a].0 == #[trigger] self.entries()[b].0 implies a == b by {
                        let a2 = if a < i { a } else { a + 1 };
                        let b2 = if b < i { b } else { b + 1 };
                        assert(before[a2].0 == self.entries()[a].0);
                        assert(before[b2].0 == self.entries()[b].0);
                    }
                    assert forall|kk: K::V| #[trigger] self.contains(kk) == m0.remove(k@).dom().contains(kk) by {
                        if self.contains(kk) {
                            let a = choose|a: int| 0 <= a < self.entries().len() && self.entries()[a].0 == kk;
                            let a2 = if a < i { a } else { a + 1 };
                            assert(before[a2].0 == kk);
                            if kk == k@ {
                                assert(before[i as int].0 == k@);
                            }
                        } else {
                            if m0.dom().contains(kk) && kk != k@ {
                                let a = choose|a: int| 0 <= a < before.len() && before[a].0 == kk;
                                if a < i {
                                    assert(self.entries()[a].0 == kk);
                                } else {
                                    assert(a != i);
                                    assert(self.entries()[a - 1].0 == kk);
                                }
                            }
                        }
                    }
                    assert(self.map().dom() =~= m0.remove(k@).dom());
                    assert forall|kk: K::V| self.map().dom().contains(kk) implies self.map()[kk] == m0.remove(k@)[kk] by {
                        let a = self.index_of(kk);
                        self.lemma_index_of(a);
                        let a2 = if a < i { a } else { a + 1 };
                        assert(before[a2].0 == kk);
                        let b = choose|b: int| 0 <= b < before.len() && before[b].0 == kk;
                        assert(before[b].0 == before[a2].0);
                    }
                    assert(self.map() =~= m0.remove(k@));
                }
                Some(v)
            },
        }
    }

    /// Removes every entry.
    pub fn clear(&mut self)
        ensures
            final(self).wf(),
            final(self).entries() == Seq::<(K::V, V)>::empty(),
            final(self).map() == Map::<K::V, V>::empty(),
    {
        self.entries.clear();
        assert(self.entries() =~= Seq::<(K::V, V)>::empty());
        assert(self.map() =~= Map::<K::V, V>::empty());
    }

    /// The keys, taken as a set, are the domain of the map.
    pub proof fn lemma_keys_domain(&self)
        ensures
            self.keys().to_set() == self.map().dom(),
    {
        let ks = self.keys();
        assert forall|x: K::V| ks.to_set().contains(x) implies self.map().dom().contains(x) by {
            let j = choose|j: int| 0 <= j < ks.len() && ks[j] == x;
            assert(self.entries()[j].0 == x);
        }
        assert forall|x: K::V| self.map().dom().contains(x) implies ks.to_set().contains(x) by {
            let j = choose|j: int| 0 <= j < self.entries().len() && self.entries()[j].0 == x;
            assert(ks[j] == x);
        }
        assert(ks.to_set() =~= self.map().dom());
    }

    /// No key occurs twice in the key order.
    pub proof fn lemma_keys_distinct(&self)
        requires
            self.wf(),
        ensures
            self.keys().no_duplicates(),
    {
        let ks = self.keys();
        assert forall|i: int, j: int| 0 <= i < ks.len() && 0 <= j < ks.len() && i != j implies ks[i] != ks[j] by {
            assert(ks[i] == self.entries()[i].0);
            assert(ks[j] == self.entries()[j].0);
        }
    }

    proof fn lemma_keys_filter_absent(&self, k: K::V)
        requires
            !self.contains(k),
        ensures
            self.keys().filter(|x: K::V| x != k) == self.keys(),
    {
        let ks = self.keys();
        assert forall|j: int| 0 <= j < ks.len() implies ks[j] != k by {
            assert(self.entries()[j].0 == ks[j]);
        }
        lemma_filter_all_kept(ks, k);
    }

    proof fn lemma_keys_filter_at(&self, i: int)
        requires
            self.wf(),
            0 <= i < self.entries().len(),
        ensures
            self.keys().filter(|x: K::V| x != self.entries()[i].0) == self.keys().remove(i),
    {
        let ks = self.keys();
        let k = self.entries()[i].0;
        assert forall|j: int| 0 <= j < ks.len() && j != i implies ks[j] != k by {
            assert(self.entries()[j].0 == ks[j]);
        }
        assert(ks[i] == k);
        lemma_filter_remove_unique(ks, k, i);
    }
}

/// Filtering out a value that does not occur keeps a sequence unchanged.
proof fn lemma_filter_all_kept<T>(s: Seq<T>, k: T)
    requires
        forall|j: int| 0 <= j < s.len() ==> s[j] != k,
    ensures
        s.filter(|x: T| x != k) == s,
    decreases s.len(),
{
    reveal(Seq::filter);
    if s.len() > 0 {
        lemma_filter_all_kept(s.drop_last(), k);
        assert(s.drop_last().push(s.last()) =~= s);
    } else {
        assert(s.filter(|x: T| x != k) =~= s);
    }
}

/// Filtering out a value that occurs once, at `i`, removes position `i`.
proof fn lemma_filter_remove_unique<T>(s: Seq<T>, k: T, i: int)
    requires
        0 <= i < s.len(),
        s[i] == k,
        forall|j: int| 0 <= j < s.len() && j != i ==> s[j] != k,
    ensures
        s.filter(|x: T| x != k) == s.remove(i),
    decreases s.len(),
{
    reveal(Seq::filter);
    if i == s.len() - 1 {
        lemma_filter_all_kept(s.drop_last(), k);
        assert(s.remove(i) =~= s.drop_last());
    } else {
        lemma_filter_remove_unique(s.drop_last(), k, i);
        assert(s.drop_last().remove(i).push(s.last()) =~= s.remove(i));
    }
}

} // verus!
