//! A finite map from keys to values, kept as a list of entries in which no
//! key occurs twice.

use vstd::prelude::*;
use crate::keys::Key;

verus! {

/// A finite map. Its view maps the view of each key to the view of the value
/// stored under it; the order of the entries is not observable through the
/// view.
#[derive(Debug)]
pub struct Table<K: Key, V: View> {
    entries: Vec<(K, V)>,
}

impl<K: Key, V: View> View for Table<K, V> {
    type V = Map<K::V, V::V>;

    closed spec fn view(&self) -> Map<K::V, V::V> {
        Self::model(self.entries@)
    }
}

impl<K: Key, V: View> Table<K, V> {
    /// The views of the keys of `entries`, in the same order.
    spec fn key_views(entries: Seq<(K, V)>) -> Seq<K::V> {
        Seq::new(entries.len(), |i: int| entries[i].0@)
    }

    /// The map that a list of entries with distinct keys stands for.
    spec fn model(entries: Seq<(K, V)>) -> Map<K::V, V::V> {
        Map::new(
            |k: K::V| Self::key_views(entries).contains(k),
            |k: K::V| entries[Self::key_views(entries).index_of(k)].1@,
        )
    }

    /// No key is stored twice.
    #[verifier::type_invariant]
    spec fn distinct(self) -> bool {
        Self::key_views(self.entries@).no_duplicates()
    }

    proof fn lemma_model_at(entries: Seq<(K, V)>, i: int)
        requires
            Self::key_views(entries).no_duplicates(),
            0 <= i < entries.len(),
        ensures
            Self::model(entries).contains_key(entries[i].0@),
            Self::model(entries)[entries[i].0@] == entries[i].1@,
    {
        let keys = Self::key_views(entries);
        assert(keys[i] == entries[i].0@);
        assert(keys.contains(entries[i].0@));
        let j = keys.index_of(entries[i].0@);
        assert(0 <= j < keys.len() && keys[j] == keys[i]);
        assert(j == i);
    }

    proof fn lemma_model_absent(entries: Seq<(K, V)>, k: K::V)
        requires
            forall|i: int| 0 <= i < entries.len() ==> (#[trigger] entries[i]).0@ != k,
        ensures
            !Self::model(entries).contains_key(k),
    {
        let keys = Self::key_views(entries);
        if keys.contains(k) {
            let i = choose|i: int| 0 <= i < keys.len() && keys[i] == k;
            assert(entries[i].0@ == k);
        }
    }

    proof fn lemma_model_member(entries: Seq<(K, V)>, k: K::V) -> (i: int)
        requires
            Self::model(entries).contains_key(k),
        ensures
            0 <= i < entries.len(),
            entries[i].0@ == k,
    {
        let keys = Self::key_views(entries);
        assert(keys.contains(k));
        let i = choose|i: int| 0 <= i < keys.len() && keys[i] == k;
        i
    }

    /// The empty table.
    pub fn new() -> (r: Self)
        ensures
            r@ == Map::<K::V, V::V>::empty(),
    {
        let r = Table { entries: Vec::new() };
        assert(r@ =~= Map::<K::V, V::V>::empty());
        r
    }

    /// The number of entries.
    pub fn len(&self) -> (r: usize)
        ensures
            self@.dom().finite(),
            r == self@.len(),
    {
        proof {
            use_type_invariant(self);
            let keys = Self::key_views(self.entries@);
            keys.unique_seq_to_set();
            vstd::seq_lib::seq_to_set_is_finite(keys);
            assert(self@.dom() =~= keys.to_set());
        }
        self.entries.len()
    }

    fn position(&self, key: &K) -> (r: Option<usize>)
        ensures
            match r {
                Some(i) => i < self.entries@.len() && self.entries@[i as int].0@ == key@,
                None => forall|j: int|
                    0 <= j < self.entries@.len() ==> (#[trigger] self.entries@[j]).0@ != key@,
            },
    {
        let mut i: usize = 0;
        while i < self.entries.len()
            invariant
                0 <= i <= self.entries@.len(),
                forall|j: int| 0 <= j < i ==> (#[trigger] self.entries@[j]).0@ != key@,
            decreases self.entries@.len() - i,
        {
            if self.entries[i].0.same(key) {
                return Some(i);
            }
            i += 1;
        }
        None
    }

    /// Whether a value is stored under `key`.
    pub fn contains_key(&self, key: &K) -> (r: bool)
        ensures
            r == self@.contains_key(key@),
    {
        proof {
            use_type_invariant(self);
        }
        match self.position(key) {
            Some(i) => {
                proof {
                    Self::lemma_model_at(self.entries@, i as int);
                }
                true
            },
            None => {
                proof {
                    Self::lemma_model_absent(self.entries@, key@);
                }
                false
            },
        }
    }

    /// The value stored under `key`, if there is one.
    pub fn get(&self, key: &K) -> (r: Option<&V>)
        ensures
            match r {
                Some(v) => self@.contains_key(key@) && v@ == self@[key@],
                None => !self@.contains_key(key@),
            },
    {
        proof {
            use_type_invariant(self);
        }
        match self.position(key) {
            Some(i) => {
                proof {
                    Self::lemma_model_at(self.entries@, i as int);
                }
                Some(&self.entries[i].1)
            },
            None => {
                proof {
                    Self::lemma_model_absent(self.entries@, key@);
                }
                None
            },
        }
    }

    /// Stores `value` under `key`, in place of what was stored there.
    pub fn insert(&mut self, key: K, value: V)
        ensures
            final(self)@ == old(self)@.insert(key@, value@),
    {
        proof {
            use_type_invariant(&*self);
        }
        let found = self.position(&key);
        let ghost before = self.entries@;
        let mut entries: Vec<(K, V)> = Vec::new();
        std::mem::swap(&mut entries, &mut self.entries);
        match found {
            Some(i) => {
                entries.set(i, (key, value));
            },
            None => {
                entries.push((key, value));
            },
        }
        proof {
            let after = entries@;
            let at: int = match found {
                Some(i) => i as int,
                None => before.len() as int,
            };
            assert(after[at].0@ == key@ && after[at].1@ == value@);
            assert forall|a: int| 0 <= a < after.len() && a != at implies after[a]
                == before[a] by {}
            assert forall|a: int| 0 <= a < before.len() && a != at implies (#[trigger] before[a]).0@
                != key@ by {
                if found is Some {
                    assert(Self::key_views(before)[a] != Self::key_views(before)[at]);
                }
            }
            assert forall|a: int, b: int|
                0 <= a < after.len() && 0 <= b < after.len() && a != b implies Self::key_views(
                after,
            )[a] != Self::key_views(after)[b] by {
                if a != at && b != at {
                    assert(Self::key_views(before)[a] != Self::key_views(before)[b]);
                }
            }
            assert forall|k: K::V|
                Self::model(after).contains_key(k) <==> #[trigger] Self::model(before).insert(
                    key@,
                    value@,
                ).contains_key(k) by {
                if Self::model(after).contains_key(k) && k != key@ {
                    let a = Self::lemma_model_member(after, k);
                    Self::lemma_model_at(before, a);
                }
                if Self::model(before).contains_key(k) && k != key@ {
                    let a = Self::lemma_model_member(before, k);
                    Self::lemma_model_at(after, a);
                }
                if k == key@ {
                    Self::lemma_model_at(after, at);
                }
            }
            assert forall|k: K::V| #[trigger]
                Self::model(after).contains_key(k) implies Self::model(after)[k] == Self::model(
                before,
            ).insert(key@, value@)[k] by {
                let a = Self::lemma_model_member(after, k);
                Self::lemma_model_at(after, a);
                if k != key@ {
                    Self::lemma_model_at(before, a);
                }
            }
            assert(Self::model(after) =~= Self::model(before).insert(key@, value@));
        }
        self.entries = entries;
    }

    /// Takes the entry under `key` out of the table and returns its value.
    pub fn remove(&mut self, key: &K) -> (r: Option<V>)
        ensures
            final(self)@ == old(self)@.remove(key@),
            match r {
                Some(v) => old(self)@.contains_key(key@) && v@ == old(self)@[key@],
                None => !old(self)@.contains_key(key@),
            },
    {
        proof {
            use_type_invariant(&*self);
        }
        match self.position(key) {
            Some(i) => {
                let ghost before = self.entries@;
                let mut entries: Vec<(K, V)> = Vec::new();
                std::mem::swap(&mut entries, &mut self.entries);
                let gone = entries.remove(i);
                proof {
                    let after = entries@;
                    Self::lemma_model_at(before, i as int);
                    assert forall|a: int| 0 <= a < after.len() implies after[a] == before[if a
                        < i {
                        a
                    } else {
                        a + 1
                    }] by {}
                    assert forall|a: int, b: int|
                        0 <= a < after.len() && 0 <= b < after.len() && a != b
                        implies Self::key_views(after)[a] != Self::key_views(after)[b] by {
                        let a0 = if a < i { a } else { a + 1 };
                        let b0 = if b < i { b } else { b + 1 };
                        assert(Self::key_views(before)[a0] != Self::key_views(before)[b0]);
                    }
                    assert forall|k: K::V|
                        Self::model(after).contains_key(k) <==> #[trigger] Self::model(
                            before,
                        ).remove(key@).contains_key(k) by {
                        if Self::model(after).contains_key(k) {
                            let a = Self::lemma_model_member(after, k);
                            let a0 = if a < i { a } else { a + 1 };
                            Self::lemma_model_at(before, a0);
                            assert(Self::key_views(before)[a0] != Self::key_views(
                                before,
                            )[i as int]);
                        }
                        if Self::model(before).contains_key(k) && k != key@ {
                            let b = Self::lemma_model_member(before, k);
                            let b1 = if b < i { b } else { b - 1 };
                            Self::lemma_model_at(after, b1);
                        }
                    }
                    assert forall|k: K::V| #[trigger]
                        Self::model(after).contains_key(k) implies Self::model(after)[k]
                        == Self::model(before).remove(key@)[k] by {
                        let a = Self::lemma_model_member(after, k);
                        let a0 = if a < i { a } else { a + 1 };
                        Self::lemma_model_at(after, a);
                        Self::lemma_model_at(before, a0);
                        assert(Self::key_views(before)[a0] != Self::key_views(before)[i as int]);
                    }
                    assert(Self::model(after) =~= Self::model(before).remove(key@));
                }
                self.entries = entries;
                Some(gone.1)
            },
            None => {
                proof {
                    Self::lemma_model_absent(self.entries@, key@);
                    assert(self@.remove(key@) =~= self@);
                }
                None
            },
        }
    }

    /// The keys, each once, in an order that the view does not fix.
    pub fn keys(&self) -> (r: Vec<K>)
        ensures
            self@.dom().finite(),
            r@.len() == self@.len(),
            forall|i: int| 0 <= i < r@.len() ==> self@.contains_key(#[trigger] r@[i]@),
            forall|i: int, j: int| 0 <= i < j < r@.len() ==> r@[i]@ != r@[j]@,
    {
        proof {
            use_type_invariant(self);
            let keys = Self::key_views(self.entries@);
            keys.unique_seq_to_set();
            vstd::seq_lib::seq_to_set_is_finite(keys);
            assert(self@.dom() =~= keys.to_set());
        }
        let mut out: Vec<K> = Vec::with_capacity(self.entries.len());
        let mut i: usize = 0;
        while i < self.entries.len()
            invariant
                0 <= i <= self.entries@.len(),
                out@.len() == i,
                forall|j: int| 0 <= j < i ==> (#[trigger] out@[j])@ == self.entries@[j].0@,
            decreases self.entries@.len() - i,
        {
            out.push(self.entries[i].0.replica());
            i += 1;
        }
        proof {
            assert forall|j: int| 0 <= j < out@.len() implies self@.contains_key(
                #[trigger] out@[j]@,
            ) by {
                Self::lemma_model_at(self.entries@, j);
            }
            assert forall|a: int, b: int| 0 <= a < b < out@.len() implies out@[a]@ != out@[b]@ by {
                assert(Self::key_views(self.entries@)[a] != Self::key_views(self.entries@)[b]);
            }
        }
        out
    }
}

} // verus!
