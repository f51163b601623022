//! A finite set of keys, kept as a list without repetitions.

use vstd::prelude::*;
use crate::keys::Key;

verus! {

/// A finite set of keys. Its view is the mathematical set of the members'
/// views; the order in which the members are stored is not observable
/// through the view.
#[derive(Debug)]
pub struct KeySet<K: Key> {
    items: Vec<K>,
}

impl<K: Key> View for KeySet<K> {
    type V = Set<K::V>;

    closed spec fn view(&self) -> Set<K::V> {
        self.listing().to_set()
    }
}

impl<K: Key> KeySet<K> {
    /// The views of `items`, in the same order.
    spec fn views(items: Seq<K>) -> Seq<K::V> {
        Seq::new(items.len(), |i: int| items[i]@)
    }

    /// The members in storage order, each by its view.
    spec fn listing(self) -> Seq<K::V> {
        Self::views(self.items@)
    }

    /// No member is stored twice.
    #[verifier::type_invariant]
    spec fn distinct(self) -> bool {
        self.listing().no_duplicates()
    }

    /// The empty set.
    pub fn new() -> (r: Self)
        ensures
            r@ == Set::<K::V>::empty(),
    {
        let r = KeySet { items: Vec::new() };
        assert(r.listing().to_set() =~= Set::<K::V>::empty());
        r
    }

    /// The number of members.
    pub fn len(&self) -> (r: usize)
        ensures
            self@.finite(),
            r == self@.len(),
    {
        proof {
            use_type_invariant(self);
            self.listing().unique_seq_to_set();
            vstd::seq_lib::seq_to_set_is_finite(self.listing());
        }
        self.items.len()
    }

    /// Whether the set has no member.
    pub fn is_empty(&self) -> (r: bool)
        ensures
            r == (self@ == Set::<K::V>::empty()),
    {
        proof {
            if self.items@.len() == 0 {
                assert(self.listing().to_set() =~= Set::<K::V>::empty());
            } else {
                assert(self.listing()[0] == self.items@[0]@);
                assert(self.listing().contains(self.listing()[0]));
                assert(self@.contains(self.listing()[0]));
            }
        }
        self.items.len() == 0
    }

    fn position(&self, key: &K) -> (r: Option<usize>)
        ensures
            match r {
                Some(i) => i < self.listing().len() && self.listing()[i as int] == key@,
                None => !self.listing().contains(key@),
            },
    {
        let mut i: usize = 0;
        while i < self.items.len()
            invariant
                0 <= i <= self.items@.len(),
                self.listing().len() == self.items@.len(),
                forall|j: int| 0 <= j < i ==> self.listing()[j] != key@,
            decreases self.items@.len() - i,
        {
            if self.items[i].same(key) {
                return Some(i);
            }
            i += 1;
        }
        None
    }

    /// Whether `key` is a member.
    pub fn contains(&self, key: &K) -> (r: bool)
        ensures
            r == self@.contains(key@),
    {
        match self.position(key) {
            Some(i) => {
                assert(self.listing().contains(key@));
                true
            },
            None => false,
        }
    }

    /// Adds `key` to the set. Returns whether it was new.
    pub fn insert(&mut self, key: K) -> (r: bool)
        ensures
            final(self)@ == old(self)@.insert(key@),
            r == !old(self)@.contains(key@),
    {
        proof {
            use_type_invariant(&*self);
        }
        match self.position(&key) {
            Some(i) => {
                assert(self.listing().contains(key@));
                assert(self@.insert(key@) =~= self@);
                false
            },
            None => {
                let ghost before = self.listing();
                let mut items: Vec<K> = Vec::new();
                std::mem::swap(&mut items, &mut self.items);
                items.push(key);
                proof {
                    let after = Self::views(items@);
                    assert(after =~= before.push(key@));
                    before.lemma_push_to_set_commute(key@);
                    assert forall|i: int, j: int|
                        0 <= i < after.len() && 0 <= j < after.len() && i != j implies after[i]
                        != after[j] by {
                        if i < before.len() && j < before.len() {
                            assert(before[i] != before[j]);
                        } else if i < before.len() {
                            assert(before.contains(before[i]));
                        } else {
                            assert(before.contains(before[j]));
                        }
                    }
                }
                self.items = items;
                true
            },
        }
    }

    /// Takes `key` out of the set. Returns whether it was a member.
    pub fn remove(&mut self, key: &K) -> (r: bool)
        ensures
            final(self)@ == old(self)@.remove(key@),
            r == old(self)@.contains(key@),
    {
        proof {
            use_type_invariant(&*self);
        }
        match self.position(key) {
            Some(i) => {
                let ghost before = self.listing();
                assert(before.contains(key@));
                let mut items: Vec<K> = Vec::new();
                std::mem::swap(&mut items, &mut self.items);
                items.remove(i);
                proof {
                    let after = Self::views(items@);
                    assert(after =~= before.remove(i as int));
                    assert forall|a: int, b: int|
                        0 <= a < after.len() && 0 <= b < after.len() && a != b
                        implies after[a] != after[b] by {
                        let a0 = if a < i { a } else { a + 1 };
                        let b0 = if b < i { b } else { b + 1 };
                        assert(after[a] == before[a0]);
                        assert(after[b] == before[b0]);
                    }
                    assert forall|x: K::V| after.to_set().contains(x) <==> before.to_set().remove(
                        key@,
                    ).contains(x) by {
                        if after.contains(x) {
                            let a = choose|a: int| 0 <= a < after.len() && after[a] == x;
                            let a0 = if a < i { a } else { a + 1 };
                            assert(before[a0] == x);
                            assert(before.contains(x));
                            assert(a0 != i);
                        }
                        if before.contains(x) && x != key@ {
                            let b = choose|b: int| 0 <= b < before.len() && before[b] == x;
                            let b1 = if b < i { b } else { b - 1 };
                            assert(after[b1] == x);
                            assert(after.contains(x));
                        }
                    }
                    assert(after.to_set() =~= before.to_set().remove(key@));
                }
                self.items = items;
                true
            },
            None => {
                assert(self@.remove(key@) =~= self@);
                false
            },
        }
    }

    /// The members, each once, in an order that the view does not fix.
    pub fn members(&self) -> (r: Vec<K>)
        ensures
            self@.finite(),
            r@.len() == self@.len(),
            forall|i: int| 0 <= i < r@.len() ==> self@.contains(#[trigger] r@[i]@),
            forall|i: int, j: int| 0 <= i < j < r@.len() ==> r@[i]@ != r@[j]@,
    {
        proof {
            use_type_invariant(self);
            self.listing().unique_seq_to_set();
            vstd::seq_lib::seq_to_set_is_finite(self.listing());
        }
        let mut out: Vec<K> = Vec::with_capacity(self.items.len());
        let mut i: usize = 0;
        while i < self.items.len()
            invariant
                0 <= i <= self.items@.len(),
                self.listing().len() == self.items@.len(),
                out@.len() == i,
                forall|j: int| 0 <= j < i ==> (#[trigger] out@[j])@ == self.listing()[j],
            decreases self.items@.len() - i,
        {
            out.push(self.items[i].replica());
            i += 1;
        }
        proof {
            assert forall|j: int| 0 <= j < out@.len() implies self@.contains(
                #[trigger] out@[j]@,
            ) by {
                assert(self.listing().contains(self.listing()[j]));
            }
        }
        out
    }
}

impl<K: Key> Clone for KeySet<K> {
    fn clone(&self) -> (r: Self)
        ensures
            r@ == self@,
    {
        proof {
            use_type_invariant(self);
        }
        let mut items: Vec<K> = Vec::with_capacity(self.items.len());
        let mut i: usize = 0;
        while i < self.items.len()
            invariant
                0 <= i <= self.items@.len(),
                items@.len() == i,
                forall|j: int| 0 <= j < i ==> (#[trigger] items@[j])@ == self.items@[j]@,
            decreases self.items@.len() - i,
        {
            items.push(self.items[i].replica());
            i += 1;
        }
        assert(Self::views(items@) =~= self.listing());
        KeySet { items }
    }
}

impl<K: Key> PartialEq for KeySet<K> {
    fn eq(&self, other: &Self) -> (r: bool) {
        if self.len() != other.len() {
            return false;
        }
        let mut i: usize = 0;
        while i < self.items.len()
            invariant
                0 <= i <= self.items@.len(),
                self.listing().len() == self.items@.len(),
                forall|j: int| 0 <= j < i ==> other@.contains(#[trigger] self.listing()[j]),
            decreases self.items@.len() - i,
        {
            if !other.contains(&self.items[i]) {
                proof {
                    assert(self.listing().contains(self.listing()[i as int]));
                    assert(self@.contains(self.listing()[i as int]));
                }
                return false;
            }
            i += 1;
        }
        proof {
            assert forall|x: K::V| self@.contains(x) implies other@.contains(x) by {
                let j = choose|j: int| 0 <= j < self.listing().len() && self.listing()[j] == x;
                assert(other@.contains(self.listing()[j]));
            }
            vstd::set_lib::lemma_subset_equality(self@, other@);
        }
        true
    }
}

impl<K: Key> Eq for KeySet<K> {

}

impl<K: Key> vstd::std_specs::cmp::PartialEqSpecImpl for KeySet<K> {
    open spec fn obeys_eq_spec() -> bool {
        true
    }

    open spec fn eq_spec(&self, other: &Self) -> bool {
        self@ == other@
    }
}

} // verus!
