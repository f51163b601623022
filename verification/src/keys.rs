//! Keys of the ledger's collections: values that are compared and copied by
//! their mathematical model.

use vstd::prelude::*;

verus! {

/// A value that can serve as the key of a [`crate::table::Table`] or as the
/// member of a [`crate::keyset::KeySet`]. Two keys are the same key exactly
/// when their views are equal.
pub trait Key: View + Sized {
    /// Whether `self` and `other` denote the same key.
    fn same(&self, other: &Self) -> (r: bool)
        ensures
            r == (self@ == other@),
    ;

    /// A fresh key that denotes the same key as `self`.
    fn replica(&self) -> (r: Self)
        ensures
            r@ == self@,
    ;
}

impl Key for String {
    fn same(&self, other: &Self) -> (r: bool) {
        *self == *other
    }

    fn replica(&self) -> (r: Self) {
        self.clone()
    }
}

impl Key for Vec<u8> {
    fn same(&self, other: &Self) -> (r: bool) {
        if self.len() != other.len() {
            return false;
        }
        let mut i: usize = 0;
        while i < self.len()
            invariant
                self.len() == other.len(),
                0 <= i <= self.len(),
                forall|j: int| 0 <= j < i ==> self@[j] == other@[j],
            decreases self.len() - i,
        {
            if self[i] != other[i] {
                return false;
            }
            i += 1;
        }
        assert(self@ =~= other@);
        true
    }

    fn replica(&self) -> (r: Self) {
        let mut out: Vec<u8> = Vec::with_capacity(self.len());
        let mut i: usize = 0;
        while i < self.len()
            invariant
                0 <= i <= self.len(),
                out@ == self@.take(i as int),
            decreases self.len() - i,
        {
            out.push(self[i]);
            assert(self@.take(i as int).push(self@[i as int]) =~= self@.take(i + 1));
            i += 1;
        }
        assert(self@.take(self.len() as int) =~= self@);
        out
    }
}

} // verus!
