use vstd::prelude::*;

verus! {

/// Duplication: `r` is a copy of `v` as `T::clone` hands it out.
pub open spec fn duplicate_of<T: Clone>(v: T, r: T) -> bool {
    cloned(v, r)
}

/// Power `Clone`, spelled as a method.
pub trait PowerClone: Clone {
    fn C(&self) -> (r: Self)
        ensures
            duplicate_of(*self, r),
    ;
}

impl<T: Clone> PowerClone for T {
    fn C(&self) -> (r: T) {
        self.clone()
    }
}

/// Power `Clone`: a fresh copy of `o`, leaving `o` as it was.
pub fn C<T: Clone>(o: &T) -> (r: T)
    ensures
        duplicate_of(*o, r),
{
    o.clone()
}

/// The free and the method spelling of duplication promise the same thing:
/// whatever either hands back is a duplicate of `o`.
pub proof fn lemma_duplicate_spellings_agree<T: Clone>(o: &T, r1: T, r2: T)
    requires
        call_ensures(C::<T>, (o,), r1),
        call_ensures(<T as PowerClone>::C, (o,), r2),
    ensures
        duplicate_of(*o, r1),
        duplicate_of(*o, r2),
{
}

/// A duplicate of a string holds the same characters as the original.
pub proof fn lemma_duplicate_string(v: String, r: String)
    requires
        duplicate_of(v, r),
    ensures
        r == v,
        r@ == v@,
{
}

/// A duplicate of a vector has the same length, and each element is a
/// duplicate of the element at the same place; where duplicating an element
/// keeps it equal, the two vectors hold the same sequence.
pub proof fn lemma_duplicate_vec<T: Clone>(v: Vec<T>, r: Vec<T>)
    requires
        duplicate_of(v, r),
    ensures
        r.len() == v.len(),
        forall|i: int| 0 <= i < v.len() ==> #[trigger] duplicate_of(v[i], r[i]),
        (forall|a: T, b: T| #[trigger] duplicate_of(a, b) ==> a == b) ==> r@ == v@,
{
    if forall|a: T, b: T| #[trigger] duplicate_of(a, b) ==> a == b {
        assert forall|i: int| 0 <= i < v.len() implies r@[i] == v@[i] by {
            assert(duplicate_of(v[i], r[i]));
        }
        assert(r@ =~= v@);
    }
}

} // verus!
