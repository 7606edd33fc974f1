use vstd::prelude::*;

verus! {

/// Relies on `ToOwned::to_owned`, which materialises the owned counterpart of
/// a borrowed value. Its documentation fixes no relation between the two for
/// an arbitrary type, so nothing beyond the result's type is assumed.
#[verifier::external_body]
fn owned_copy<B: ToOwned + ?Sized>(b: &B) -> B::Owned {
    b.to_owned()
}

/// Power `ToOwned`, spelled as a method.
pub trait PowerToOwned {
    type Owned;

    fn O(&self) -> Self::Owned;
}

impl<T: ToOwned + ?Sized> PowerToOwned for T {
    type Owned = T::Owned;

    fn O(&self) -> (r: T::Owned)
        ensures
            call_ensures(O::<T>, (self,), r),
    {
        O(self)
    }
}

/// Power `ToOwned`: the owned counterpart of the borrowed view `o`.
pub fn O<T: ToOwned + ?Sized>(o: &T) -> T::Owned {
    owned_copy(o)
}

} // verus!
