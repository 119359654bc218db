use crate::borrowable::Borrowable;
use vstd::layout::size_of;
use vstd::prelude::*;

verus! {

/// A by-value exclusive borrow, permitted for zero-sized types only.
///
/// A true by-value exclusive borrow would need shared access to a value's
/// direct (inline) data while keeping exclusive access to whatever indirect
/// data it references; no single reference shape expresses that split. The
/// degenerate case is a zero-sized type: exclusive access to nothing is the
/// same as shared access to nothing. Construction therefore demands
/// `size_of::<T>() == 0` (and the same of the shadow representation), the
/// statically checked counterpart of the layout assertions performed when a
/// token is built.
///
/// Unlike [`Valrow`](crate::Valrow), this token is not copyable: it models
/// the exclusivity of the borrow it was built from, of which at most one
/// may exist at a time.
pub struct ValrowMut<'a, T: Borrowable> {
    abi: T::Abi,
    origin: core::marker::PhantomData<&'a mut T>,
}

impl<'a, T: Borrowable> View for ValrowMut<'a, T> {
    type V = T;

    /// The value this token stands for: the unique value whose shadow
    /// representation the token carries.
    closed spec fn view(&self) -> T {
        choose|v: T| v.abi_of() == self.abi
    }
}

impl<'a, T: Borrowable> ValrowMut<'a, T> {
    /// Borrow `*reference` by value, leaving the referent unchanged.
    /// Only zero-sized types qualify; anything larger would let the copy
    /// and the original disagree about the data they both claim to own
    /// exclusively.
    pub fn new(reference: &'a mut T) -> (r: Self)
        requires
            size_of::<T>() == 0,
            size_of::<T::Abi>() == 0,
        ensures
            r@ == *old(reference),
            *final(reference) == *old(reference),
    {
        let abi = T::to_abi(reference);
        let r = ValrowMut::<'a, T> { abi, origin: core::marker::PhantomData };
        proof {
            T::abi_faithful();
            assert(r@.abi_of() == r.abi && (*old(reference)).abi_of() == r.abi);
        }
        r
    }

    /// The borrowed value, reinterpreted out of the token's own storage.
    pub fn as_ref(&self) -> (r: &T)
        ensures
            *r == self@,
    {
        let r = T::from_abi(&self.abi);
        proof {
            T::abi_faithful();
            assert((*r).abi_of() == self.abi && self@.abi_of() == self.abi);
        }
        r
    }

    /// The borrowed value, reinterpreted mutably out of the token's own
    /// storage: writes through the result change what the token stands for.
    pub fn as_mut(&mut self) -> (r: &mut T)
        ensures
            *r == old(self)@,
            final(self)@ == *final(r),
    {
        proof {
            T::abi_faithful();
        }
        let r = T::from_abi_mut(&mut self.abi);
        r
    }
}

} // verus!
