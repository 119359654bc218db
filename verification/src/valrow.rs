use crate::borrowable::Borrowable;
use vstd::prelude::*;

verus! {

/// A by-value borrow: a copyable token standing in for a shared borrow.
///
/// The token holds a copy of the borrowed value's shadow representation
/// ([`Borrowable::Abi`]) together with a phantom lifetime tag that bounds
/// its use to the lifetime of the borrow it was built from. It owns
/// nothing: it is created per borrow site, copied freely, and dropped
/// without side effect. In particular, building one from a
/// reference-counted handle copies the handle's shadow without touching
/// any reference count.
///
/// The token's mathematical value (its view) is the borrowed value it
/// stands for; [`Valrow::new`] and [`Valrow::as_ref`] round-trip that
/// value exactly.
pub struct Valrow<'a, T: Borrowable> {
    abi: T::Abi,
    origin: core::marker::PhantomData<&'a T>,
}

impl<'a, T: Borrowable> View for Valrow<'a, T> {
    type V = T;

    /// The value this token stands for: the unique value whose shadow
    /// representation the token carries.
    closed spec fn view(&self) -> T {
        choose|v: T| v.abi_of() == self.abi
    }
}

impl<'a, T: Borrowable> Valrow<'a, T> {
    /// Borrow `*reference` by value: copy its shadow representation out
    /// into a fresh token.
    pub fn new(reference: &'a T) -> (r: Self)
        ensures
            r@ == *reference,
    {
        let abi = T::to_abi(reference);
        let r = Valrow::<'a, T> { abi, origin: core::marker::PhantomData };
        proof {
            T::abi_faithful();
            assert(r@.abi_of() == r.abi && (*reference).abi_of() == r.abi);
        }
        r
    }

    /// The borrowed value, reinterpreted out of the token's own storage.
    pub fn as_ref(&self) -> (r: &T)
        ensures
            *r == self@,
    {
        let r = T::from_abi(&self.abi);
        proof {
            T::abi_faithful();
            assert((*r).abi_of() == self.abi && self@.abi_of() == self.abi);
        }
        r
    }
}

impl<'a, T: Borrowable> Clone for Valrow<'a, T> {
    /// A copy of the token: same shadow bits, same value.
    fn clone(&self) -> (r: Self)
        ensures
            r == *self,
    {
        Valrow { abi: self.abi, origin: core::marker::PhantomData }
    }
}

impl<'a, T: Borrowable> Copy for Valrow<'a, T> {

}

/// Copy independence: every copy of a shared token stands for the same
/// value as the token it was copied from, so copies are usable
/// independently of one another.
pub proof fn lemma_copy_independence<'a, T: Borrowable>(
    token: Valrow<'a, T>,
    first: Valrow<'a, T>,
    second: Valrow<'a, T>,
)
    requires
        first == token,
        second == token,
    ensures
        first@ == second@,
{
}

} // verus!
