use vstd::layout::align_of;
use vstd::layout::size_of;
use vstd::prelude::*;

verus! {

/// A type that is borrowable by value.
///
/// An implementation declares a shadow representation `Abi`: a `Copy` type
/// that is layout-identical to `Self` (same size, same alignment, and the
/// same equalities under an `Option` wrapper, an approximation of "has the
/// same unused-bit-pattern niches"). The layout claim is a proof obligation,
/// discharged by [`Borrowable::abi_layout`].
///
/// Beyond layout, an implementation asserts that a value of `Self` may
/// validly be observed at more than one address at once. That rules out
/// types whose backing storage follows a uniqueness discipline, types whose
/// address carries identity, and types with direct interior mutability: two
/// copies of such a value would silently decohere, since a mutation through
/// one copy is invisible to the other. Interior mutability behind a shared
/// indirection is fine, because every copy still dereferences to the same
/// backing storage.
///
/// The shadow of a concrete value is given by [`Borrowable::abi_of`], and is
/// faithful: two values with the same shadow are the same value
/// ([`Borrowable::abi_faithful`]). That faithfulness is what lets a token
/// copy the shadow out of a borrow and later hand back the borrowed value
/// itself, bit for bit.
pub trait Borrowable: Sized {
    /// The copyable shadow representation of `Self`.
    type Abi: Copy;

    /// The shadow representation that a given value presents.
    spec fn abi_of(self) -> Self::Abi;

    /// The shadow determines the value: no two values share one shadow.
    proof fn abi_faithful()
        ensures
            forall|a: Self, b: Self| #[trigger] a.abi_of() == #[trigger] b.abi_of() ==> a == b,
    ;

    /// `Self` and `Self::Abi` are layout-identical, also under `Option`.
    proof fn abi_layout()
        ensures
            size_of::<Self>() == size_of::<Self::Abi>(),
            align_of::<Self>() == align_of::<Self::Abi>(),
            size_of::<Option<Self>>() == size_of::<Option<Self::Abi>>(),
            align_of::<Option<Self>>() == align_of::<Option<Self::Abi>>(),
    ;

    /// Copy the shadow representation out of a borrowed value.
    fn to_abi(&self) -> (r: Self::Abi)
        ensures
            r == (*self).abi_of(),
    ;

    /// View a borrowed shadow representation as a borrowed value.
    fn from_abi(abi: &Self::Abi) -> (r: &Self)
        ensures
            (*r).abi_of() == *abi,
    ;

    /// View an exclusively borrowed shadow representation as an exclusively
    /// borrowed value. Writes through the result land in the shadow.
    fn from_abi_mut(abi: &mut Self::Abi) -> (r: &mut Self)
        ensures
            (*r).abi_of() == *old(abi),
            *final(abi) == (*final(r)).abi_of(),
    ;
}

/// Layout equality invariant: for every borrowable type, size and alignment
/// agree with those of its shadow representation, and the same equalities
/// hold under an `Option` wrapper.
pub proof fn lemma_borrowable_layout<T: Borrowable>()
    ensures
        size_of::<T>() == size_of::<T::Abi>(),
        align_of::<T>() == align_of::<T::Abi>(),
        size_of::<Option<T>>() == size_of::<Option<T::Abi>>(),
        align_of::<Option<T>>() == align_of::<Option<T::Abi>>(),
{
    T::abi_layout();
}

impl<'a, T> Borrowable for &'a T {
    type Abi = &'a T;

    open spec fn abi_of(self) -> &'a T {
        self
    }

    proof fn abi_faithful() {
    }

    proof fn abi_layout() {
    }

    fn to_abi(&self) -> (r: &'a T) {
        *self
    }

    fn from_abi<'b>(abi: &'b &'a T) -> (r: &'b &'a T) {
        abi
    }

    fn from_abi_mut<'b>(abi: &'b mut &'a T) -> (r: &'b mut &'a T) {
        abi
    }
}

impl<T: ?Sized> Borrowable for core::marker::PhantomData<T> {
    type Abi = core::marker::PhantomData<T>;

    open spec fn abi_of(self) -> core::marker::PhantomData<T> {
        self
    }

    proof fn abi_faithful() {
    }

    proof fn abi_layout() {
    }

    fn to_abi(&self) -> (r: core::marker::PhantomData<T>) {
        *self
    }

    fn from_abi<'b>(abi: &'b core::marker::PhantomData<T>) -> (r: &'b core::marker::PhantomData<T>) {
        abi
    }

    fn from_abi_mut<'b>(abi: &'b mut core::marker::PhantomData<T>) -> (r: &'b mut core::marker::PhantomData<T>) {
        abi
    }
}

} // verus!
