//! Free functions and aliases for adapting one field of an aggregate.
//!
//! [`shared`] and [`exclusive`] are the entry points used when a borrowed
//! view of an aggregate is assembled: for each field, in declaration
//! order, the matching function computes the field's borrowed-by-value
//! representation, and the results are gathered into the view structure.
//! The view structure itself is an ordinary type declared by the
//! aggregate's author; it is not required to satisfy the layout-equality
//! contract unless it opts into [`Borrowable`](crate::Borrowable) itself.

use crate::into_borrow::IntoExclusiveBorrow;
use crate::into_borrow::IntoSharedBorrow;
use vstd::prelude::*;

verus! {

/// Capability: a field of this type has a shared borrowed-by-value
/// representation. Implemented wholesale for every
/// [`IntoSharedBorrow`] field type.
pub trait IntoShared<'s>: Sized {
    /// The field's representation inside a shared by-value view.
    type Field: Copy;

    /// Which adapted representations are admissible for a field value.
    spec fn field_ok(source: Self, r: Self::Field) -> bool;

    /// Adapt a borrow of the field.
    fn into(&'s self) -> (r: Self::Field)
        ensures
            Self::field_ok(*self, r),
    ;
}

/// Capability: a field of this type has an exclusive borrowed-by-value
/// representation. Implemented wholesale for every
/// [`IntoExclusiveBorrow`] field type.
pub trait IntoExclusive<'s>: Sized {
    /// The field's representation inside an exclusive by-value view.
    type Field;

    /// Which adapted representations are admissible for a field value.
    spec fn field_ok(source: Self, r: Self::Field) -> bool;

    /// Adapt an exclusive borrow of the field.
    fn into(&'s mut self) -> (r: Self::Field)
        ensures
            Self::field_ok(*old(self), r),
    ;
}

impl<'s, F: IntoSharedBorrow<'s>> IntoShared<'s> for F {
    type Field = F::Shared;

    open spec fn field_ok(source: F, r: F::Shared) -> bool {
        F::shared_ok(source, r)
    }

    fn into(&'s self) -> (r: F::Shared) {
        IntoSharedBorrow::into(self)
    }
}

impl<'s, F: IntoExclusiveBorrow<'s>> IntoExclusive<'s> for F {
    type Field = F::Exclusive;

    open spec fn field_ok(source: F, r: F::Exclusive) -> bool {
        F::exclusive_ok(source, r)
    }

    fn into(&'s mut self) -> (r: F::Exclusive) {
        IntoExclusiveBorrow::into(self)
    }
}

/// The shared by-value representation of a field of type `F`.
pub type Shared<'s, F> = <F as IntoShared<'s>>::Field;

/// The exclusive by-value representation of a field of type `F`.
pub type Exclusive<'s, F> = <F as IntoExclusive<'s>>::Field;

/// Adapt `&s.field` into the corresponding field of a shared by-value
/// borrow of `s`.
pub fn shared<'s, F: IntoShared<'s>>(field: &'s F) -> (r: Shared<'s, F>)
    ensures
        F::field_ok(*field, r),
{
    IntoShared::into(field)
}

/// Adapt `&mut s.field` into the corresponding field of an exclusive
/// by-value borrow of `s`.
pub fn exclusive<'s, F: IntoExclusive<'s>>(field: &'s mut F) -> (r: Exclusive<'s, F>)
    ensures
        F::field_ok(*old(field), r),
{
    IntoExclusive::into(field)
}

} // verus!
