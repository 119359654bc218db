//! Adapt directly interior-mutable fields of an aggregate to by-value
//! borrows.
//!
//! A field holding a cell cannot appear in a by-value borrow as it stands:
//! two copies of cell contents would silently decohere. The wrappers here
//! let an aggregate pick, field by field, what its borrowed views carry
//! instead: a frozen snapshot of the contents ([`ByCopy`], [`ByClone`]),
//! an opaque placeholder ([`ByDiscard`], [`ByOpaque`]), or an ordinary
//! reference ([`ByRef`]). A snapshot is read once, when the borrow is
//! adapted, and may go stale relative to later writes; that staleness is
//! an accepted part of the by-value model, not an error.

use crate::into_borrow::IntoExclusiveBorrow;
use crate::into_borrow::IntoSharedBorrow;
use crate::opaque::Opaque;
use vstd::prelude::*;

verus! {

/// Borrow the field as a frozen `Copy` snapshot of its cell's contents.
#[derive(Clone, Copy, Default, PartialEq, Eq, PartialOrd, Ord, Hash)]
pub struct ByCopy<T>(pub T);

/// Borrow the field as a frozen cloned snapshot of its cell's contents.
#[derive(Clone, Copy, Default, PartialEq, Eq, PartialOrd, Ord, Hash)]
pub struct ByClone<T>(pub T);

/// Discard the field: by-value borrows carry an `Opaque<core::marker::PhantomData<()>>` in its place.
#[derive(Clone, Copy, Default, PartialEq, Eq, PartialOrd, Ord, Hash)]
pub struct ByDiscard<T>(pub T);

/// Discard the field's contents but keep its inner layout visible:
/// by-value borrows carry an `Opaque` of the cell's content type. Like
/// [`ByDiscard`], but the placeholder keeps the original shape.
#[derive(Clone, Copy, Default, PartialEq, Eq, PartialOrd, Ord, Hash)]
pub struct ByOpaque<T>(pub T);

/// Forgo the by-value property for this field: borrowed views carry an
/// ordinary reference, as regular borrowing would.
#[derive(Clone, Copy, Default, PartialEq, Eq, PartialOrd, Ord, Hash)]
pub struct ByRef<T>(pub T);

impl<T> ByCopy<T> {
    /// The wrapped field.
    pub fn as_ref(&self) -> (r: &T)
        ensures
            *r == self.0,
    {
        &self.0
    }

    /// The wrapped field, exclusively.
    pub fn as_mut(&mut self) -> (r: &mut T)
        ensures
            *r == old(self).0,
            *final(self) == (ByCopy(*final(r))),
    {
        &mut self.0
    }
}

impl<T> ByClone<T> {
    /// The wrapped field.
    pub fn as_ref(&self) -> (r: &T)
        ensures
            *r == self.0,
    {
        &self.0
    }

    /// The wrapped field, exclusively.
    pub fn as_mut(&mut self) -> (r: &mut T)
        ensures
            *r == old(self).0,
            *final(self) == (ByClone(*final(r))),
    {
        &mut self.0
    }
}

impl<T> ByDiscard<T> {
    /// The wrapped field.
    pub fn as_ref(&self) -> (r: &T)
        ensures
            *r == self.0,
    {
        &self.0
    }

    /// The wrapped field, exclusively.
    pub fn as_mut(&mut self) -> (r: &mut T)
        ensures
            *r == old(self).0,
            *final(self) == (ByDiscard(*final(r))),
    {
        &mut self.0
    }
}

impl<T> ByOpaque<T> {
    /// The wrapped field.
    pub fn as_ref(&self) -> (r: &T)
        ensures
            *r == self.0,
    {
        &self.0
    }

    /// The wrapped field, exclusively.
    pub fn as_mut(&mut self) -> (r: &mut T)
        ensures
            *r == old(self).0,
            *final(self) == (ByOpaque(*final(r))),
    {
        &mut self.0
    }
}

impl<T> ByRef<T> {
    /// The wrapped field.
    pub fn as_ref(&self) -> (r: &T)
        ensures
            *r == self.0,
    {
        &self.0
    }

    /// The wrapped field, exclusively.
    pub fn as_mut(&mut self) -> (r: &mut T)
        ensures
            *r == old(self).0,
            *final(self) == (ByRef(*final(r))),
    {
        &mut self.0
    }
}

impl<T> From<T> for ByCopy<T> {
    /// Wrap a field value in its adaptation policy.
    fn from(value: T) -> (r: Self) {
        ByCopy(value)
    }
}

impl<T> vstd::std_specs::convert::FromSpecImpl<T> for ByCopy<T> {
    open spec fn obeys_from_spec() -> bool {
        true
    }

    open spec fn from_spec(value: T) -> Self {
        ByCopy(value)
    }
}

impl<T> From<T> for ByClone<T> {
    /// Wrap a field value in its adaptation policy.
    fn from(value: T) -> (r: Self) {
        ByClone(value)
    }
}

impl<T> vstd::std_specs::convert::FromSpecImpl<T> for ByClone<T> {
    open spec fn obeys_from_spec() -> bool {
        true
    }

    open spec fn from_spec(value: T) -> Self {
        ByClone(value)
    }
}

impl<T> From<T> for ByDiscard<T> {
    /// Wrap a field value in its adaptation policy.
    fn from(value: T) -> (r: Self) {
        ByDiscard(value)
    }
}

impl<T> vstd::std_specs::convert::FromSpecImpl<T> for ByDiscard<T> {
    open spec fn obeys_from_spec() -> bool {
        true
    }

    open spec fn from_spec(value: T) -> Self {
        ByDiscard(value)
    }
}

impl<T> From<T> for ByOpaque<T> {
    /// Wrap a field value in its adaptation policy.
    fn from(value: T) -> (r: Self) {
        ByOpaque(value)
    }
}

impl<T> vstd::std_specs::convert::FromSpecImpl<T> for ByOpaque<T> {
    open spec fn obeys_from_spec() -> bool {
        true
    }

    open spec fn from_spec(value: T) -> Self {
        ByOpaque(value)
    }
}

impl<T> From<T> for ByRef<T> {
    /// Wrap a field value in its adaptation policy.
    fn from(value: T) -> (r: Self) {
        ByRef(value)
    }
}

impl<T> vstd::std_specs::convert::FromSpecImpl<T> for ByRef<T> {
    open spec fn obeys_from_spec() -> bool {
        true
    }

    open spec fn from_spec(value: T) -> Self {
        ByRef(value)
    }
}

#[verifier::external_type_specification]
#[verifier::external_body]
#[verifier::reject_recursive_types(T)]
pub struct ExCell<T: ?Sized>(core::cell::Cell<T>);

/// Relies on `core::cell::Cell::get`: returns a copy of the cell's current
/// contents, never panicking. The contents may be changed through other
/// aliases between two reads, so nothing relates the result to a
/// specification-level value: every caller treats it as a frozen snapshot.
pub assume_specification<T: Copy>[ core::cell::Cell::<T>::get ](
    cell: &core::cell::Cell<T>,
) -> T;

impl<'a, T: Copy + 'a> IntoSharedBorrow<'a> for ByCopy<core::cell::Cell<T>> {
    type Shared = T;

    /// A snapshot of interior-mutable contents: no admissible result can
    /// be ruled out at the specification level.
    open spec fn shared_ok(source: ByCopy<core::cell::Cell<T>>, r: T) -> bool {
        true
    }

    fn into(&'a self) -> (r: T) {
        self.0.get()
    }
}

impl<'a, T: Copy + 'a> IntoExclusiveBorrow<'a> for ByCopy<core::cell::Cell<T>> {
    type Exclusive = T;

    /// A snapshot of interior-mutable contents: no admissible result can
    /// be ruled out at the specification level.
    open spec fn exclusive_ok(source: ByCopy<core::cell::Cell<T>>, r: T) -> bool {
        true
    }

    fn into(&'a mut self) -> (r: T) {
        self.0.get()
    }
}

impl<'a, T: Copy + 'a> IntoSharedBorrow<'a> for ByClone<core::cell::Cell<T>> {
    type Shared = T;

    /// A snapshot of interior-mutable contents: no admissible result can
    /// be ruled out at the specification level.
    open spec fn shared_ok(source: ByClone<core::cell::Cell<T>>, r: T) -> bool {
        true
    }

    fn into(&'a self) -> (r: T) {
        self.0.get()
    }
}

impl<'a, T: Copy + 'a> IntoExclusiveBorrow<'a> for ByClone<core::cell::Cell<T>> {
    type Exclusive = T;

    /// A snapshot of interior-mutable contents: no admissible result can
    /// be ruled out at the specification level.
    open spec fn exclusive_ok(source: ByClone<core::cell::Cell<T>>, r: T) -> bool {
        true
    }

    fn into(&'a mut self) -> (r: T) {
        self.0.get()
    }
}

impl<'a, T: 'a> IntoSharedBorrow<'a> for ByDiscard<T> {
    type Shared = Opaque<core::marker::PhantomData<()>>;

    open spec fn shared_ok(source: ByDiscard<T>, r: Opaque<core::marker::PhantomData<()>>) -> bool {
        r.inner_spec() == core::marker::PhantomData::<()>
    }

    fn into(&'a self) -> (r: Opaque<core::marker::PhantomData<()>>) {
        Opaque::new(core::marker::PhantomData)
    }
}

impl<'a, T: 'a> IntoExclusiveBorrow<'a> for ByDiscard<T> {
    type Exclusive = Opaque<core::marker::PhantomData<()>>;

    open spec fn exclusive_ok(source: ByDiscard<T>, r: Opaque<core::marker::PhantomData<()>>) -> bool {
        r.inner_spec() == core::marker::PhantomData::<()>
    }

    fn into(&'a mut self) -> (r: Opaque<core::marker::PhantomData<()>>) {
        Opaque::new(core::marker::PhantomData)
    }
}

impl<'a, T: Copy + 'a> IntoSharedBorrow<'a> for ByOpaque<core::cell::Cell<T>> {
    type Shared = Opaque<T>;

    /// An opaque placeholder around a snapshot: the placeholder's shape is
    /// all that is kept.
    open spec fn shared_ok(source: ByOpaque<core::cell::Cell<T>>, r: Opaque<T>) -> bool {
        true
    }

    fn into(&'a self) -> (r: Opaque<T>) {
        Opaque::new(self.0.get())
    }
}

impl<'a, T: Copy + 'a> IntoExclusiveBorrow<'a> for ByOpaque<core::cell::Cell<T>> {
    type Exclusive = Opaque<T>;

    /// An opaque placeholder around a snapshot: the placeholder's shape is
    /// all that is kept.
    open spec fn exclusive_ok(source: ByOpaque<core::cell::Cell<T>>, r: Opaque<T>) -> bool {
        true
    }

    fn into(&'a mut self) -> (r: Opaque<T>) {
        Opaque::new(self.0.get())
    }
}

impl<'a, T: 'a> IntoSharedBorrow<'a> for ByRef<T> {
    type Shared = &'a T;

    open spec fn shared_ok(source: ByRef<T>, r: &'a T) -> bool {
        *r == source.0
    }

    fn into(&'a self) -> (r: &'a T) {
        &self.0
    }
}

impl<'a, T: 'a> IntoExclusiveBorrow<'a> for ByRef<T> {
    type Exclusive = &'a mut T;

    open spec fn exclusive_ok(source: ByRef<T>, r: &'a mut T) -> bool {
        *r == source.0
    }

    fn into(&'a mut self) -> (r: &'a mut T) {
        &mut self.0
    }
}

} // verus!
