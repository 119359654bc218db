use vstd::prelude::*;

verus! {

/// Capability: this field type can appear, adapted, in a shared by-value
/// borrow of an aggregate.
///
/// An aggregate exposes a by-value borrow of itself one field at a time:
/// for each field, an implementation of this capability on the field's
/// type picks the field's shared representation — a plain copy, a token,
/// an opaque placeholder, or a reference — and
/// [`into`](IntoSharedBorrow::into) computes it from a borrow of the
/// field. Every shared representation is `Copy`, so a view assembled from
/// such representations is itself copyable. The lifetime parameter is the
/// lifetime of the borrowed aggregate, which bounds every adapted field.
///
/// Which results are admissible for a given field value is stated by
/// [`shared_ok`](IntoSharedBorrow::shared_ok); for every adaptation except
/// the snapshot of an interior-mutable cell, that predicate pins the
/// result down exactly.
pub trait IntoSharedBorrow<'a>: Sized {
    /// The field's representation inside a shared by-value view.
    type Shared: Copy;

    /// Which adapted representations are admissible for a field value.
    spec fn shared_ok(source: Self, r: Self::Shared) -> bool;

    /// Adapt a borrow of the field.
    fn into(&'a self) -> (r: Self::Shared)
        ensures
            Self::shared_ok(*self, r),
    ;
}

/// Capability: this field type can appear, adapted, in an exclusive
/// by-value borrow of an aggregate.
///
/// The exclusive counterpart of [`IntoSharedBorrow`]: the same per-field
/// selection, but producing the representation used inside an exclusive
/// view, which need not be `Copy`. The adaptation itself only reads;
/// where the representation is a mutable reborrow, later writes through
/// it change the field as ordinary writes would.
pub trait IntoExclusiveBorrow<'a>: Sized {
    /// The field's representation inside an exclusive by-value view.
    type Exclusive;

    /// Which adapted representations are admissible for a field value.
    spec fn exclusive_ok(source: Self, r: Self::Exclusive) -> bool;

    /// Adapt an exclusive borrow of the field.
    fn into(&'a mut self) -> (r: Self::Exclusive)
        ensures
            Self::exclusive_ok(*old(self), r),
    ;
}

impl<'a, T: 'a + ?Sized> IntoSharedBorrow<'a> for core::marker::PhantomData<T> {
    type Shared = core::marker::PhantomData<T>;

    open spec fn shared_ok(source: core::marker::PhantomData<T>, r: core::marker::PhantomData<T>) -> bool {
        r == core::marker::PhantomData::<T>
    }

    fn into(&'a self) -> (r: core::marker::PhantomData<T>) {
        core::marker::PhantomData
    }
}

impl<'a, T: 'a + ?Sized> IntoExclusiveBorrow<'a> for core::marker::PhantomData<T> {
    type Exclusive = core::marker::PhantomData<T>;

    open spec fn exclusive_ok(source: core::marker::PhantomData<T>, r: core::marker::PhantomData<T>) -> bool {
        r == core::marker::PhantomData::<T>
    }

    fn into(&'a mut self) -> (r: core::marker::PhantomData<T>) {
        core::marker::PhantomData
    }
}

impl<'a, 'b: 'a, T: 'b> IntoSharedBorrow<'a> for &'b T {
    type Shared = &'b T;

    open spec fn shared_ok(source: &'b T, r: &'b T) -> bool {
        r == source
    }

    fn into(&'a self) -> (r: &'b T) {
        *self
    }
}

impl<'a, 'b: 'a, T: 'b> IntoExclusiveBorrow<'a> for &'b T {
    type Exclusive = &'b T;

    open spec fn exclusive_ok(source: &'b T, r: &'b T) -> bool {
        r == source
    }

    fn into(&'a mut self) -> (r: &'b T) {
        *self
    }
}

impl<'a, 'b: 'a, T: 'b> IntoSharedBorrow<'a> for &'b mut T {
    type Shared = &'a T;

    open spec fn shared_ok(source: &'b mut T, r: &'a T) -> bool {
        *r == *source
    }

    fn into(&'a self) -> (r: &'a T) {
        &**self
    }
}

impl<'a, 'b: 'a, T: 'b> IntoExclusiveBorrow<'a> for &'b mut T {
    type Exclusive = &'a mut T;

    open spec fn exclusive_ok(source: &'b mut T, r: &'a mut T) -> bool {
        *r == *source
    }

    fn into(&'a mut self) -> (r: &'a mut T) {
        &mut **self
    }
}

impl<'a, T: 'a> IntoSharedBorrow<'a> for std::boxed::Box<T> {
    type Shared = &'a T;

    open spec fn shared_ok(source: std::boxed::Box<T>, r: &'a T) -> bool {
        *r == *source
    }

    fn into(&'a self) -> (r: &'a T) {
        &**self
    }
}

impl<'a, T: 'a> IntoExclusiveBorrow<'a> for std::boxed::Box<T> {
    type Exclusive = &'a mut T;

    open spec fn exclusive_ok(source: std::boxed::Box<T>, r: &'a mut T) -> bool {
        *r == *source
    }

    fn into(&'a mut self) -> (r: &'a mut T) {
        &mut **self
    }
}

impl<'a, T: 'a> IntoSharedBorrow<'a> for std::vec::Vec<T> {
    type Shared = &'a [T];

    open spec fn shared_ok(source: std::vec::Vec<T>, r: &'a [T]) -> bool {
        r@ == source@
    }

    fn into(&'a self) -> (r: &'a [T]) {
        self.as_slice()
    }
}

impl<'a, T: 'a> IntoExclusiveBorrow<'a> for std::vec::Vec<T> {
    type Exclusive = &'a mut [T];

    open spec fn exclusive_ok(source: std::vec::Vec<T>, r: &'a mut [T]) -> bool {
        r@ == source@
    }

    fn into(&'a mut self) -> (r: &'a mut [T]) {
        self.as_mut_slice()
    }
}

impl<'a, T: 'a> IntoSharedBorrow<'a> for std::rc::Rc<T> {
    type Shared = crate::handles::RcValrow<'a, T>;

    open spec fn shared_ok(source: std::rc::Rc<T>, r: crate::handles::RcValrow<'a, T>) -> bool {
        r@ == *source
    }

    fn into(&'a self) -> (r: crate::handles::RcValrow<'a, T>) {
        crate::handles::RcValrow::new(self)
    }
}

impl<'a, T: 'a> IntoExclusiveBorrow<'a> for std::rc::Rc<T> {
    type Exclusive = crate::handles::RcValrow<'a, T>;

    open spec fn exclusive_ok(source: std::rc::Rc<T>, r: crate::handles::RcValrow<'a, T>) -> bool {
        r@ == *source
    }

    fn into(&'a mut self) -> (r: crate::handles::RcValrow<'a, T>) {
        crate::handles::RcValrow::new(&*self)
    }
}

impl<'a, T: 'a> IntoSharedBorrow<'a> for std::sync::Arc<T> {
    type Shared = crate::handles::ArcValrow<'a, T>;

    open spec fn shared_ok(source: std::sync::Arc<T>, r: crate::handles::ArcValrow<'a, T>) -> bool {
        r@ == *source
    }

    fn into(&'a self) -> (r: crate::handles::ArcValrow<'a, T>) {
        crate::handles::ArcValrow::new(self)
    }
}

impl<'a, T: 'a> IntoExclusiveBorrow<'a> for std::sync::Arc<T> {
    type Exclusive = crate::handles::ArcValrow<'a, T>;

    open spec fn exclusive_ok(source: std::sync::Arc<T>, r: crate::handles::ArcValrow<'a, T>) -> bool {
        r@ == *source
    }

    fn into(&'a mut self) -> (r: crate::handles::ArcValrow<'a, T>) {
        crate::handles::ArcValrow::new(&*self)
    }
}

impl<'a, T: IntoSharedBorrow<'a>> IntoSharedBorrow<'a> for Option<T> {
    type Shared = Option<T::Shared>;

    open spec fn shared_ok(source: Option<T>, r: Option<T::Shared>) -> bool {
        match source {
            Option::None => r is None,
            Option::Some(v) => r matches Option::Some(s) && T::shared_ok(v, s),
        }
    }

    fn into(&'a self) -> (r: Option<T::Shared>) {
        match self {
            Option::None => Option::None,
            Option::Some(v) => Option::Some(IntoSharedBorrow::into(v)),
        }
    }
}

impl<'a, T: IntoExclusiveBorrow<'a>> IntoExclusiveBorrow<'a> for Option<T> {
    type Exclusive = Option<T::Exclusive>;

    open spec fn exclusive_ok(source: Option<T>, r: Option<T::Exclusive>) -> bool {
        match source {
            Option::None => r is None,
            Option::Some(v) => r matches Option::Some(s) && T::exclusive_ok(v, s),
        }
    }

    fn into(&'a mut self) -> (r: Option<T::Exclusive>) {
        match self {
            Option::None => Option::None,
            Option::Some(v) => Option::Some(IntoExclusiveBorrow::into(v)),
        }
    }
}

impl<'a, O: IntoSharedBorrow<'a>, E: IntoSharedBorrow<'a>> IntoSharedBorrow<'a> for Result<O, E> {
    type Shared = Result<O::Shared, E::Shared>;

    open spec fn shared_ok(source: Result<O, E>, r: Result<O::Shared, E::Shared>) -> bool {
        match source {
            Result::Ok(o) => r matches Result::Ok(s) && O::shared_ok(o, s),
            Result::Err(e) => r matches Result::Err(s) && E::shared_ok(e, s),
        }
    }

    fn into(&'a self) -> (r: Result<O::Shared, E::Shared>) {
        match self {
            Result::Ok(o) => Result::Ok(IntoSharedBorrow::into(o)),
            Result::Err(e) => Result::Err(IntoSharedBorrow::into(e)),
        }
    }
}

impl<'a, O: IntoExclusiveBorrow<'a>, E: IntoExclusiveBorrow<'a>> IntoExclusiveBorrow<'a> for Result<O, E> {
    type Exclusive = Result<O::Exclusive, E::Exclusive>;

    open spec fn exclusive_ok(source: Result<O, E>, r: Result<O::Exclusive, E::Exclusive>) -> bool {
        match source {
            Result::Ok(o) => r matches Result::Ok(s) && O::exclusive_ok(o, s),
            Result::Err(e) => r matches Result::Err(s) && E::exclusive_ok(e, s),
        }
    }

    fn into(&'a mut self) -> (r: Result<O::Exclusive, E::Exclusive>) {
        match self {
            Result::Ok(o) => Result::Ok(IntoExclusiveBorrow::into(o)),
            Result::Err(e) => Result::Err(IntoExclusiveBorrow::into(e)),
        }
    }
}

/// Field-adaptation composition over an optional reference-counted field:
/// the shared view of an `Option<Rc<T>>` field preserves `None` as `None`,
/// and adapts `Some(handle)` to `Some(token)` where the token stands for
/// the handle's backing value.
pub proof fn lemma_option_handle_composition<'a, T>(
    source: Option<std::rc::Rc<T>>,
    r: Option<crate::handles::RcValrow<'a, T>>,
)
    requires
        <Option<std::rc::Rc<T>> as IntoSharedBorrow<'a>>::shared_ok(source, r),
    ensures
        source is None <==> r is None,
        source matches Option::Some(h) ==> r matches Option::Some(tok) && tok@ == *h,
{
}

} // verus!
