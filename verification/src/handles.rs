use std::rc::Rc;
use std::sync::Arc;
use vstd::prelude::*;

verus! {

/// A by-value borrow of a single-threaded reference-counted handle.
///
/// Copying such a handle the ordinary way would bump its reference count;
/// this token instead keeps only the address of the shared backing
/// allocation, taken here as a borrow of the pointee. It is freely
/// copyable — every copy dereferences to the same backing value — and
/// constructing, copying or dropping it never changes the handle's strong
/// or weak count.
pub struct RcValrow<'a, T> {
    target: &'a T,
}

impl<'a, T> View for RcValrow<'a, T> {
    type V = T;

    /// The backing value the borrowed handle points to.
    closed spec fn view(&self) -> T {
        *self.target
    }
}

impl<'a, T> RcValrow<'a, T> {
    /// Borrow `*handle` by value, without touching its reference counts.
    pub fn new(handle: &'a Rc<T>) -> (r: Self)
        ensures
            r@ == **handle,
    {
        RcValrow { target: &**handle }
    }

    /// The shared backing value.
    pub fn as_ref(&self) -> (r: &T)
        ensures
            *r == self@,
    {
        self.target
    }
}

impl<'a, T> Clone for RcValrow<'a, T> {
    /// A copy of the token: same backing allocation, same value.
    fn clone(&self) -> (r: Self)
        ensures
            r == *self,
    {
        RcValrow { target: self.target }
    }
}

impl<'a, T> Copy for RcValrow<'a, T> {

}

/// A by-value borrow of an atomically reference-counted handle: the
/// multi-threaded counterpart of [`RcValrow`], with the same contract.
pub struct ArcValrow<'a, T> {
    target: &'a T,
}

impl<'a, T> View for ArcValrow<'a, T> {
    type V = T;

    /// The backing value the borrowed handle points to.
    closed spec fn view(&self) -> T {
        *self.target
    }
}

impl<'a, T> ArcValrow<'a, T> {
    /// Borrow `*handle` by value, without touching its reference counts.
    pub fn new(handle: &'a Arc<T>) -> (r: Self)
        ensures
            r@ == **handle,
    {
        ArcValrow { target: &**handle }
    }

    /// The shared backing value.
    pub fn as_ref(&self) -> (r: &T)
        ensures
            *r == self@,
    {
        self.target
    }
}

impl<'a, T> Clone for ArcValrow<'a, T> {
    /// A copy of the token: same backing allocation, same value.
    fn clone(&self) -> (r: Self)
        ensures
            r == *self,
    {
        ArcValrow { target: self.target }
    }
}

impl<'a, T> Copy for ArcValrow<'a, T> {

}

} // verus!
