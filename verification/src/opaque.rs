use crate::borrowable::Borrowable;
use vstd::prelude::*;

verus! {

/// An inaccessible value, kept for its layout alone.
///
/// The wrapper takes ownership of a value and deliberately exposes no
/// accessor that would hand it back: the contents exist only to keep the
/// wrapper layout-compatible with what it replaced. A by-value borrow of
/// an aggregate uses it where a field's current contents must not be
/// surfaced — a snapshot of such a field could be stale or half-written,
/// so the borrowed view carries an opaque placeholder of the same shape
/// instead.
///
/// The held value remains visible to specifications through
/// [`Opaque::inner_spec`]; ghost visibility reads nothing at runtime.
#[derive(Clone, Copy, Default)]
pub struct Opaque<T = ()> {
    inner: T,
}

impl<T> Opaque<T> {
    /// What the wrapper holds, visible to specifications only.
    pub closed spec fn inner_spec(self) -> T {
        self.inner
    }

    /// Wrap a value, making it permanently unreadable through this wrapper.
    pub fn new(value: T) -> (r: Self)
        ensures
            r.inner_spec() == value,
    {
        Opaque { inner: value }
    }
}

impl<T: Copy> Borrowable for Opaque<T> {
    type Abi = Opaque<T>;

    open spec fn abi_of(self) -> Opaque<T> {
        self
    }

    proof fn abi_faithful() {
    }

    proof fn abi_layout() {
    }

    fn to_abi(&self) -> (r: Opaque<T>) {
        *self
    }

    fn from_abi<'b>(abi: &'b Opaque<T>) -> (r: &'b Opaque<T>) {
        abi
    }

    fn from_abi_mut<'b>(abi: &'b mut Opaque<T>) -> (r: &'b mut Opaque<T>) {
        abi
    }
}

impl<T> From<T> for Opaque<T> {
    /// Wrap a value, as [`Opaque::new`] does.
    fn from(value: T) -> (r: Self) {
        Opaque::new(value)
    }
}

impl<T> vstd::std_specs::convert::FromSpecImpl<T> for Opaque<T> {
    open spec fn obeys_from_spec() -> bool {
        true
    }

    closed spec fn from_spec(value: T) -> Self {
        Opaque { inner: value }
    }
}

} // verus!
