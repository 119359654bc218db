use crate::opaque::Opaque;
use vstd::prelude::*;

verus! {

/// Capability: a bit pattern of `O` may validly be reinterpreted as `Self`.
///
/// This is a compile-time marker consumed as a proof of layout
/// compatibility by the token machinery; it is never invoked at runtime,
/// and a missing implementation is a build failure, not a runtime error.
/// Declaring it for a pair of types is an assertion the implementer must
/// uphold: the two types agree on size, alignment and valid bit patterns,
/// and reading an `O` pattern at type `Self` respects both types' own
/// invariants. The built-in derivations are reflexivity and the reference
/// downgrades below; every other pair is declared per type by whoever can
/// vouch for it.
pub trait TransmutableFrom<O> {

}

/// Every type can be reinterpreted as itself.
impl<T> TransmutableFrom<T> for T {

}

/// An exclusive reference can be reborrowed as a shared reference.
impl<'a, T> TransmutableFrom<&'a mut T> for &'a T {

}

/// A value can be reinterpreted as the opaque wrapper around it: the
/// wrapper holds exactly one field of the wrapped type.
impl<T> TransmutableFrom<T> for Opaque<T> {

}

/// A shared reference can be reinterpreted as a shared reference to the
/// opaque wrapper around its target.
impl<'a, T> TransmutableFrom<&'a T> for &'a Opaque<T> {

}

/// An exclusive reference can be reinterpreted as an exclusive reference
/// to the opaque wrapper around its target.
impl<'a, T> TransmutableFrom<&'a mut T> for &'a mut Opaque<T> {

}

/// Capability: a bit pattern of `Self` may validly be reinterpreted as `O`.
/// The mirror image of [`TransmutableFrom`], derived from it wholesale.
pub trait TransmutableInto<O> {

}

impl<T, O: TransmutableFrom<T>> TransmutableInto<O> for T {

}

} // verus!
