//! Borrow-by-value tokens: copyable stand-ins for borrowed values.
//!
//! A type opts in through the [`Borrowable`] capability, which names a
//! copyable shadow representation (`Abi`) that is layout-identical to the
//! type itself. A [`Valrow`] is then a copyable token built from a shared
//! borrow — usable in place of the borrowed value without touching any
//! reference count — and [`ValrowMut`] is its exclusive counterpart,
//! restricted to zero-sized types. Aggregates expose borrowed views of
//! themselves one field at a time through the adaptation capabilities
//! ([`IntoSharedBorrow`], [`IntoExclusiveBorrow`]) and the per-field
//! policies of [`ByCopy`], [`ByClone`], [`ByDiscard`], [`ByOpaque`] and
//! [`ByRef`], with [`Opaque`] standing in for contents that must not be
//! read back.

mod adapt;
mod borrowable;
mod copyable;
mod field;
mod handles;
mod into_borrow;
mod opaque;
mod transmutable;
mod valrow;
mod valrow_mut;

pub use adapt::ByClone;
pub use adapt::ByCopy;
pub use adapt::ByDiscard;
pub use adapt::ByOpaque;
pub use adapt::ByRef;
pub use borrowable::lemma_borrowable_layout;
pub use borrowable::Borrowable;
pub use copyable::copyable;
pub use copyable::AreSameType;
pub use field::exclusive;
pub use field::shared;
pub use field::Exclusive;
pub use field::IntoExclusive;
pub use field::IntoShared;
pub use field::Shared;
pub use handles::ArcValrow;
pub use handles::RcValrow;
pub use into_borrow::lemma_option_handle_composition;
pub use into_borrow::IntoExclusiveBorrow;
pub use into_borrow::IntoSharedBorrow;
pub use opaque::Opaque;
pub use transmutable::TransmutableFrom;
pub use transmutable::TransmutableInto;
pub use valrow::lemma_copy_independence;
pub use valrow::Valrow;
pub use valrow_mut::ValrowMut;
