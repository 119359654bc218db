use crate::borrowable::Borrowable;
use crate::into_borrow::IntoExclusiveBorrow;
use crate::into_borrow::IntoSharedBorrow;
use vstd::prelude::*;

verus! {

/// Compile-time assertion that a type is `Copy`, for use beside an identity
/// [`Borrowable`] implementation: a type borrowed by plain copy must be
/// copyable, and must not carry direct interior mutability.
pub fn copyable<T: Copy>() {
}

/// Capability relating a pair type `(A, B)` whose two components are the
/// same type. Consumed as a compile-time proof by code that requires two
/// type-level descriptions to agree; never invoked at runtime.
pub trait AreSameType {

}

impl<T> AreSameType for (T, T) {

}

impl Borrowable for bool {
    type Abi = bool;

    open spec fn abi_of(self) -> bool {
        self
    }

    proof fn abi_faithful() {
    }

    proof fn abi_layout() {
    }

    fn to_abi(&self) -> (r: bool) {
        *self
    }

    fn from_abi(abi: &bool) -> (r: &bool) {
        abi
    }

    fn from_abi_mut(abi: &mut bool) -> (r: &mut bool) {
        abi
    }
}

impl Borrowable for char {
    type Abi = char;

    open spec fn abi_of(self) -> char {
        self
    }

    proof fn abi_faithful() {
    }

    proof fn abi_layout() {
    }

    fn to_abi(&self) -> (r: char) {
        *self
    }

    fn from_abi(abi: &char) -> (r: &char) {
        abi
    }

    fn from_abi_mut(abi: &mut char) -> (r: &mut char) {
        abi
    }
}

impl Borrowable for i8 {
    type Abi = i8;

    open spec fn abi_of(self) -> i8 {
        self
    }

    proof fn abi_faithful() {
    }

    proof fn abi_layout() {
    }

    fn to_abi(&self) -> (r: i8) {
        *self
    }

    fn from_abi(abi: &i8) -> (r: &i8) {
        abi
    }

    fn from_abi_mut(abi: &mut i8) -> (r: &mut i8) {
        abi
    }
}

impl Borrowable for i16 {
    type Abi = i16;

    open spec fn abi_of(self) -> i16 {
        self
    }

    proof fn abi_faithful() {
    }

    proof fn abi_layout() {
    }

    fn to_abi(&self) -> (r: i16) {
        *self
    }

    fn from_abi(abi: &i16) -> (r: &i16) {
        abi
    }

    fn from_abi_mut(abi: &mut i16) -> (r: &mut i16) {
        abi
    }
}

impl Borrowable for i32 {
    type Abi = i32;

    open spec fn abi_of(self) -> i32 {
        self
    }

    proof fn abi_faithful() {
    }

    proof fn abi_layout() {
    }

    fn to_abi(&self) -> (r: i32) {
        *self
    }

    fn from_abi(abi: &i32) -> (r: &i32) {
        abi
    }

    fn from_abi_mut(abi: &mut i32) -> (r: &mut i32) {
        abi
    }
}

impl Borrowable for i64 {
    type Abi = i64;

    open spec fn abi_of(self) -> i64 {
        self
    }

    proof fn abi_faithful() {
    }

    proof fn abi_layout() {
    }

    fn to_abi(&self) -> (r: i64) {
        *self
    }

    fn from_abi(abi: &i64) -> (r: &i64) {
        abi
    }

    fn from_abi_mut(abi: &mut i64) -> (r: &mut i64) {
        abi
    }
}

impl Borrowable for i128 {
    type Abi = i128;

    open spec fn abi_of(self) -> i128 {
        self
    }

    proof fn abi_faithful() {
    }

    proof fn abi_layout() {
    }

    fn to_abi(&self) -> (r: i128) {
        *self
    }

    fn from_abi(abi: &i128) -> (r: &i128) {
        abi
    }

    fn from_abi_mut(abi: &mut i128) -> (r: &mut i128) {
        abi
    }
}

impl Borrowable for isize {
    type Abi = isize;

    open spec fn abi_of(self) -> isize {
        self
    }

    proof fn abi_faithful() {
    }

    proof fn abi_layout() {
    }

    fn to_abi(&self) -> (r: isize) {
        *self
    }

    fn from_abi(abi: &isize) -> (r: &isize) {
        abi
    }

    fn from_abi_mut(abi: &mut isize) -> (r: &mut isize) {
        abi
    }
}

impl Borrowable for u8 {
    type Abi = u8;

    open spec fn abi_of(self) -> u8 {
        self
    }

    proof fn abi_faithful() {
    }

    proof fn abi_layout() {
    }

    fn to_abi(&self) -> (r: u8) {
        *self
    }

    fn from_abi(abi: &u8) -> (r: &u8) {
        abi
    }

    fn from_abi_mut(abi: &mut u8) -> (r: &mut u8) {
        abi
    }
}

impl Borrowable for u16 {
    type Abi = u16;

    open spec fn abi_of(self) -> u16 {
        self
    }

    proof fn abi_faithful() {
    }

    proof fn abi_layout() {
    }

    fn to_abi(&self) -> (r: u16) {
        *self
    }

    fn from_abi(abi: &u16) -> (r: &u16) {
        abi
    }

    fn from_abi_mut(abi: &mut u16) -> (r: &mut u16) {
        abi
    }
}

impl Borrowable for u32 {
    type Abi = u32;

    open spec fn abi_of(self) -> u32 {
        self
    }

    proof fn abi_faithful() {
    }

    proof fn abi_layout() {
    }

    fn to_abi(&self) -> (r: u32) {
        *self
    }

    fn from_abi(abi: &u32) -> (r: &u32) {
        abi
    }

    fn from_abi_mut(abi: &mut u32) -> (r: &mut u32) {
        abi
    }
}

impl Borrowable for u64 {
    type Abi = u64;

    open spec fn abi_of(self) -> u64 {
        self
    }

    proof fn abi_faithful() {
    }

    proof fn abi_layout() {
    }

    fn to_abi(&self) -> (r: u64) {
        *self
    }

    fn from_abi(abi: &u64) -> (r: &u64) {
        abi
    }

    fn from_abi_mut(abi: &mut u64) -> (r: &mut u64) {
        abi
    }
}

impl Borrowable for u128 {
    type Abi = u128;

    open spec fn abi_of(self) -> u128 {
        self
    }

    proof fn abi_faithful() {
    }

    proof fn abi_layout() {
    }

    fn to_abi(&self) -> (r: u128) {
        *self
    }

    fn from_abi(abi: &u128) -> (r: &u128) {
        abi
    }

    fn from_abi_mut(abi: &mut u128) -> (r: &mut u128) {
        abi
    }
}

impl Borrowable for usize {
    type Abi = usize;

    open spec fn abi_of(self) -> usize {
        self
    }

    proof fn abi_faithful() {
    }

    proof fn abi_layout() {
    }

    fn to_abi(&self) -> (r: usize) {
        *self
    }

    fn from_abi(abi: &usize) -> (r: &usize) {
        abi
    }

    fn from_abi_mut(abi: &mut usize) -> (r: &mut usize) {
        abi
    }
}

impl<'a> IntoSharedBorrow<'a> for bool {
    type Shared = bool;

    open spec fn shared_ok(source: bool, r: bool) -> bool {
        r == source
    }

    fn into(&'a self) -> (r: bool) {
        *self
    }
}

impl<'a> IntoExclusiveBorrow<'a> for bool {
    type Exclusive = bool;

    open spec fn exclusive_ok(source: bool, r: bool) -> bool {
        r == source
    }

    fn into(&'a mut self) -> (r: bool) {
        *self
    }
}

impl<'a> IntoSharedBorrow<'a> for char {
    type Shared = char;

    open spec fn shared_ok(source: char, r: char) -> bool {
        r == source
    }

    fn into(&'a self) -> (r: char) {
        *self
    }
}

impl<'a> IntoExclusiveBorrow<'a> for char {
    type Exclusive = char;

    open spec fn exclusive_ok(source: char, r: char) -> bool {
        r == source
    }

    fn into(&'a mut self) -> (r: char) {
        *self
    }
}

impl<'a> IntoSharedBorrow<'a> for i8 {
    type Shared = i8;

    open spec fn shared_ok(source: i8, r: i8) -> bool {
        r == source
    }

    fn into(&'a self) -> (r: i8) {
        *self
    }
}

impl<'a> IntoExclusiveBorrow<'a> for i8 {
    type Exclusive = i8;

    open spec fn exclusive_ok(source: i8, r: i8) -> bool {
        r == source
    }

    fn into(&'a mut self) -> (r: i8) {
        *self
    }
}

impl<'a> IntoSharedBorrow<'a> for i16 {
    type Shared = i16;

    open spec fn shared_ok(source: i16, r: i16) -> bool {
        r == source
    }

    fn into(&'a self) -> (r: i16) {
        *self
    }
}

impl<'a> IntoExclusiveBorrow<'a> for i16 {
    type Exclusive = i16;

    open spec fn exclusive_ok(source: i16, r: i16) -> bool {
        r == source
    }

    fn into(&'a mut self) -> (r: i16) {
        *self
    }
}

impl<'a> IntoSharedBorrow<'a> for i32 {
    type Shared = i32;

    open spec fn shared_ok(source: i32, r: i32) -> bool {
        r == source
    }

    fn into(&'a self) -> (r: i32) {
        *self
    }
}

impl<'a> IntoExclusiveBorrow<'a> for i32 {
    type Exclusive = i32;

    open spec fn exclusive_ok(source: i32, r: i32) -> bool {
        r == source
    }

    fn into(&'a mut self) -> (r: i32) {
        *self
    }
}

impl<'a> IntoSharedBorrow<'a> for i64 {
    type Shared = i64;

    open spec fn shared_ok(source: i64, r: i64) -> bool {
        r == source
    }

    fn into(&'a self) -> (r: i64) {
        *self
    }
}

impl<'a> IntoExclusiveBorrow<'a> for i64 {
    type Exclusive = i64;

    open spec fn exclusive_ok(source: i64, r: i64) -> bool {
        r == source
    }

    fn into(&'a mut self) -> (r: i64) {
        *self
    }
}

impl<'a> IntoSharedBorrow<'a> for i128 {
    type Shared = i128;

    open spec fn shared_ok(source: i128, r: i128) -> bool {
        r == source
    }

    fn into(&'a self) -> (r: i128) {
        *self
    }
}

impl<'a> IntoExclusiveBorrow<'a> for i128 {
    type Exclusive = i128;

    open spec fn exclusive_ok(source: i128, r: i128) -> bool {
        r == source
    }

    fn into(&'a mut self) -> (r: i128) {
        *self
    }
}

impl<'a> IntoSharedBorrow<'a> for isize {
    type Shared = isize;

    open spec fn shared_ok(source: isize, r: isize) -> bool {
        r == source
    }

    fn into(&'a self) -> (r: isize) {
        *self
    }
}

impl<'a> IntoExclusiveBorrow<'a> for isize {
    type Exclusive = isize;

    open spec fn exclusive_ok(source: isize, r: isize) -> bool {
        r == source
    }

    fn into(&'a mut self) -> (r: isize) {
        *self
    }
}

impl<'a> IntoSharedBorrow<'a> for u8 {
    type Shared = u8;

    open spec fn shared_ok(source: u8, r: u8) -> bool {
        r == source
    }

    fn into(&'a self) -> (r: u8) {
        *self
    }
}

impl<'a> IntoExclusiveBorrow<'a> for u8 {
    type Exclusive = u8;

    open spec fn exclusive_ok(source: u8, r: u8) -> bool {
        r == source
    }

    fn into(&'a mut self) -> (r: u8) {
        *self
    }
}

impl<'a> IntoSharedBorrow<'a> for u16 {
    type Shared = u16;

    open spec fn shared_ok(source: u16, r: u16) -> bool {
        r == source
    }

    fn into(&'a self) -> (r: u16) {
        *self
    }
}

impl<'a> IntoExclusiveBorrow<'a> for u16 {
    type Exclusive = u16;

    open spec fn exclusive_ok(source: u16, r: u16) -> bool {
        r == source
    }

    fn into(&'a mut self) -> (r: u16) {
        *self
    }
}

impl<'a> IntoSharedBorrow<'a> for u32 {
    type Shared = u32;

    open spec fn shared_ok(source: u32, r: u32) -> bool {
        r == source
    }

    fn into(&'a self) -> (r: u32) {
        *self
    }
}

impl<'a> IntoExclusiveBorrow<'a> for u32 {
    type Exclusive = u32;

    open spec fn exclusive_ok(source: u32, r: u32) -> bool {
        r == source
    }

    fn into(&'a mut self) -> (r: u32) {
        *self
    }
}

impl<'a> IntoSharedBorrow<'a> for u64 {
    type Shared = u64;

    open spec fn shared_ok(source: u64, r: u64) -> bool {
        r == source
    }

    fn into(&'a self) -> (r: u64) {
        *self
    }
}

impl<'a> IntoExclusiveBorrow<'a> for u64 {
    type Exclusive = u64;

    open spec fn exclusive_ok(source: u64, r: u64) -> bool {
        r == source
    }

    fn into(&'a mut self) -> (r: u64) {
        *self
    }
}

impl<'a> IntoSharedBorrow<'a> for u128 {
    type Shared = u128;

    open spec fn shared_ok(source: u128, r: u128) -> bool {
        r == source
    }

    fn into(&'a self) -> (r: u128) {
        *self
    }
}

impl<'a> IntoExclusiveBorrow<'a> for u128 {
    type Exclusive = u128;

    open spec fn exclusive_ok(source: u128, r: u128) -> bool {
        r == source
    }

    fn into(&'a mut self) -> (r: u128) {
        *self
    }
}

impl<'a> IntoSharedBorrow<'a> for usize {
    type Shared = usize;

    open spec fn shared_ok(source: usize, r: usize) -> bool {
        r == source
    }

    fn into(&'a self) -> (r: usize) {
        *self
    }
}

impl<'a> IntoExclusiveBorrow<'a> for usize {
    type Exclusive = usize;

    open spec fn exclusive_ok(source: usize, r: usize) -> bool {
        r == source
    }

    fn into(&'a mut self) -> (r: usize) {
        *self
    }
}

} // verus!
