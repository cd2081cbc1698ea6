//! The seal of the marker traits.

use vstd::prelude::*;

verus! {

/// Implemented for the built-in scalar types and for nothing else. A trait
/// that has it above it cannot be implemented outside this crate, so this
/// crate may give that trait to more built-in types later without breaking
/// anyone.
pub trait Sealed {
}

impl Sealed for bool {
}

impl Sealed for char {
}

impl Sealed for i8 {
}

impl Sealed for u8 {
}

impl Sealed for i16 {
}

impl Sealed for u16 {
}

impl Sealed for i32 {
}

impl Sealed for u32 {
}

impl Sealed for i64 {
}

impl Sealed for u64 {
}

impl Sealed for i128 {
}

impl Sealed for u128 {
}

impl Sealed for isize {
}

impl Sealed for usize {
}

} // verus!
