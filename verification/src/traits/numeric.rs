//! `Numeric`: the marker of the built-in number types.

use super::scalar::Scalar;
use vstd::prelude::*;

verus! {

/// Marks the built-in number types. In this crate those are the integer
/// types.
///
/// The trait is closed: no other crate can implement it.
pub trait Numeric: Scalar {
    /// The type is, in the table of the scalar types, a number type.
    proof fn lemma_is_numeric()
        ensures
            Self::scalar_type().is_numeric(),
    ;
}

impl Numeric for i8 {
    proof fn lemma_is_numeric() {
    }
}

impl Numeric for u8 {
    proof fn lemma_is_numeric() {
    }
}

impl Numeric for i16 {
    proof fn lemma_is_numeric() {
    }
}

impl Numeric for u16 {
    proof fn lemma_is_numeric() {
    }
}

impl Numeric for i32 {
    proof fn lemma_is_numeric() {
    }
}

impl Numeric for u32 {
    proof fn lemma_is_numeric() {
    }
}

impl Numeric for i64 {
    proof fn lemma_is_numeric() {
    }
}

impl Numeric for u64 {
    proof fn lemma_is_numeric() {
    }
}

impl Numeric for i128 {
    proof fn lemma_is_numeric() {
    }
}

impl Numeric for u128 {
    proof fn lemma_is_numeric() {
    }
}

impl Numeric for isize {
    proof fn lemma_is_numeric() {
    }
}

impl Numeric for usize {
    proof fn lemma_is_numeric() {
    }
}

} // verus!
