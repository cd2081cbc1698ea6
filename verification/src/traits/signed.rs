//! `Signed`: the marker of the built-in types with negative values.

use super::scalar::Scalar;
use vstd::prelude::*;

verus! {

/// Marks the built-in number types that have negative values. In this crate
/// those are the signed integer types.
///
/// The trait is closed: no other crate can implement it.
pub trait Signed: Scalar {
    /// The type is, in the table of the scalar types, a signed type.
    proof fn lemma_is_signed()
        ensures
            Self::scalar_type().is_signed(),
    ;
}

impl Signed for i8 {
    proof fn lemma_is_signed() {
    }
}

impl Signed for i16 {
    proof fn lemma_is_signed() {
    }
}

impl Signed for i32 {
    proof fn lemma_is_signed() {
    }
}

impl Signed for i64 {
    proof fn lemma_is_signed() {
    }
}

impl Signed for i128 {
    proof fn lemma_is_signed() {
    }
}

impl Signed for isize {
    proof fn lemma_is_signed() {
    }
}

/// A type that carries `Signed` is signed by the table, and so is not
/// unsigned.
pub proof fn lemma_signed_is_not_unsigned<T: Signed>()
    ensures
        T::scalar_type().is_signed(),
        !T::scalar_type().is_unsigned(),
{
    T::lemma_is_signed();
}

} // verus!
