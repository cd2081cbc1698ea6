//! `Unsigned`: the marker of the built-in types without negative values.

use super::scalar::Scalar;
use vstd::prelude::*;

verus! {

/// Marks the built-in integer types that have no negative values.
///
/// The trait is closed: no other crate can implement it.
pub trait Unsigned: Scalar {
    /// The type is, in the table of the scalar types, an unsigned type.
    proof fn lemma_is_unsigned()
        ensures
            Self::scalar_type().is_unsigned(),
    ;
}

impl Unsigned for u8 {
    proof fn lemma_is_unsigned() {
    }
}

impl Unsigned for u16 {
    proof fn lemma_is_unsigned() {
    }
}

impl Unsigned for u32 {
    proof fn lemma_is_unsigned() {
    }
}

impl Unsigned for u64 {
    proof fn lemma_is_unsigned() {
    }
}

impl Unsigned for u128 {
    proof fn lemma_is_unsigned() {
    }
}

impl Unsigned for usize {
    proof fn lemma_is_unsigned() {
    }
}

/// A type that carries `Unsigned` is unsigned by the table, and so is not
/// signed.
pub proof fn lemma_unsigned_is_not_signed<T: Unsigned>()
    ensures
        T::scalar_type().is_unsigned(),
        !T::scalar_type().is_signed(),
{
    T::lemma_is_unsigned();
}

} // verus!
