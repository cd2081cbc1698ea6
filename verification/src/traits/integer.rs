//! `Integer`: the marker of the built-in integer types.

use super::scalar::Scalar;
use super::scalar::ScalarType;
use super::signed::Signed;
use super::unsigned::Unsigned;
use vstd::prelude::*;

verus! {

/// Marks the built-in integer types, of every width, signed and unsigned.
///
/// The trait is closed: no other crate can implement it.
pub trait Integer: Scalar {
    /// The type is, in the table of the scalar types, an integer type.
    proof fn lemma_is_integer()
        ensures
            Self::scalar_type().is_integer(),
    ;
}

impl Integer for i8 {
    proof fn lemma_is_integer() {
    }
}

impl Integer for u8 {
    proof fn lemma_is_integer() {
    }
}

impl Integer for i16 {
    proof fn lemma_is_integer() {
    }
}

impl Integer for u16 {
    proof fn lemma_is_integer() {
    }
}

impl Integer for i32 {
    proof fn lemma_is_integer() {
    }
}

impl Integer for u32 {
    proof fn lemma_is_integer() {
    }
}

impl Integer for i64 {
    proof fn lemma_is_integer() {
    }
}

impl Integer for u64 {
    proof fn lemma_is_integer() {
    }
}

impl Integer for i128 {
    proof fn lemma_is_integer() {
    }
}

impl Integer for u128 {
    proof fn lemma_is_integer() {
    }
}

impl Integer for isize {
    proof fn lemma_is_integer() {
    }
}

impl Integer for usize {
    proof fn lemma_is_integer() {
    }
}

/// The place in the table of a type that carries `Integer` and `Signed`.
pub open spec fn signed_integer<T: Integer + Signed>() -> ScalarType {
    T::scalar_type()
}

/// The place in the table of a type that carries `Integer` and `Unsigned`.
pub open spec fn unsigned_integer<T: Integer + Unsigned>() -> ScalarType {
    T::scalar_type()
}

/// A type that carries `Integer` is, by the table, signed or unsigned and not
/// both.
pub proof fn lemma_integer_is_signed_or_unsigned<T: Integer>()
    ensures
        T::scalar_type().is_signed() != T::scalar_type().is_unsigned(),
{
    T::lemma_is_integer();
}

/// Each integer type of the table is signed or unsigned and not both, and is
/// the place of a built-in type that carries `Integer` and the marker of its
/// sign.
pub proof fn lemma_integer_types_carry_one_sign_marker(t: ScalarType)
    requires
        t.is_integer(),
    ensures
        t.is_signed() != t.is_unsigned(),
        t.is_signed() ==> {
            ||| t == signed_integer::<i8>()
            ||| t == signed_integer::<i16>()
            ||| t == signed_integer::<i32>()
            ||| t == signed_integer::<i64>()
            ||| t == signed_integer::<i128>()
            ||| t == signed_integer::<isize>()
        },
        t.is_unsigned() ==> {
            ||| t == unsigned_integer::<u8>()
            ||| t == unsigned_integer::<u16>()
            ||| t == unsigned_integer::<u32>()
            ||| t == unsigned_integer::<u64>()
            ||| t == unsigned_integer::<u128>()
            ||| t == unsigned_integer::<usize>()
        },
{
}

} // verus!
