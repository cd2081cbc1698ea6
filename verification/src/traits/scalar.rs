//! `Scalar`: the marker of the built-in scalar types, and the table that
//! says of each of them which markers it carries.

use super::sealed::Sealed;
use vstd::prelude::*;

verus! {

/// The built-in scalar types, as values that a specification can speak of.
///
/// The table has the two floating-point types too, though nothing in this
/// crate is implemented for them.
pub enum ScalarType {
    Bool,
    Char,
    I8,
    U8,
    I16,
    U16,
    I32,
    U32,
    I64,
    U64,
    I128,
    U128,
    ISize,
    USize,
    F32,
    F64,
}

impl ScalarType {
    /// Whether the type is one of the twelve integer types.
    pub open spec fn is_integer(self) -> bool {
        self.is_signed_integer() || self.is_unsigned()
    }

    /// Whether the type is a number type: an integer or a floating-point
    /// type.
    pub open spec fn is_numeric(self) -> bool {
        self.is_integer() || self.is_real()
    }

    /// Whether the type is a floating-point type.
    pub open spec fn is_real(self) -> bool {
        self is F32 || self is F64
    }

    /// Whether the type has negative values: a signed integer or a
    /// floating-point type.
    pub open spec fn is_signed(self) -> bool {
        self.is_signed_integer() || self.is_real()
    }

    /// Whether the type is an integer type with negative values.
    pub open spec fn is_signed_integer(self) -> bool {
        self is I8 || self is I16 || self is I32 || self is I64 || self is I128 || self is ISize
    }

    /// Whether the type is an integer type without negative values.
    pub open spec fn is_unsigned(self) -> bool {
        self is U8 || self is U16 || self is U32 || self is U64 || self is U128 || self is USize
    }
}

/// Marks the built-in scalar types: `bool`, `char` and the integer types.
///
/// The trait is closed: no other crate can implement it, nor any of the
/// markers below it.
pub trait Scalar: Sealed {
    /// Which of the built-in scalar types `Self` is.
    spec fn scalar_type() -> ScalarType;
}

impl Scalar for bool {
    open spec fn scalar_type() -> ScalarType {
        ScalarType::Bool
    }
}

impl Scalar for char {
    open spec fn scalar_type() -> ScalarType {
        ScalarType::Char
    }
}

impl Scalar for i8 {
    open spec fn scalar_type() -> ScalarType {
        ScalarType::I8
    }
}

impl Scalar for u8 {
    open spec fn scalar_type() -> ScalarType {
        ScalarType::U8
    }
}

impl Scalar for i16 {
    open spec fn scalar_type() -> ScalarType {
        ScalarType::I16
    }
}

impl Scalar for u16 {
    open spec fn scalar_type() -> ScalarType {
        ScalarType::U16
    }
}

impl Scalar for i32 {
    open spec fn scalar_type() -> ScalarType {
        ScalarType::I32
    }
}

impl Scalar for u32 {
    open spec fn scalar_type() -> ScalarType {
        ScalarType::U32
    }
}

impl Scalar for i64 {
    open spec fn scalar_type() -> ScalarType {
        ScalarType::I64
    }
}

impl Scalar for u64 {
    open spec fn scalar_type() -> ScalarType {
        ScalarType::U64
    }
}

impl Scalar for i128 {
    open spec fn scalar_type() -> ScalarType {
        ScalarType::I128
    }
}

impl Scalar for u128 {
    open spec fn scalar_type() -> ScalarType {
        ScalarType::U128
    }
}

impl Scalar for isize {
    open spec fn scalar_type() -> ScalarType {
        ScalarType::ISize
    }
}

impl Scalar for usize {
    open spec fn scalar_type() -> ScalarType {
        ScalarType::USize
    }
}

} // verus!
