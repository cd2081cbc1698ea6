//! `Zero`: the zero of a type.

use super::is_zero::IsZero;
use vstd::prelude::*;

verus! {

/// A type that has a zero and can make it.
///
/// Among the built-in types it is implemented for the integer types and for
/// `char`, whose zero is `'\0'`.
pub trait Zero: Sized {
    /// Whether the implementation vouches that `zero` gives what
    /// `zero_spec` says. One that does not say so vouches for nothing.
    open spec fn obeys_zero_spec() -> bool {
        false
    }

    /// The zero of the type.
    open spec fn zero_spec() -> Self {
        arbitrary()
    }

    /// Makes the zero of the type.
    fn zero() -> (r: Self)
        ensures
            Self::obeys_zero_spec() ==> r == Self::zero_spec(),
    ;
}

impl Zero for i8 {
    open spec fn obeys_zero_spec() -> bool {
        true
    }

    open spec fn zero_spec() -> Self {
        0
    }

    fn zero() -> (r: Self) {
        0
    }
}

impl Zero for i16 {
    open spec fn obeys_zero_spec() -> bool {
        true
    }

    open spec fn zero_spec() -> Self {
        0
    }

    fn zero() -> (r: Self) {
        0
    }
}

impl Zero for i32 {
    open spec fn obeys_zero_spec() -> bool {
        true
    }

    open spec fn zero_spec() -> Self {
        0
    }

    fn zero() -> (r: Self) {
        0
    }
}

impl Zero for i64 {
    open spec fn obeys_zero_spec() -> bool {
        true
    }

    open spec fn zero_spec() -> Self {
        0
    }

    fn zero() -> (r: Self) {
        0
    }
}

impl Zero for i128 {
    open spec fn obeys_zero_spec() -> bool {
        true
    }

    open spec fn zero_spec() -> Self {
        0
    }

    fn zero() -> (r: Self) {
        0
    }
}

impl Zero for u8 {
    open spec fn obeys_zero_spec() -> bool {
        true
    }

    open spec fn zero_spec() -> Self {
        0
    }

    fn zero() -> (r: Self) {
        0
    }
}

impl Zero for u16 {
    open spec fn obeys_zero_spec() -> bool {
        true
    }

    open spec fn zero_spec() -> Self {
        0
    }

    fn zero() -> (r: Self) {
        0
    }
}

impl Zero for u32 {
    open spec fn obeys_zero_spec() -> bool {
        true
    }

    open spec fn zero_spec() -> Self {
        0
    }

    fn zero() -> (r: Self) {
        0
    }
}

impl Zero for u64 {
    open spec fn obeys_zero_spec() -> bool {
        true
    }

    open spec fn zero_spec() -> Self {
        0
    }

    fn zero() -> (r: Self) {
        0
    }
}

impl Zero for u128 {
    open spec fn obeys_zero_spec() -> bool {
        true
    }

    open spec fn zero_spec() -> Self {
        0
    }

    fn zero() -> (r: Self) {
        0
    }
}

impl Zero for isize {
    open spec fn obeys_zero_spec() -> bool {
        true
    }

    open spec fn zero_spec() -> Self {
        0
    }

    fn zero() -> (r: Self) {
        0
    }
}

impl Zero for usize {
    open spec fn obeys_zero_spec() -> bool {
        true
    }

    open spec fn zero_spec() -> Self {
        0
    }

    fn zero() -> (r: Self) {
        0
    }
}

impl Zero for char {
    open spec fn obeys_zero_spec() -> bool {
        true
    }

    open spec fn zero_spec() -> Self {
        '\0'
    }

    fn zero() -> (r: Self) {
        '\0'
    }
}

/// Whether `T` vouches for making its zero and for telling it, and tells of
/// the zero it makes that it is zero.
pub open spec fn zero_is_zero<T: Zero + IsZero>() -> bool {
    &&& T::obeys_zero_spec()
    &&& T::zero_spec().obeys_is_zero_spec()
    &&& T::zero_spec().is_zero_spec()
}

/// The zero of each built-in type that has one is zero by that type's own
/// `IsZero`.
pub proof fn lemma_zero_is_zero()
    ensures
        zero_is_zero::<i8>(),
        zero_is_zero::<i16>(),
        zero_is_zero::<i32>(),
        zero_is_zero::<i64>(),
        zero_is_zero::<i128>(),
        zero_is_zero::<u8>(),
        zero_is_zero::<u16>(),
        zero_is_zero::<u32>(),
        zero_is_zero::<u64>(),
        zero_is_zero::<u128>(),
        zero_is_zero::<isize>(),
        zero_is_zero::<usize>(),
        zero_is_zero::<char>(),
{
}

} // verus!
