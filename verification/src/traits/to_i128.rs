//! `ToI128`: conversion into `i128` at little or no cost.

use std::rc::Rc;
use vstd::prelude::*;

verus! {

/// A type whose values can each be given as an `i128`.
///
/// The conversion is total and keeps the value: a type for which it could
/// fail, or could lose part of the value, does not implement this trait.
/// Among the built-in types it is implemented for `i128`, `i8`, `u8`, `i16`,
/// `u16`, `i32`, `u32`, `i64` and `u64`.
pub trait ToI128 {
    /// Whether the implementation vouches that `to_i128` gives what
    /// `to_i128_spec` says. One that does not say so vouches for nothing.
    open spec fn obeys_to_i128_spec(&self) -> bool {
        false
    }

    /// The `i128` that `self` stands for.
    open spec fn to_i128_spec(&self) -> i128 {
        arbitrary()
    }

    /// Gives `self` as an `i128`.
    fn to_i128(&self) -> (r: i128)
        ensures
            self.obeys_to_i128_spec() ==> r == self.to_i128_spec(),
    ;
}

/// A `Box` hands the call on to the value it holds: what it gives is what
/// that value's own implementation gives.
impl<T: ToI128 + ?Sized> ToI128 for Box<T> {
    open spec fn obeys_to_i128_spec(&self) -> bool {
        (**self).obeys_to_i128_spec()
    }

    open spec fn to_i128_spec(&self) -> i128 {
        (**self).to_i128_spec()
    }

    fn to_i128(&self) -> (r: i128)
        ensures
            call_ensures(T::to_i128, (&**self,), r),
    {
        (**self).to_i128()
    }
}

/// An `Rc` hands the call on to the value it holds: what it gives is what
/// that value's own implementation gives.
impl<T: ToI128 + ?Sized> ToI128 for Rc<T> {
    open spec fn obeys_to_i128_spec(&self) -> bool {
        (**self).obeys_to_i128_spec()
    }

    open spec fn to_i128_spec(&self) -> i128 {
        (**self).to_i128_spec()
    }

    fn to_i128(&self) -> (r: i128)
        ensures
            call_ensures(T::to_i128, (&**self,), r),
    {
        (**self).to_i128()
    }
}

impl ToI128 for i128 {
    open spec fn obeys_to_i128_spec(&self) -> bool {
        true
    }

    open spec fn to_i128_spec(&self) -> i128 {
        *self
    }

    fn to_i128(&self) -> (r: i128)
        ensures
            r == *self,
    {
        *self
    }
}

impl ToI128 for i8 {
    open spec fn obeys_to_i128_spec(&self) -> bool {
        true
    }

    open spec fn to_i128_spec(&self) -> i128 {
        *self as i128
    }

    fn to_i128(&self) -> (r: i128)
        ensures
            r == *self,
    {
        *self as i128
    }
}

impl ToI128 for u8 {
    open spec fn obeys_to_i128_spec(&self) -> bool {
        true
    }

    open spec fn to_i128_spec(&self) -> i128 {
        *self as i128
    }

    fn to_i128(&self) -> (r: i128)
        ensures
            r == *self,
    {
        *self as i128
    }
}

impl ToI128 for i16 {
    open spec fn obeys_to_i128_spec(&self) -> bool {
        true
    }

    open spec fn to_i128_spec(&self) -> i128 {
        *self as i128
    }

    fn to_i128(&self) -> (r: i128)
        ensures
            r == *self,
    {
        *self as i128
    }
}

impl ToI128 for u16 {
    open spec fn obeys_to_i128_spec(&self) -> bool {
        true
    }

    open spec fn to_i128_spec(&self) -> i128 {
        *self as i128
    }

    fn to_i128(&self) -> (r: i128)
        ensures
            r == *self,
    {
        *self as i128
    }
}

impl ToI128 for i32 {
    open spec fn obeys_to_i128_spec(&self) -> bool {
        true
    }

    open spec fn to_i128_spec(&self) -> i128 {
        *self as i128
    }

    fn to_i128(&self) -> (r: i128)
        ensures
            r == *self,
    {
        *self as i128
    }
}

impl ToI128 for u32 {
    open spec fn obeys_to_i128_spec(&self) -> bool {
        true
    }

    open spec fn to_i128_spec(&self) -> i128 {
        *self as i128
    }

    fn to_i128(&self) -> (r: i128)
        ensures
            r == *self,
    {
        *self as i128
    }
}

impl ToI128 for i64 {
    open spec fn obeys_to_i128_spec(&self) -> bool {
        true
    }

    open spec fn to_i128_spec(&self) -> i128 {
        *self as i128
    }

    fn to_i128(&self) -> (r: i128)
        ensures
            r == *self,
    {
        *self as i128
    }
}

impl ToI128 for u64 {
    open spec fn obeys_to_i128_spec(&self) -> bool {
        true
    }

    open spec fn to_i128_spec(&self) -> i128 {
        *self as i128
    }

    fn to_i128(&self) -> (r: i128)
        ensures
            r == *self,
    {
        *self as i128
    }
}

/// A `Box` and an `Rc` vouch for their result exactly where the value they
/// hold does, and a value, a reference to it, a `Box` or an `Rc` that holds
/// it, and a reference to either of the two all stand for the same `i128`.
pub proof fn lemma_to_i128_through_wrappers<T: ToI128 + ?Sized>(v: &T, b: &Box<T>, rc: &Rc<T>)
    requires
        &**b == v,
        &**rc == v,
    ensures
        b.obeys_to_i128_spec() == v.obeys_to_i128_spec(),
        rc.obeys_to_i128_spec() == v.obeys_to_i128_spec(),
        (&v).to_i128_spec() == v.to_i128_spec(),
        b.to_i128_spec() == v.to_i128_spec(),
        (&b).to_i128_spec() == v.to_i128_spec(),
        rc.to_i128_spec() == v.to_i128_spec(),
        (&rc).to_i128_spec() == v.to_i128_spec(),
{
}

/// Each built-in conversion into `i128` widens the number or leaves it as
/// it is: the result is the number that went in.
pub proof fn lemma_to_i128_keeps_value(
    v_i128: i128,
    v_i8: i8,
    v_u8: u8,
    v_i16: i16,
    v_u16: u16,
    v_i32: i32,
    v_u32: u32,
    v_i64: i64,
    v_u64: u64,
)
    ensures
        v_i128.obeys_to_i128_spec(),
        v_i128.to_i128_spec() == v_i128,
        v_i8.obeys_to_i128_spec(),
        v_i8.to_i128_spec() == v_i8,
        v_u8.obeys_to_i128_spec(),
        v_u8.to_i128_spec() == v_u8,
        v_i16.obeys_to_i128_spec(),
        v_i16.to_i128_spec() == v_i16,
        v_u16.obeys_to_i128_spec(),
        v_u16.to_i128_spec() == v_u16,
        v_i32.obeys_to_i128_spec(),
        v_i32.to_i128_spec() == v_i32,
        v_u32.obeys_to_i128_spec(),
        v_u32.to_i128_spec() == v_u32,
        v_i64.obeys_to_i128_spec(),
        v_i64.to_i128_spec() == v_i64,
        v_u64.obeys_to_i128_spec(),
        v_u64.to_i128_spec() == v_u64,
{
}

} // verus!
