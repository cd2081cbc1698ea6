//! `ToI64`: conversion into `i64` at little or no cost.

use std::rc::Rc;
use vstd::prelude::*;

verus! {

/// A type whose values can each be given as an `i64`.
///
/// The conversion is total and keeps the value: a type for which it could
/// fail, or could lose part of the value, does not implement this trait.
/// Among the built-in types it is implemented for `i64`, `i8`, `u8`, `i16`,
/// `u16`, `i32` and `u32`.
pub trait ToI64 {
    /// Whether the implementation vouches that `to_i64` gives what
    /// `to_i64_spec` says. One that does not say so vouches for nothing.
    open spec fn obeys_to_i64_spec(&self) -> bool {
        false
    }

    /// The `i64` that `self` stands for.
    open spec fn to_i64_spec(&self) -> i64 {
        arbitrary()
    }

    /// Gives `self` as an `i64`.
    fn to_i64(&self) -> (r: i64)
        ensures
            self.obeys_to_i64_spec() ==> r == self.to_i64_spec(),
    ;
}

/// A `Box` hands the call on to the value it holds: what it gives is what
/// that value's own implementation gives.
impl<T: ToI64 + ?Sized> ToI64 for Box<T> {
    open spec fn obeys_to_i64_spec(&self) -> bool {
        (**self).obeys_to_i64_spec()
    }

    open spec fn to_i64_spec(&self) -> i64 {
        (**self).to_i64_spec()
    }

    fn to_i64(&self) -> (r: i64)
        ensures
            call_ensures(T::to_i64, (&**self,), r),
    {
        (**self).to_i64()
    }
}

/// An `Rc` hands the call on to the value it holds: what it gives is what
/// that value's own implementation gives.
impl<T: ToI64 + ?Sized> ToI64 for Rc<T> {
    open spec fn obeys_to_i64_spec(&self) -> bool {
        (**self).obeys_to_i64_spec()
    }

    open spec fn to_i64_spec(&self) -> i64 {
        (**self).to_i64_spec()
    }

    fn to_i64(&self) -> (r: i64)
        ensures
            call_ensures(T::to_i64, (&**self,), r),
    {
        (**self).to_i64()
    }
}

impl ToI64 for i64 {
    open spec fn obeys_to_i64_spec(&self) -> bool {
        true
    }

    open spec fn to_i64_spec(&self) -> i64 {
        *self
    }

    fn to_i64(&self) -> (r: i64)
        ensures
            r == *self,
    {
        *self
    }
}

impl ToI64 for i8 {
    open spec fn obeys_to_i64_spec(&self) -> bool {
        true
    }

    open spec fn to_i64_spec(&self) -> i64 {
        *self as i64
    }

    fn to_i64(&self) -> (r: i64)
        ensures
            r == *self,
    {
        *self as i64
    }
}

impl ToI64 for u8 {
    open spec fn obeys_to_i64_spec(&self) -> bool {
        true
    }

    open spec fn to_i64_spec(&self) -> i64 {
        *self as i64
    }

    fn to_i64(&self) -> (r: i64)
        ensures
            r == *self,
    {
        *self as i64
    }
}

impl ToI64 for i16 {
    open spec fn obeys_to_i64_spec(&self) -> bool {
        true
    }

    open spec fn to_i64_spec(&self) -> i64 {
        *self as i64
    }

    fn to_i64(&self) -> (r: i64)
        ensures
            r == *self,
    {
        *self as i64
    }
}

impl ToI64 for u16 {
    open spec fn obeys_to_i64_spec(&self) -> bool {
        true
    }

    open spec fn to_i64_spec(&self) -> i64 {
        *self as i64
    }

    fn to_i64(&self) -> (r: i64)
        ensures
            r == *self,
    {
        *self as i64
    }
}

impl ToI64 for i32 {
    open spec fn obeys_to_i64_spec(&self) -> bool {
        true
    }

    open spec fn to_i64_spec(&self) -> i64 {
        *self as i64
    }

    fn to_i64(&self) -> (r: i64)
        ensures
            r == *self,
    {
        *self as i64
    }
}

impl ToI64 for u32 {
    open spec fn obeys_to_i64_spec(&self) -> bool {
        true
    }

    open spec fn to_i64_spec(&self) -> i64 {
        *self as i64
    }

    fn to_i64(&self) -> (r: i64)
        ensures
            r == *self,
    {
        *self as i64
    }
}

/// A `Box` and an `Rc` vouch for their result exactly where the value they
/// hold does, and a value, a reference to it, a `Box` or an `Rc` that holds
/// it, and a reference to either of the two all stand for the same `i64`.
pub proof fn lemma_to_i64_through_wrappers<T: ToI64 + ?Sized>(v: &T, b: &Box<T>, rc: &Rc<T>)
    requires
        &**b == v,
        &**rc == v,
    ensures
        b.obeys_to_i64_spec() == v.obeys_to_i64_spec(),
        rc.obeys_to_i64_spec() == v.obeys_to_i64_spec(),
        (&v).to_i64_spec() == v.to_i64_spec(),
        b.to_i64_spec() == v.to_i64_spec(),
        (&b).to_i64_spec() == v.to_i64_spec(),
        rc.to_i64_spec() == v.to_i64_spec(),
        (&rc).to_i64_spec() == v.to_i64_spec(),
{
}

/// Each built-in conversion into `i64` widens the number or leaves it as
/// it is: the result is the number that went in.
pub proof fn lemma_to_i64_keeps_value(
    v_i64: i64,
    v_i8: i8,
    v_u8: u8,
    v_i16: i16,
    v_u16: u16,
    v_i32: i32,
    v_u32: u32,
)
    ensures
        v_i64.obeys_to_i64_spec(),
        v_i64.to_i64_spec() == v_i64,
        v_i8.obeys_to_i64_spec(),
        v_i8.to_i64_spec() == v_i8,
        v_u8.obeys_to_i64_spec(),
        v_u8.to_i64_spec() == v_u8,
        v_i16.obeys_to_i64_spec(),
        v_i16.to_i64_spec() == v_i16,
        v_u16.obeys_to_i64_spec(),
        v_u16.to_i64_spec() == v_u16,
        v_i32.obeys_to_i64_spec(),
        v_i32.to_i64_spec() == v_i32,
        v_u32.obeys_to_i64_spec(),
        v_u32.to_i64_spec() == v_u32,
{
}

} // verus!
