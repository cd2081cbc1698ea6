//! `ToI32`: conversion into `i32` at little or no cost.

use std::rc::Rc;
use vstd::prelude::*;

verus! {

/// A type whose values can each be given as an `i32`.
///
/// The conversion is total and keeps the value: a type for which it could
/// fail, or could lose part of the value, does not implement this trait.
/// Among the built-in types it is implemented for `i32`, `i8`, `u8`, `i16`
/// and `u16`.
pub trait ToI32 {
    /// Whether the implementation vouches that `to_i32` gives what
    /// `to_i32_spec` says. One that does not say so vouches for nothing.
    open spec fn obeys_to_i32_spec(&self) -> bool {
        false
    }

    /// The `i32` that `self` stands for.
    open spec fn to_i32_spec(&self) -> i32 {
        arbitrary()
    }

    /// Gives `self` as an `i32`.
    fn to_i32(&self) -> (r: i32)
        ensures
            self.obeys_to_i32_spec() ==> r == self.to_i32_spec(),
    ;
}

/// A `Box` hands the call on to the value it holds: what it gives is what
/// that value's own implementation gives.
impl<T: ToI32 + ?Sized> ToI32 for Box<T> {
    open spec fn obeys_to_i32_spec(&self) -> bool {
        (**self).obeys_to_i32_spec()
    }

    open spec fn to_i32_spec(&self) -> i32 {
        (**self).to_i32_spec()
    }

    fn to_i32(&self) -> (r: i32)
        ensures
            call_ensures(T::to_i32, (&**self,), r),
    {
        (**self).to_i32()
    }
}

/// An `Rc` hands the call on to the value it holds: what it gives is what
/// that value's own implementation gives.
impl<T: ToI32 + ?Sized> ToI32 for Rc<T> {
    open spec fn obeys_to_i32_spec(&self) -> bool {
        (**self).obeys_to_i32_spec()
    }

    open spec fn to_i32_spec(&self) -> i32 {
        (**self).to_i32_spec()
    }

    fn to_i32(&self) -> (r: i32)
        ensures
            call_ensures(T::to_i32, (&**self,), r),
    {
        (**self).to_i32()
    }
}

impl ToI32 for i32 {
    open spec fn obeys_to_i32_spec(&self) -> bool {
        true
    }

    open spec fn to_i32_spec(&self) -> i32 {
        *self
    }

    fn to_i32(&self) -> (r: i32)
        ensures
            r == *self,
    {
        *self
    }
}

impl ToI32 for i8 {
    open spec fn obeys_to_i32_spec(&self) -> bool {
        true
    }

    open spec fn to_i32_spec(&self) -> i32 {
        *self as i32
    }

    fn to_i32(&self) -> (r: i32)
        ensures
            r == *self,
    {
        *self as i32
    }
}

impl ToI32 for u8 {
    open spec fn obeys_to_i32_spec(&self) -> bool {
        true
    }

    open spec fn to_i32_spec(&self) -> i32 {
        *self as i32
    }

    fn to_i32(&self) -> (r: i32)
        ensures
            r == *self,
    {
        *self as i32
    }
}

impl ToI32 for i16 {
    open spec fn obeys_to_i32_spec(&self) -> bool {
        true
    }

    open spec fn to_i32_spec(&self) -> i32 {
        *self as i32
    }

    fn to_i32(&self) -> (r: i32)
        ensures
            r == *self,
    {
        *self as i32
    }
}

impl ToI32 for u16 {
    open spec fn obeys_to_i32_spec(&self) -> bool {
        true
    }

    open spec fn to_i32_spec(&self) -> i32 {
        *self as i32
    }

    fn to_i32(&self) -> (r: i32)
        ensures
            r == *self,
    {
        *self as i32
    }
}

/// A `Box` and an `Rc` vouch for their result exactly where the value they
/// hold does, and a value, a reference to it, a `Box` or an `Rc` that holds
/// it, and a reference to either of the two all stand for the same `i32`.
pub proof fn lemma_to_i32_through_wrappers<T: ToI32 + ?Sized>(v: &T, b: &Box<T>, rc: &Rc<T>)
    requires
        &**b == v,
        &**rc == v,
    ensures
        b.obeys_to_i32_spec() == v.obeys_to_i32_spec(),
        rc.obeys_to_i32_spec() == v.obeys_to_i32_spec(),
        (&v).to_i32_spec() == v.to_i32_spec(),
        b.to_i32_spec() == v.to_i32_spec(),
        (&b).to_i32_spec() == v.to_i32_spec(),
        rc.to_i32_spec() == v.to_i32_spec(),
        (&rc).to_i32_spec() == v.to_i32_spec(),
{
}

/// Each built-in conversion into `i32` widens the number or leaves it as
/// it is: the result is the number that went in.
pub proof fn lemma_to_i32_keeps_value(v_i32: i32, v_i8: i8, v_u8: u8, v_i16: i16, v_u16: u16)
    ensures
        v_i32.obeys_to_i32_spec(),
        v_i32.to_i32_spec() == v_i32,
        v_i8.obeys_to_i32_spec(),
        v_i8.to_i32_spec() == v_i8,
        v_u8.obeys_to_i32_spec(),
        v_u8.to_i32_spec() == v_u8,
        v_i16.obeys_to_i32_spec(),
        v_i16.to_i32_spec() == v_i16,
        v_u16.obeys_to_i32_spec(),
        v_u16.to_i32_spec() == v_u16,
{
}

} // verus!
