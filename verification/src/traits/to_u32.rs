//! `ToU32`: conversion into `u32` at little or no cost.

use std::rc::Rc;
use vstd::prelude::*;

verus! {

/// A type whose values can each be given as a `u32`.
///
/// The conversion is total and keeps the value: a type for which it could
/// fail, or could lose part of the value, does not implement this trait.
/// Among the built-in types it is implemented for `u32`, `u8` and `u16`.
pub trait ToU32 {
    /// Whether the implementation vouches that `to_u32` gives what
    /// `to_u32_spec` says. One that does not say so vouches for nothing.
    open spec fn obeys_to_u32_spec(&self) -> bool {
        false
    }

    /// The `u32` that `self` stands for.
    open spec fn to_u32_spec(&self) -> u32 {
        arbitrary()
    }

    /// Gives `self` as a `u32`.
    fn to_u32(&self) -> (r: u32)
        ensures
            self.obeys_to_u32_spec() ==> r == self.to_u32_spec(),
    ;
}

/// A `Box` hands the call on to the value it holds: what it gives is what
/// that value's own implementation gives.
impl<T: ToU32 + ?Sized> ToU32 for Box<T> {
    open spec fn obeys_to_u32_spec(&self) -> bool {
        (**self).obeys_to_u32_spec()
    }

    open spec fn to_u32_spec(&self) -> u32 {
        (**self).to_u32_spec()
    }

    fn to_u32(&self) -> (r: u32)
        ensures
            call_ensures(T::to_u32, (&**self,), r),
    {
        (**self).to_u32()
    }
}

/// An `Rc` hands the call on to the value it holds: what it gives is what
/// that value's own implementation gives.
impl<T: ToU32 + ?Sized> ToU32 for Rc<T> {
    open spec fn obeys_to_u32_spec(&self) -> bool {
        (**self).obeys_to_u32_spec()
    }

    open spec fn to_u32_spec(&self) -> u32 {
        (**self).to_u32_spec()
    }

    fn to_u32(&self) -> (r: u32)
        ensures
            call_ensures(T::to_u32, (&**self,), r),
    {
        (**self).to_u32()
    }
}

impl ToU32 for u32 {
    open spec fn obeys_to_u32_spec(&self) -> bool {
        true
    }

    open spec fn to_u32_spec(&self) -> u32 {
        *self
    }

    fn to_u32(&self) -> (r: u32)
        ensures
            r == *self,
    {
        *self
    }
}

impl ToU32 for u8 {
    open spec fn obeys_to_u32_spec(&self) -> bool {
        true
    }

    open spec fn to_u32_spec(&self) -> u32 {
        *self as u32
    }

    fn to_u32(&self) -> (r: u32)
        ensures
            r == *self,
    {
        *self as u32
    }
}

impl ToU32 for u16 {
    open spec fn obeys_to_u32_spec(&self) -> bool {
        true
    }

    open spec fn to_u32_spec(&self) -> u32 {
        *self as u32
    }

    fn to_u32(&self) -> (r: u32)
        ensures
            r == *self,
    {
        *self as u32
    }
}

/// A `Box` and an `Rc` vouch for their result exactly where the value they
/// hold does, and a value, a reference to it, a `Box` or an `Rc` that holds
/// it, and a reference to either of the two all stand for the same `u32`.
pub proof fn lemma_to_u32_through_wrappers<T: ToU32 + ?Sized>(v: &T, b: &Box<T>, rc: &Rc<T>)
    requires
        &**b == v,
        &**rc == v,
    ensures
        b.obeys_to_u32_spec() == v.obeys_to_u32_spec(),
        rc.obeys_to_u32_spec() == v.obeys_to_u32_spec(),
        (&v).to_u32_spec() == v.to_u32_spec(),
        b.to_u32_spec() == v.to_u32_spec(),
        (&b).to_u32_spec() == v.to_u32_spec(),
        rc.to_u32_spec() == v.to_u32_spec(),
        (&rc).to_u32_spec() == v.to_u32_spec(),
{
}

/// Each built-in conversion into `u32` widens the number or leaves it as
/// it is: the result is the number that went in.
pub proof fn lemma_to_u32_keeps_value(v_u32: u32, v_u8: u8, v_u16: u16)
    ensures
        v_u32.obeys_to_u32_spec(),
        v_u32.to_u32_spec() == v_u32,
        v_u8.obeys_to_u32_spec(),
        v_u8.to_u32_spec() == v_u8,
        v_u16.obeys_to_u32_spec(),
        v_u16.to_u32_spec() == v_u16,
{
}

} // verus!
