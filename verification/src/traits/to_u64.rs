//! `ToU64`: conversion into `u64` at little or no cost.

use std::rc::Rc;
use vstd::prelude::*;

verus! {

/// A type whose values can each be given as a `u64`.
///
/// The conversion is total and keeps the value: a type for which it could
/// fail, or could lose part of the value, does not implement this trait.
/// Among the built-in types it is implemented for `u64`, `u8`, `u16` and
/// `u32`.
pub trait ToU64 {
    /// Whether the implementation vouches that `to_u64` gives what
    /// `to_u64_spec` says. One that does not say so vouches for nothing.
    open spec fn obeys_to_u64_spec(&self) -> bool {
        false
    }

    /// The `u64` that `self` stands for.
    open spec fn to_u64_spec(&self) -> u64 {
        arbitrary()
    }

    /// Gives `self` as a `u64`.
    fn to_u64(&self) -> (r: u64)
        ensures
            self.obeys_to_u64_spec() ==> r == self.to_u64_spec(),
    ;
}

/// A `Box` hands the call on to the value it holds: what it gives is what
/// that value's own implementation gives.
impl<T: ToU64 + ?Sized> ToU64 for Box<T> {
    open spec fn obeys_to_u64_spec(&self) -> bool {
        (**self).obeys_to_u64_spec()
    }

    open spec fn to_u64_spec(&self) -> u64 {
        (**self).to_u64_spec()
    }

    fn to_u64(&self) -> (r: u64)
        ensures
            call_ensures(T::to_u64, (&**self,), r),
    {
        (**self).to_u64()
    }
}

/// An `Rc` hands the call on to the value it holds: what it gives is what
/// that value's own implementation gives.
impl<T: ToU64 + ?Sized> ToU64 for Rc<T> {
    open spec fn obeys_to_u64_spec(&self) -> bool {
        (**self).obeys_to_u64_spec()
    }

    open spec fn to_u64_spec(&self) -> u64 {
        (**self).to_u64_spec()
    }

    fn to_u64(&self) -> (r: u64)
        ensures
            call_ensures(T::to_u64, (&**self,), r),
    {
        (**self).to_u64()
    }
}

impl ToU64 for u64 {
    open spec fn obeys_to_u64_spec(&self) -> bool {
        true
    }

    open spec fn to_u64_spec(&self) -> u64 {
        *self
    }

    fn to_u64(&self) -> (r: u64)
        ensures
            r == *self,
    {
        *self
    }
}

impl ToU64 for u8 {
    open spec fn obeys_to_u64_spec(&self) -> bool {
        true
    }

    open spec fn to_u64_spec(&self) -> u64 {
        *self as u64
    }

    fn to_u64(&self) -> (r: u64)
        ensures
            r == *self,
    {
        *self as u64
    }
}

impl ToU64 for u16 {
    open spec fn obeys_to_u64_spec(&self) -> bool {
        true
    }

    open spec fn to_u64_spec(&self) -> u64 {
        *self as u64
    }

    fn to_u64(&self) -> (r: u64)
        ensures
            r == *self,
    {
        *self as u64
    }
}

impl ToU64 for u32 {
    open spec fn obeys_to_u64_spec(&self) -> bool {
        true
    }

    open spec fn to_u64_spec(&self) -> u64 {
        *self as u64
    }

    fn to_u64(&self) -> (r: u64)
        ensures
            r == *self,
    {
        *self as u64
    }
}

/// A `Box` and an `Rc` vouch for their result exactly where the value they
/// hold does, and a value, a reference to it, a `Box` or an `Rc` that holds
/// it, and a reference to either of the two all stand for the same `u64`.
pub proof fn lemma_to_u64_through_wrappers<T: ToU64 + ?Sized>(v: &T, b: &Box<T>, rc: &Rc<T>)
    requires
        &**b == v,
        &**rc == v,
    ensures
        b.obeys_to_u64_spec() == v.obeys_to_u64_spec(),
        rc.obeys_to_u64_spec() == v.obeys_to_u64_spec(),
        (&v).to_u64_spec() == v.to_u64_spec(),
        b.to_u64_spec() == v.to_u64_spec(),
        (&b).to_u64_spec() == v.to_u64_spec(),
        rc.to_u64_spec() == v.to_u64_spec(),
        (&rc).to_u64_spec() == v.to_u64_spec(),
{
}

/// Each built-in conversion into `u64` widens the number or leaves it as
/// it is: the result is the number that went in.
pub proof fn lemma_to_u64_keeps_value(v_u64: u64, v_u8: u8, v_u16: u16, v_u32: u32)
    ensures
        v_u64.obeys_to_u64_spec(),
        v_u64.to_u64_spec() == v_u64,
        v_u8.obeys_to_u64_spec(),
        v_u8.to_u64_spec() == v_u8,
        v_u16.obeys_to_u64_spec(),
        v_u16.to_u64_spec() == v_u16,
        v_u32.obeys_to_u64_spec(),
        v_u32.to_u64_spec() == v_u32,
{
}

} // verus!
