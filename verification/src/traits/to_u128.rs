//! `ToU128`: conversion into `u128` at little or no cost.

use std::rc::Rc;
use vstd::prelude::*;

verus! {

/// A type whose values can each be given as a `u128`.
///
/// The conversion is total and keeps the value: a type for which it could
/// fail, or could lose part of the value, does not implement this trait.
/// Among the built-in types it is implemented for `u128`, `u8`, `u16`, `u32`
/// and `u64`.
pub trait ToU128 {
    /// Whether the implementation vouches that `to_u128` gives what
    /// `to_u128_spec` says. One that does not say so vouches for nothing.
    open spec fn obeys_to_u128_spec(&self) -> bool {
        false
    }

    /// The `u128` that `self` stands for.
    open spec fn to_u128_spec(&self) -> u128 {
        arbitrary()
    }

    /// Gives `self` as a `u128`.
    fn to_u128(&self) -> (r: u128)
        ensures
            self.obeys_to_u128_spec() ==> r == self.to_u128_spec(),
    ;
}

/// A `Box` hands the call on to the value it holds: what it gives is what
/// that value's own implementation gives.
impl<T: ToU128 + ?Sized> ToU128 for Box<T> {
    open spec fn obeys_to_u128_spec(&self) -> bool {
        (**self).obeys_to_u128_spec()
    }

    open spec fn to_u128_spec(&self) -> u128 {
        (**self).to_u128_spec()
    }

    fn to_u128(&self) -> (r: u128)
        ensures
            call_ensures(T::to_u128, (&**self,), r),
    {
        (**self).to_u128()
    }
}

/// An `Rc` hands the call on to the value it holds: what it gives is what
/// that value's own implementation gives.
impl<T: ToU128 + ?Sized> ToU128 for Rc<T> {
    open spec fn obeys_to_u128_spec(&self) -> bool {
        (**self).obeys_to_u128_spec()
    }

    open spec fn to_u128_spec(&self) -> u128 {
        (**self).to_u128_spec()
    }

    fn to_u128(&self) -> (r: u128)
        ensures
            call_ensures(T::to_u128, (&**self,), r),
    {
        (**self).to_u128()
    }
}

impl ToU128 for u128 {
    open spec fn obeys_to_u128_spec(&self) -> bool {
        true
    }

    open spec fn to_u128_spec(&self) -> u128 {
        *self
    }

    fn to_u128(&self) -> (r: u128)
        ensures
            r == *self,
    {
        *self
    }
}

impl ToU128 for u8 {
    open spec fn obeys_to_u128_spec(&self) -> bool {
        true
    }

    open spec fn to_u128_spec(&self) -> u128 {
        *self as u128
    }

    fn to_u128(&self) -> (r: u128)
        ensures
            r == *self,
    {
        *self as u128
    }
}

impl ToU128 for u16 {
    open spec fn obeys_to_u128_spec(&self) -> bool {
        true
    }

    open spec fn to_u128_spec(&self) -> u128 {
        *self as u128
    }

    fn to_u128(&self) -> (r: u128)
        ensures
            r == *self,
    {
        *self as u128
    }
}

impl ToU128 for u32 {
    open spec fn obeys_to_u128_spec(&self) -> bool {
        true
    }

    open spec fn to_u128_spec(&self) -> u128 {
        *self as u128
    }

    fn to_u128(&self) -> (r: u128)
        ensures
            r == *self,
    {
        *self as u128
    }
}

impl ToU128 for u64 {
    open spec fn obeys_to_u128_spec(&self) -> bool {
        true
    }

    open spec fn to_u128_spec(&self) -> u128 {
        *self as u128
    }

    fn to_u128(&self) -> (r: u128)
        ensures
            r == *self,
    {
        *self as u128
    }
}

/// A `Box` and an `Rc` vouch for their result exactly where the value they
/// hold does, and a value, a reference to it, a `Box` or an `Rc` that holds
/// it, and a reference to either of the two all stand for the same `u128`.
pub proof fn lemma_to_u128_through_wrappers<T: ToU128 + ?Sized>(v: &T, b: &Box<T>, rc: &Rc<T>)
    requires
        &**b == v,
        &**rc == v,
    ensures
        b.obeys_to_u128_spec() == v.obeys_to_u128_spec(),
        rc.obeys_to_u128_spec() == v.obeys_to_u128_spec(),
        (&v).to_u128_spec() == v.to_u128_spec(),
        b.to_u128_spec() == v.to_u128_spec(),
        (&b).to_u128_spec() == v.to_u128_spec(),
        rc.to_u128_spec() == v.to_u128_spec(),
        (&rc).to_u128_spec() == v.to_u128_spec(),
{
}

/// Each built-in conversion into `u128` widens the number or leaves it as
/// it is: the result is the number that went in.
pub proof fn lemma_to_u128_keeps_value(v_u128: u128, v_u8: u8, v_u16: u16, v_u32: u32, v_u64: u64)
    ensures
        v_u128.obeys_to_u128_spec(),
        v_u128.to_u128_spec() == v_u128,
        v_u8.obeys_to_u128_spec(),
        v_u8.to_u128_spec() == v_u8,
        v_u16.obeys_to_u128_spec(),
        v_u16.to_u128_spec() == v_u16,
        v_u32.obeys_to_u128_spec(),
        v_u32.to_u128_spec() == v_u32,
        v_u64.obeys_to_u128_spec(),
        v_u64.to_u128_spec() == v_u64,
{
}

} // verus!
