//! `ToU16`: conversion into `u16` at little or no cost.

use std::rc::Rc;
use vstd::prelude::*;

verus! {

/// A type whose values can each be given as a `u16`.
///
/// The conversion is total and keeps the value: a type for which it could
/// fail, or could lose part of the value, does not implement this trait.
/// Among the built-in types it is implemented for `u16` and `u8`.
pub trait ToU16 {
    /// Whether the implementation vouches that `to_u16` gives what
    /// `to_u16_spec` says. One that does not say so vouches for nothing.
    open spec fn obeys_to_u16_spec(&self) -> bool {
        false
    }

    /// The `u16` that `self` stands for.
    open spec fn to_u16_spec(&self) -> u16 {
        arbitrary()
    }

    /// Gives `self` as a `u16`.
    fn to_u16(&self) -> (r: u16)
        ensures
            self.obeys_to_u16_spec() ==> r == self.to_u16_spec(),
    ;
}

/// A `Box` hands the call on to the value it holds: what it gives is what
/// that value's own implementation gives.
impl<T: ToU16 + ?Sized> ToU16 for Box<T> {
    open spec fn obeys_to_u16_spec(&self) -> bool {
        (**self).obeys_to_u16_spec()
    }

    open spec fn to_u16_spec(&self) -> u16 {
        (**self).to_u16_spec()
    }

    fn to_u16(&self) -> (r: u16)
        ensures
            call_ensures(T::to_u16, (&**self,), r),
    {
        (**self).to_u16()
    }
}

/// An `Rc` hands the call on to the value it holds: what it gives is what
/// that value's own implementation gives.
impl<T: ToU16 + ?Sized> ToU16 for Rc<T> {
    open spec fn obeys_to_u16_spec(&self) -> bool {
        (**self).obeys_to_u16_spec()
    }

    open spec fn to_u16_spec(&self) -> u16 {
        (**self).to_u16_spec()
    }

    fn to_u16(&self) -> (r: u16)
        ensures
            call_ensures(T::to_u16, (&**self,), r),
    {
        (**self).to_u16()
    }
}

impl ToU16 for u16 {
    open spec fn obeys_to_u16_spec(&self) -> bool {
        true
    }

    open spec fn to_u16_spec(&self) -> u16 {
        *self
    }

    fn to_u16(&self) -> (r: u16)
        ensures
            r == *self,
    {
        *self
    }
}

impl ToU16 for u8 {
    open spec fn obeys_to_u16_spec(&self) -> bool {
        true
    }

    open spec fn to_u16_spec(&self) -> u16 {
        *self as u16
    }

    fn to_u16(&self) -> (r: u16)
        ensures
            r == *self,
    {
        *self as u16
    }
}

/// A `Box` and an `Rc` vouch for their result exactly where the value they
/// hold does, and a value, a reference to it, a `Box` or an `Rc` that holds
/// it, and a reference to either of the two all stand for the same `u16`.
pub proof fn lemma_to_u16_through_wrappers<T: ToU16 + ?Sized>(v: &T, b: &Box<T>, rc: &Rc<T>)
    requires
        &**b == v,
        &**rc == v,
    ensures
        b.obeys_to_u16_spec() == v.obeys_to_u16_spec(),
        rc.obeys_to_u16_spec() == v.obeys_to_u16_spec(),
        (&v).to_u16_spec() == v.to_u16_spec(),
        b.to_u16_spec() == v.to_u16_spec(),
        (&b).to_u16_spec() == v.to_u16_spec(),
        rc.to_u16_spec() == v.to_u16_spec(),
        (&rc).to_u16_spec() == v.to_u16_spec(),
{
}

/// Each built-in conversion into `u16` widens the number or leaves it as
/// it is: the result is the number that went in.
pub proof fn lemma_to_u16_keeps_value(v_u16: u16, v_u8: u8)
    ensures
        v_u16.obeys_to_u16_spec(),
        v_u16.to_u16_spec() == v_u16,
        v_u8.obeys_to_u16_spec(),
        v_u8.to_u16_spec() == v_u8,
{
}

} // verus!
