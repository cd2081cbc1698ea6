//! `ToI16`: conversion into `i16` at little or no cost.

use std::rc::Rc;
use vstd::prelude::*;

verus! {

/// A type whose values can each be given as an `i16`.
///
/// The conversion is total and keeps the value: a type for which it could
/// fail, or could lose part of the value, does not implement this trait.
/// Among the built-in types it is implemented for `i16`, `i8` and `u8`.
pub trait ToI16 {
    /// Whether the implementation vouches that `to_i16` gives what
    /// `to_i16_spec` says. One that does not say so vouches for nothing.
    open spec fn obeys_to_i16_spec(&self) -> bool {
        false
    }

    /// The `i16` that `self` stands for.
    open spec fn to_i16_spec(&self) -> i16 {
        arbitrary()
    }

    /// Gives `self` as an `i16`.
    fn to_i16(&self) -> (r: i16)
        ensures
            self.obeys_to_i16_spec() ==> r == self.to_i16_spec(),
    ;
}

/// A `Box` hands the call on to the value it holds: what it gives is what
/// that value's own implementation gives.
impl<T: ToI16 + ?Sized> ToI16 for Box<T> {
    open spec fn obeys_to_i16_spec(&self) -> bool {
        (**self).obeys_to_i16_spec()
    }

    open spec fn to_i16_spec(&self) -> i16 {
        (**self).to_i16_spec()
    }

    fn to_i16(&self) -> (r: i16)
        ensures
            call_ensures(T::to_i16, (&**self,), r),
    {
        (**self).to_i16()
    }
}

/// An `Rc` hands the call on to the value it holds: what it gives is what
/// that value's own implementation gives.
impl<T: ToI16 + ?Sized> ToI16 for Rc<T> {
    open spec fn obeys_to_i16_spec(&self) -> bool {
        (**self).obeys_to_i16_spec()
    }

    open spec fn to_i16_spec(&self) -> i16 {
        (**self).to_i16_spec()
    }

    fn to_i16(&self) -> (r: i16)
        ensures
            call_ensures(T::to_i16, (&**self,), r),
    {
        (**self).to_i16()
    }
}

impl ToI16 for i16 {
    open spec fn obeys_to_i16_spec(&self) -> bool {
        true
    }

    open spec fn to_i16_spec(&self) -> i16 {
        *self
    }

    fn to_i16(&self) -> (r: i16)
        ensures
            r == *self,
    {
        *self
    }
}

impl ToI16 for i8 {
    open spec fn obeys_to_i16_spec(&self) -> bool {
        true
    }

    open spec fn to_i16_spec(&self) -> i16 {
        *self as i16
    }

    fn to_i16(&self) -> (r: i16)
        ensures
            r == *self,
    {
        *self as i16
    }
}

impl ToI16 for u8 {
    open spec fn obeys_to_i16_spec(&self) -> bool {
        true
    }

    open spec fn to_i16_spec(&self) -> i16 {
        *self as i16
    }

    fn to_i16(&self) -> (r: i16)
        ensures
            r == *self,
    {
        *self as i16
    }
}

/// A `Box` and an `Rc` vouch for their result exactly where the value they
/// hold does, and a value, a reference to it, a `Box` or an `Rc` that holds
/// it, and a reference to either of the two all stand for the same `i16`.
pub proof fn lemma_to_i16_through_wrappers<T: ToI16 + ?Sized>(v: &T, b: &Box<T>, rc: &Rc<T>)
    requires
        &**b == v,
        &**rc == v,
    ensures
        b.obeys_to_i16_spec() == v.obeys_to_i16_spec(),
        rc.obeys_to_i16_spec() == v.obeys_to_i16_spec(),
        (&v).to_i16_spec() == v.to_i16_spec(),
        b.to_i16_spec() == v.to_i16_spec(),
        (&b).to_i16_spec() == v.to_i16_spec(),
        rc.to_i16_spec() == v.to_i16_spec(),
        (&rc).to_i16_spec() == v.to_i16_spec(),
{
}

/// Each built-in conversion into `i16` widens the number or leaves it as
/// it is: the result is the number that went in.
pub proof fn lemma_to_i16_keeps_value(v_i16: i16, v_i8: i8, v_u8: u8)
    ensures
        v_i16.obeys_to_i16_spec(),
        v_i16.to_i16_spec() == v_i16,
        v_i8.obeys_to_i16_spec(),
        v_i8.to_i16_spec() == v_i8,
        v_u8.obeys_to_i16_spec(),
        v_u8.to_i16_spec() == v_u8,
{
}

} // verus!
