//! `ToUSize`: conversion into `usize` at little or no cost.

use std::rc::Rc;
use vstd::prelude::*;

verus! {

/// A type whose values can each be given as a `usize`.
///
/// The conversion is total and keeps the value: a type for which it could
/// fail, or could lose part of the value, does not implement this trait.
/// Among the built-in types it is implemented for `usize`, `u8`, `u16` and
/// `u32`.
///
/// `usize` is at least 32 bits wide on every target that this crate is
/// verified for, so `u32` is the widest built-in type that always fits.
pub trait ToUSize {
    /// Whether the implementation vouches that `to_usize` gives what
    /// `to_usize_spec` says. One that does not say so vouches for nothing.
    open spec fn obeys_to_usize_spec(&self) -> bool {
        false
    }

    /// The `usize` that `self` stands for.
    open spec fn to_usize_spec(&self) -> usize {
        arbitrary()
    }

    /// Gives `self` as a `usize`.
    fn to_usize(&self) -> (r: usize)
        ensures
            self.obeys_to_usize_spec() ==> r == self.to_usize_spec(),
    ;
}

/// A `Box` hands the call on to the value it holds: what it gives is what
/// that value's own implementation gives.
impl<T: ToUSize + ?Sized> ToUSize for Box<T> {
    open spec fn obeys_to_usize_spec(&self) -> bool {
        (**self).obeys_to_usize_spec()
    }

    open spec fn to_usize_spec(&self) -> usize {
        (**self).to_usize_spec()
    }

    fn to_usize(&self) -> (r: usize)
        ensures
            call_ensures(T::to_usize, (&**self,), r),
    {
        (**self).to_usize()
    }
}

/// An `Rc` hands the call on to the value it holds: what it gives is what
/// that value's own implementation gives.
impl<T: ToUSize + ?Sized> ToUSize for Rc<T> {
    open spec fn obeys_to_usize_spec(&self) -> bool {
        (**self).obeys_to_usize_spec()
    }

    open spec fn to_usize_spec(&self) -> usize {
        (**self).to_usize_spec()
    }

    fn to_usize(&self) -> (r: usize)
        ensures
            call_ensures(T::to_usize, (&**self,), r),
    {
        (**self).to_usize()
    }
}

impl ToUSize for usize {
    open spec fn obeys_to_usize_spec(&self) -> bool {
        true
    }

    open spec fn to_usize_spec(&self) -> usize {
        *self
    }

    fn to_usize(&self) -> (r: usize)
        ensures
            r == *self,
    {
        *self
    }
}

impl ToUSize for u8 {
    open spec fn obeys_to_usize_spec(&self) -> bool {
        true
    }

    open spec fn to_usize_spec(&self) -> usize {
        *self as usize
    }

    fn to_usize(&self) -> (r: usize)
        ensures
            r == *self,
    {
        *self as usize
    }
}

impl ToUSize for u16 {
    open spec fn obeys_to_usize_spec(&self) -> bool {
        true
    }

    open spec fn to_usize_spec(&self) -> usize {
        *self as usize
    }

    fn to_usize(&self) -> (r: usize)
        ensures
            r == *self,
    {
        *self as usize
    }
}

impl ToUSize for u32 {
    open spec fn obeys_to_usize_spec(&self) -> bool {
        true
    }

    open spec fn to_usize_spec(&self) -> usize {
        *self as usize
    }

    fn to_usize(&self) -> (r: usize)
        ensures
            r == *self,
    {
        *self as usize
    }
}

/// A `Box` and an `Rc` vouch for their result exactly where the value they
/// hold does, and a value, a reference to it, a `Box` or an `Rc` that holds
/// it, and a reference to either of the two all stand for the same `usize`.
pub proof fn lemma_to_usize_through_wrappers<T: ToUSize + ?Sized>(v: &T, b: &Box<T>, rc: &Rc<T>)
    requires
        &**b == v,
        &**rc == v,
    ensures
        b.obeys_to_usize_spec() == v.obeys_to_usize_spec(),
        rc.obeys_to_usize_spec() == v.obeys_to_usize_spec(),
        (&v).to_usize_spec() == v.to_usize_spec(),
        b.to_usize_spec() == v.to_usize_spec(),
        (&b).to_usize_spec() == v.to_usize_spec(),
        rc.to_usize_spec() == v.to_usize_spec(),
        (&rc).to_usize_spec() == v.to_usize_spec(),
{
}

/// Each built-in conversion into `usize` widens the number or leaves it as
/// it is: the result is the number that went in.
pub proof fn lemma_to_usize_keeps_value(v_usize: usize, v_u8: u8, v_u16: u16, v_u32: u32)
    ensures
        v_usize.obeys_to_usize_spec(),
        v_usize.to_usize_spec() == v_usize,
        v_u8.obeys_to_usize_spec(),
        v_u8.to_usize_spec() == v_u8,
        v_u16.obeys_to_usize_spec(),
        v_u16.to_usize_spec() == v_u16,
        v_u32.obeys_to_usize_spec(),
        v_u32.to_usize_spec() == v_u32,
{
}

} // verus!
