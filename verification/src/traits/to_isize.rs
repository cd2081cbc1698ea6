//! `ToISize`: conversion into `isize` at little or no cost.

use std::rc::Rc;
use vstd::prelude::*;

verus! {

/// A type whose values can each be given as an `isize`.
///
/// The conversion is total and keeps the value: a type for which it could
/// fail, or could lose part of the value, does not implement this trait.
/// Among the built-in types it is implemented for `isize`, `i8`, `u8`, `i16`,
/// `u16` and `i32`.
///
/// `isize` is at least 32 bits wide on every target that this crate is
/// verified for, so `i32` is the widest built-in type that always fits.
pub trait ToISize {
    /// Whether the implementation vouches that `to_isize` gives what
    /// `to_isize_spec` says. One that does not say so vouches for nothing.
    open spec fn obeys_to_isize_spec(&self) -> bool {
        false
    }

    /// The `isize` that `self` stands for.
    open spec fn to_isize_spec(&self) -> isize {
        arbitrary()
    }

    /// Gives `self` as an `isize`.
    fn to_isize(&self) -> (r: isize)
        ensures
            self.obeys_to_isize_spec() ==> r == self.to_isize_spec(),
    ;
}

/// A `Box` hands the call on to the value it holds: what it gives is what
/// that value's own implementation gives.
impl<T: ToISize + ?Sized> ToISize for Box<T> {
    open spec fn obeys_to_isize_spec(&self) -> bool {
        (**self).obeys_to_isize_spec()
    }

    open spec fn to_isize_spec(&self) -> isize {
        (**self).to_isize_spec()
    }

    fn to_isize(&self) -> (r: isize)
        ensures
            call_ensures(T::to_isize, (&**self,), r),
    {
        (**self).to_isize()
    }
}

/// An `Rc` hands the call on to the value it holds: what it gives is what
/// that value's own implementation gives.
impl<T: ToISize + ?Sized> ToISize for Rc<T> {
    open spec fn obeys_to_isize_spec(&self) -> bool {
        (**self).obeys_to_isize_spec()
    }

    open spec fn to_isize_spec(&self) -> isize {
        (**self).to_isize_spec()
    }

    fn to_isize(&self) -> (r: isize)
        ensures
            call_ensures(T::to_isize, (&**self,), r),
    {
        (**self).to_isize()
    }
}

impl ToISize for isize {
    open spec fn obeys_to_isize_spec(&self) -> bool {
        true
    }

    open spec fn to_isize_spec(&self) -> isize {
        *self
    }

    fn to_isize(&self) -> (r: isize)
        ensures
            r == *self,
    {
        *self
    }
}

impl ToISize for i8 {
    open spec fn obeys_to_isize_spec(&self) -> bool {
        true
    }

    open spec fn to_isize_spec(&self) -> isize {
        *self as isize
    }

    fn to_isize(&self) -> (r: isize)
        ensures
            r == *self,
    {
        *self as isize
    }
}

impl ToISize for u8 {
    open spec fn obeys_to_isize_spec(&self) -> bool {
        true
    }

    open spec fn to_isize_spec(&self) -> isize {
        *self as isize
    }

    fn to_isize(&self) -> (r: isize)
        ensures
            r == *self,
    {
        *self as isize
    }
}

impl ToISize for i16 {
    open spec fn obeys_to_isize_spec(&self) -> bool {
        true
    }

    open spec fn to_isize_spec(&self) -> isize {
        *self as isize
    }

    fn to_isize(&self) -> (r: isize)
        ensures
            r == *self,
    {
        *self as isize
    }
}

impl ToISize for u16 {
    open spec fn obeys_to_isize_spec(&self) -> bool {
        true
    }

    open spec fn to_isize_spec(&self) -> isize {
        *self as isize
    }

    fn to_isize(&self) -> (r: isize)
        ensures
            r == *self,
    {
        *self as isize
    }
}

impl ToISize for i32 {
    open spec fn obeys_to_isize_spec(&self) -> bool {
        true
    }

    open spec fn to_isize_spec(&self) -> isize {
        *self as isize
    }

    fn to_isize(&self) -> (r: isize)
        ensures
            r == *self,
    {
        *self as isize
    }
}

/// A `Box` and an `Rc` vouch for their result exactly where the value they
/// hold does, and a value, a reference to it, a `Box` or an `Rc` that holds
/// it, and a reference to either of the two all stand for the same `isize`.
pub proof fn lemma_to_isize_through_wrappers<T: ToISize + ?Sized>(v: &T, b: &Box<T>, rc: &Rc<T>)
    requires
        &**b == v,
        &**rc == v,
    ensures
        b.obeys_to_isize_spec() == v.obeys_to_isize_spec(),
        rc.obeys_to_isize_spec() == v.obeys_to_isize_spec(),
        (&v).to_isize_spec() == v.to_isize_spec(),
        b.to_isize_spec() == v.to_isize_spec(),
        (&b).to_isize_spec() == v.to_isize_spec(),
        rc.to_isize_spec() == v.to_isize_spec(),
        (&rc).to_isize_spec() == v.to_isize_spec(),
{
}

/// Each built-in conversion into `isize` widens the number or leaves it as
/// it is: the result is the number that went in.
pub proof fn lemma_to_isize_keeps_value(
    v_isize: isize,
    v_i8: i8,
    v_u8: u8,
    v_i16: i16,
    v_u16: u16,
    v_i32: i32,
)
    ensures
        v_isize.obeys_to_isize_spec(),
        v_isize.to_isize_spec() == v_isize,
        v_i8.obeys_to_isize_spec(),
        v_i8.to_isize_spec() == v_i8,
        v_u8.obeys_to_isize_spec(),
        v_u8.to_isize_spec() == v_u8,
        v_i16.obeys_to_isize_spec(),
        v_i16.to_isize_spec() == v_i16,
        v_u16.obeys_to_isize_spec(),
        v_u16.to_isize_spec() == v_u16,
        v_i32.obeys_to_isize_spec(),
        v_i32.to_isize_spec() == v_i32,
{
}

} // verus!
