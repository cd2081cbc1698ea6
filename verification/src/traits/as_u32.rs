//! `AsU32`: a value that already is a `u32`.

use std::rc::Rc;
use vstd::prelude::*;

verus! {

/// A type whose values each are a `u32`, and can be read as one at no
/// cost.
///
/// Among the built-in types it is implemented for `u32` alone.
pub trait AsU32 {
    /// Whether the implementation vouches that `as_u32` gives what
    /// `as_u32_spec` says. One that does not say so vouches for nothing.
    open spec fn obeys_as_u32_spec(&self) -> bool {
        false
    }

    /// The `u32` that `self` is.
    open spec fn as_u32_spec(&self) -> u32 {
        arbitrary()
    }

    /// Reads `self` as a `u32`.
    fn as_u32(&self) -> (r: u32)
        ensures
            self.obeys_as_u32_spec() ==> r == self.as_u32_spec(),
    ;
}

/// A `Box` hands the call on to the value it holds: what it gives is what
/// that value's own implementation gives.
impl<T: AsU32 + ?Sized> AsU32 for Box<T> {
    open spec fn obeys_as_u32_spec(&self) -> bool {
        (**self).obeys_as_u32_spec()
    }

    open spec fn as_u32_spec(&self) -> u32 {
        (**self).as_u32_spec()
    }

    fn as_u32(&self) -> (r: u32)
        ensures
            call_ensures(T::as_u32, (&**self,), r),
    {
        (**self).as_u32()
    }
}

/// An `Rc` hands the call on to the value it holds: what it gives is what
/// that value's own implementation gives.
impl<T: AsU32 + ?Sized> AsU32 for Rc<T> {
    open spec fn obeys_as_u32_spec(&self) -> bool {
        (**self).obeys_as_u32_spec()
    }

    open spec fn as_u32_spec(&self) -> u32 {
        (**self).as_u32_spec()
    }

    fn as_u32(&self) -> (r: u32)
        ensures
            call_ensures(T::as_u32, (&**self,), r),
    {
        (**self).as_u32()
    }
}

impl AsU32 for u32 {
    open spec fn obeys_as_u32_spec(&self) -> bool {
        true
    }

    open spec fn as_u32_spec(&self) -> u32 {
        *self
    }

    fn as_u32(&self) -> (r: u32)
        ensures
            r == *self,
    {
        *self
    }
}

/// A `Box` and an `Rc` vouch for their result exactly where the value they
/// hold does, and a value, a reference to it, a `Box` or an `Rc` that holds
/// it, and a reference to either of the two all stand for the same `u32`.
pub proof fn lemma_as_u32_through_wrappers<T: AsU32 + ?Sized>(v: &T, b: &Box<T>, rc: &Rc<T>)
    requires
        &**b == v,
        &**rc == v,
    ensures
        b.obeys_as_u32_spec() == v.obeys_as_u32_spec(),
        rc.obeys_as_u32_spec() == v.obeys_as_u32_spec(),
        (&v).as_u32_spec() == v.as_u32_spec(),
        b.as_u32_spec() == v.as_u32_spec(),
        (&b).as_u32_spec() == v.as_u32_spec(),
        rc.as_u32_spec() == v.as_u32_spec(),
        (&rc).as_u32_spec() == v.as_u32_spec(),
{
}

/// Read as a `u32`, a `u32` is itself.
pub proof fn lemma_as_u32_keeps_value(v_u32: u32)
    ensures
        v_u32.obeys_as_u32_spec(),
        v_u32.as_u32_spec() == v_u32,
{
}

} // verus!
