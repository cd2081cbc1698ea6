//! `AsI32`: a value that already is an `i32`.

use std::rc::Rc;
use vstd::prelude::*;

verus! {

/// A type whose values each are an `i32`, and can be read as one at no
/// cost.
///
/// Among the built-in types it is implemented for `i32` alone.
pub trait AsI32 {
    /// Whether the implementation vouches that `as_i32` gives what
    /// `as_i32_spec` says. One that does not say so vouches for nothing.
    open spec fn obeys_as_i32_spec(&self) -> bool {
        false
    }

    /// The `i32` that `self` is.
    open spec fn as_i32_spec(&self) -> i32 {
        arbitrary()
    }

    /// Reads `self` as an `i32`.
    fn as_i32(&self) -> (r: i32)
        ensures
            self.obeys_as_i32_spec() ==> r == self.as_i32_spec(),
    ;
}

/// A `Box` hands the call on to the value it holds: what it gives is what
/// that value's own implementation gives.
impl<T: AsI32 + ?Sized> AsI32 for Box<T> {
    open spec fn obeys_as_i32_spec(&self) -> bool {
        (**self).obeys_as_i32_spec()
    }

    open spec fn as_i32_spec(&self) -> i32 {
        (**self).as_i32_spec()
    }

    fn as_i32(&self) -> (r: i32)
        ensures
            call_ensures(T::as_i32, (&**self,), r),
    {
        (**self).as_i32()
    }
}

/// An `Rc` hands the call on to the value it holds: what it gives is what
/// that value's own implementation gives.
impl<T: AsI32 + ?Sized> AsI32 for Rc<T> {
    open spec fn obeys_as_i32_spec(&self) -> bool {
        (**self).obeys_as_i32_spec()
    }

    open spec fn as_i32_spec(&self) -> i32 {
        (**self).as_i32_spec()
    }

    fn as_i32(&self) -> (r: i32)
        ensures
            call_ensures(T::as_i32, (&**self,), r),
    {
        (**self).as_i32()
    }
}

impl AsI32 for i32 {
    open spec fn obeys_as_i32_spec(&self) -> bool {
        true
    }

    open spec fn as_i32_spec(&self) -> i32 {
        *self
    }

    fn as_i32(&self) -> (r: i32)
        ensures
            r == *self,
    {
        *self
    }
}

/// A `Box` and an `Rc` vouch for their result exactly where the value they
/// hold does, and a value, a reference to it, a `Box` or an `Rc` that holds
/// it, and a reference to either of the two all stand for the same `i32`.
pub proof fn lemma_as_i32_through_wrappers<T: AsI32 + ?Sized>(v: &T, b: &Box<T>, rc: &Rc<T>)
    requires
        &**b == v,
        &**rc == v,
    ensures
        b.obeys_as_i32_spec() == v.obeys_as_i32_spec(),
        rc.obeys_as_i32_spec() == v.obeys_as_i32_spec(),
        (&v).as_i32_spec() == v.as_i32_spec(),
        b.as_i32_spec() == v.as_i32_spec(),
        (&b).as_i32_spec() == v.as_i32_spec(),
        rc.as_i32_spec() == v.as_i32_spec(),
        (&rc).as_i32_spec() == v.as_i32_spec(),
{
}

/// Read as an `i32`, an `i32` is itself.
pub proof fn lemma_as_i32_keeps_value(v_i32: i32)
    ensures
        v_i32.obeys_as_i32_spec(),
        v_i32.as_i32_spec() == v_i32,
{
}

} // verus!
