//! `AsI64`: a value that already is an `i64`.

use std::rc::Rc;
use vstd::prelude::*;

verus! {

/// A type whose values each are an `i64`, and can be read as one at no
/// cost.
///
/// Among the built-in types it is implemented for `i64` alone.
pub trait AsI64 {
    /// Whether the implementation vouches that `as_i64` gives what
    /// `as_i64_spec` says. One that does not say so vouches for nothing.
    open spec fn obeys_as_i64_spec(&self) -> bool {
        false
    }

    /// The `i64` that `self` is.
    open spec fn as_i64_spec(&self) -> i64 {
        arbitrary()
    }

    /// Reads `self` as an `i64`.
    fn as_i64(&self) -> (r: i64)
        ensures
            self.obeys_as_i64_spec() ==> r == self.as_i64_spec(),
    ;
}

/// A `Box` hands the call on to the value it holds: what it gives is what
/// that value's own implementation gives.
impl<T: AsI64 + ?Sized> AsI64 for Box<T> {
    open spec fn obeys_as_i64_spec(&self) -> bool {
        (**self).obeys_as_i64_spec()
    }

    open spec fn as_i64_spec(&self) -> i64 {
        (**self).as_i64_spec()
    }

    fn as_i64(&self) -> (r: i64)
        ensures
            call_ensures(T::as_i64, (&**self,), r),
    {
        (**self).as_i64()
    }
}

/// An `Rc` hands the call on to the value it holds: what it gives is what
/// that value's own implementation gives.
impl<T: AsI64 + ?Sized> AsI64 for Rc<T> {
    open spec fn obeys_as_i64_spec(&self) -> bool {
        (**self).obeys_as_i64_spec()
    }

    open spec fn as_i64_spec(&self) -> i64 {
        (**self).as_i64_spec()
    }

    fn as_i64(&self) -> (r: i64)
        ensures
            call_ensures(T::as_i64, (&**self,), r),
    {
        (**self).as_i64()
    }
}

impl AsI64 for i64 {
    open spec fn obeys_as_i64_spec(&self) -> bool {
        true
    }

    open spec fn as_i64_spec(&self) -> i64 {
        *self
    }

    fn as_i64(&self) -> (r: i64)
        ensures
            r == *self,
    {
        *self
    }
}

/// A `Box` and an `Rc` vouch for their result exactly where the value they
/// hold does, and a value, a reference to it, a `Box` or an `Rc` that holds
/// it, and a reference to either of the two all stand for the same `i64`.
pub proof fn lemma_as_i64_through_wrappers<T: AsI64 + ?Sized>(v: &T, b: &Box<T>, rc: &Rc<T>)
    requires
        &**b == v,
        &**rc == v,
    ensures
        b.obeys_as_i64_spec() == v.obeys_as_i64_spec(),
        rc.obeys_as_i64_spec() == v.obeys_as_i64_spec(),
        (&v).as_i64_spec() == v.as_i64_spec(),
        b.as_i64_spec() == v.as_i64_spec(),
        (&b).as_i64_spec() == v.as_i64_spec(),
        rc.as_i64_spec() == v.as_i64_spec(),
        (&rc).as_i64_spec() == v.as_i64_spec(),
{
}

/// Read as an `i64`, an `i64` is itself.
pub proof fn lemma_as_i64_keeps_value(v_i64: i64)
    ensures
        v_i64.obeys_as_i64_spec(),
        v_i64.as_i64_spec() == v_i64,
{
}

} // verus!
