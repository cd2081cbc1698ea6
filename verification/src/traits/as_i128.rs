//! `AsI128`: a value that already is an `i128`.

use std::rc::Rc;
use vstd::prelude::*;

verus! {

/// A type whose values each are an `i128`, and can be read as one at no
/// cost.
///
/// Among the built-in types it is implemented for `i128` alone.
pub trait AsI128 {
    /// Whether the implementation vouches that `as_i128` gives what
    /// `as_i128_spec` says. One that does not say so vouches for nothing.
    open spec fn obeys_as_i128_spec(&self) -> bool {
        false
    }

    /// The `i128` that `self` is.
    open spec fn as_i128_spec(&self) -> i128 {
        arbitrary()
    }

    /// Reads `self` as an `i128`.
    fn as_i128(&self) -> (r: i128)
        ensures
            self.obeys_as_i128_spec() ==> r == self.as_i128_spec(),
    ;
}

/// A `Box` hands the call on to the value it holds: what it gives is what
/// that value's own implementation gives.
impl<T: AsI128 + ?Sized> AsI128 for Box<T> {
    open spec fn obeys_as_i128_spec(&self) -> bool {
        (**self).obeys_as_i128_spec()
    }

    open spec fn as_i128_spec(&self) -> i128 {
        (**self).as_i128_spec()
    }

    fn as_i128(&self) -> (r: i128)
        ensures
            call_ensures(T::as_i128, (&**self,), r),
    {
        (**self).as_i128()
    }
}

/// An `Rc` hands the call on to the value it holds: what it gives is what
/// that value's own implementation gives.
impl<T: AsI128 + ?Sized> AsI128 for Rc<T> {
    open spec fn obeys_as_i128_spec(&self) -> bool {
        (**self).obeys_as_i128_spec()
    }

    open spec fn as_i128_spec(&self) -> i128 {
        (**self).as_i128_spec()
    }

    fn as_i128(&self) -> (r: i128)
        ensures
            call_ensures(T::as_i128, (&**self,), r),
    {
        (**self).as_i128()
    }
}

impl AsI128 for i128 {
    open spec fn obeys_as_i128_spec(&self) -> bool {
        true
    }

    open spec fn as_i128_spec(&self) -> i128 {
        *self
    }

    fn as_i128(&self) -> (r: i128)
        ensures
            r == *self,
    {
        *self
    }
}

/// A `Box` and an `Rc` vouch for their result exactly where the value they
/// hold does, and a value, a reference to it, a `Box` or an `Rc` that holds
/// it, and a reference to either of the two all stand for the same `i128`.
pub proof fn lemma_as_i128_through_wrappers<T: AsI128 + ?Sized>(v: &T, b: &Box<T>, rc: &Rc<T>)
    requires
        &**b == v,
        &**rc == v,
    ensures
        b.obeys_as_i128_spec() == v.obeys_as_i128_spec(),
        rc.obeys_as_i128_spec() == v.obeys_as_i128_spec(),
        (&v).as_i128_spec() == v.as_i128_spec(),
        b.as_i128_spec() == v.as_i128_spec(),
        (&b).as_i128_spec() == v.as_i128_spec(),
        rc.as_i128_spec() == v.as_i128_spec(),
        (&rc).as_i128_spec() == v.as_i128_spec(),
{
}

/// Read as an `i128`, an `i128` is itself.
pub proof fn lemma_as_i128_keeps_value(v_i128: i128)
    ensures
        v_i128.obeys_as_i128_spec(),
        v_i128.as_i128_spec() == v_i128,
{
}

} // verus!
