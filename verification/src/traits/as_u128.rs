//! `AsU128`: a value that already is a `u128`.

use std::rc::Rc;
use vstd::prelude::*;

verus! {

/// A type whose values each are a `u128`, and can be read as one at no
/// cost.
///
/// Among the built-in types it is implemented for `u128` alone.
pub trait AsU128 {
    /// Whether the implementation vouches that `as_u128` gives what
    /// `as_u128_spec` says. One that does not say so vouches for nothing.
    open spec fn obeys_as_u128_spec(&self) -> bool {
        false
    }

    /// The `u128` that `self` is.
    open spec fn as_u128_spec(&self) -> u128 {
        arbitrary()
    }

    /// Reads `self` as a `u128`.
    fn as_u128(&self) -> (r: u128)
        ensures
            self.obeys_as_u128_spec() ==> r == self.as_u128_spec(),
    ;
}

/// A `Box` hands the call on to the value it holds: what it gives is what
/// that value's own implementation gives.
impl<T: AsU128 + ?Sized> AsU128 for Box<T> {
    open spec fn obeys_as_u128_spec(&self) -> bool {
        (**self).obeys_as_u128_spec()
    }

    open spec fn as_u128_spec(&self) -> u128 {
        (**self).as_u128_spec()
    }

    fn as_u128(&self) -> (r: u128)
        ensures
            call_ensures(T::as_u128, (&**self,), r),
    {
        (**self).as_u128()
    }
}

/// An `Rc` hands the call on to the value it holds: what it gives is what
/// that value's own implementation gives.
impl<T: AsU128 + ?Sized> AsU128 for Rc<T> {
    open spec fn obeys_as_u128_spec(&self) -> bool {
        (**self).obeys_as_u128_spec()
    }

    open spec fn as_u128_spec(&self) -> u128 {
        (**self).as_u128_spec()
    }

    fn as_u128(&self) -> (r: u128)
        ensures
            call_ensures(T::as_u128, (&**self,), r),
    {
        (**self).as_u128()
    }
}

impl AsU128 for u128 {
    open spec fn obeys_as_u128_spec(&self) -> bool {
        true
    }

    open spec fn as_u128_spec(&self) -> u128 {
        *self
    }

    fn as_u128(&self) -> (r: u128)
        ensures
            r == *self,
    {
        *self
    }
}

/// A `Box` and an `Rc` vouch for their result exactly where the value they
/// hold does, and a value, a reference to it, a `Box` or an `Rc` that holds
/// it, and a reference to either of the two all stand for the same `u128`.
pub proof fn lemma_as_u128_through_wrappers<T: AsU128 + ?Sized>(v: &T, b: &Box<T>, rc: &Rc<T>)
    requires
        &**b == v,
        &**rc == v,
    ensures
        b.obeys_as_u128_spec() == v.obeys_as_u128_spec(),
        rc.obeys_as_u128_spec() == v.obeys_as_u128_spec(),
        (&v).as_u128_spec() == v.as_u128_spec(),
        b.as_u128_spec() == v.as_u128_spec(),
        (&b).as_u128_spec() == v.as_u128_spec(),
        rc.as_u128_spec() == v.as_u128_spec(),
        (&rc).as_u128_spec() == v.as_u128_spec(),
{
}

/// Read as a `u128`, a `u128` is itself.
pub proof fn lemma_as_u128_keeps_value(v_u128: u128)
    ensures
        v_u128.obeys_as_u128_spec(),
        v_u128.as_u128_spec() == v_u128,
{
}

} // verus!
