//! `AsU64`: a value that already is a `u64`.

use std::rc::Rc;
use vstd::prelude::*;

verus! {

/// A type whose values each are a `u64`, and can be read as one at no
/// cost.
///
/// Among the built-in types it is implemented for `u64` alone.
pub trait AsU64 {
    /// Whether the implementation vouches that `as_u64` gives what
    /// `as_u64_spec` says. One that does not say so vouches for nothing.
    open spec fn obeys_as_u64_spec(&self) -> bool {
        false
    }

    /// The `u64` that `self` is.
    open spec fn as_u64_spec(&self) -> u64 {
        arbitrary()
    }

    /// Reads `self` as a `u64`.
    fn as_u64(&self) -> (r: u64)
        ensures
            self.obeys_as_u64_spec() ==> r == self.as_u64_spec(),
    ;
}

/// A `Box` hands the call on to the value it holds: what it gives is what
/// that value's own implementation gives.
impl<T: AsU64 + ?Sized> AsU64 for Box<T> {
    open spec fn obeys_as_u64_spec(&self) -> bool {
        (**self).obeys_as_u64_spec()
    }

    open spec fn as_u64_spec(&self) -> u64 {
        (**self).as_u64_spec()
    }

    fn as_u64(&self) -> (r: u64)
        ensures
            call_ensures(T::as_u64, (&**self,), r),
    {
        (**self).as_u64()
    }
}

/// An `Rc` hands the call on to the value it holds: what it gives is what
/// that value's own implementation gives.
impl<T: AsU64 + ?Sized> AsU64 for Rc<T> {
    open spec fn obeys_as_u64_spec(&self) -> bool {
        (**self).obeys_as_u64_spec()
    }

    open spec fn as_u64_spec(&self) -> u64 {
        (**self).as_u64_spec()
    }

    fn as_u64(&self) -> (r: u64)
        ensures
            call_ensures(T::as_u64, (&**self,), r),
    {
        (**self).as_u64()
    }
}

impl AsU64 for u64 {
    open spec fn obeys_as_u64_spec(&self) -> bool {
        true
    }

    open spec fn as_u64_spec(&self) -> u64 {
        *self
    }

    fn as_u64(&self) -> (r: u64)
        ensures
            r == *self,
    {
        *self
    }
}

/// A `Box` and an `Rc` vouch for their result exactly where the value they
/// hold does, and a value, a reference to it, a `Box` or an `Rc` that holds
/// it, and a reference to either of the two all stand for the same `u64`.
pub proof fn lemma_as_u64_through_wrappers<T: AsU64 + ?Sized>(v: &T, b: &Box<T>, rc: &Rc<T>)
    requires
        &**b == v,
        &**rc == v,
    ensures
        b.obeys_as_u64_spec() == v.obeys_as_u64_spec(),
        rc.obeys_as_u64_spec() == v.obeys_as_u64_spec(),
        (&v).as_u64_spec() == v.as_u64_spec(),
        b.as_u64_spec() == v.as_u64_spec(),
        (&b).as_u64_spec() == v.as_u64_spec(),
        rc.as_u64_spec() == v.as_u64_spec(),
        (&rc).as_u64_spec() == v.as_u64_spec(),
{
}

/// Read as a `u64`, a `u64` is itself.
pub proof fn lemma_as_u64_keeps_value(v_u64: u64)
    ensures
        v_u64.obeys_as_u64_spec(),
        v_u64.as_u64_spec() == v_u64,
{
}

} // verus!
