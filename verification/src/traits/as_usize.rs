//! `AsUSize`: a value that already is a `usize`.

use std::rc::Rc;
use vstd::prelude::*;

verus! {

/// A type whose values each are a `usize`, and can be read as one at no
/// cost.
///
/// Among the built-in types it is implemented for `usize` alone.
pub trait AsUSize {
    /// Whether the implementation vouches that `as_usize` gives what
    /// `as_usize_spec` says. One that does not say so vouches for nothing.
    open spec fn obeys_as_usize_spec(&self) -> bool {
        false
    }

    /// The `usize` that `self` is.
    open spec fn as_usize_spec(&self) -> usize {
        arbitrary()
    }

    /// Reads `self` as a `usize`.
    fn as_usize(&self) -> (r: usize)
        ensures
            self.obeys_as_usize_spec() ==> r == self.as_usize_spec(),
    ;
}

/// A `Box` hands the call on to the value it holds: what it gives is what
/// that value's own implementation gives.
impl<T: AsUSize + ?Sized> AsUSize for Box<T> {
    open spec fn obeys_as_usize_spec(&self) -> bool {
        (**self).obeys_as_usize_spec()
    }

    open spec fn as_usize_spec(&self) -> usize {
        (**self).as_usize_spec()
    }

    fn as_usize(&self) -> (r: usize)
        ensures
            call_ensures(T::as_usize, (&**self,), r),
    {
        (**self).as_usize()
    }
}

/// An `Rc` hands the call on to the value it holds: what it gives is what
/// that value's own implementation gives.
impl<T: AsUSize + ?Sized> AsUSize for Rc<T> {
    open spec fn obeys_as_usize_spec(&self) -> bool {
        (**self).obeys_as_usize_spec()
    }

    open spec fn as_usize_spec(&self) -> usize {
        (**self).as_usize_spec()
    }

    fn as_usize(&self) -> (r: usize)
        ensures
            call_ensures(T::as_usize, (&**self,), r),
    {
        (**self).as_usize()
    }
}

impl AsUSize for usize {
    open spec fn obeys_as_usize_spec(&self) -> bool {
        true
    }

    open spec fn as_usize_spec(&self) -> usize {
        *self
    }

    fn as_usize(&self) -> (r: usize)
        ensures
            r == *self,
    {
        *self
    }
}

/// A `Box` and an `Rc` vouch for their result exactly where the value they
/// hold does, and a value, a reference to it, a `Box` or an `Rc` that holds
/// it, and a reference to either of the two all stand for the same `usize`.
pub proof fn lemma_as_usize_through_wrappers<T: AsUSize + ?Sized>(v: &T, b: &Box<T>, rc: &Rc<T>)
    requires
        &**b == v,
        &**rc == v,
    ensures
        b.obeys_as_usize_spec() == v.obeys_as_usize_spec(),
        rc.obeys_as_usize_spec() == v.obeys_as_usize_spec(),
        (&v).as_usize_spec() == v.as_usize_spec(),
        b.as_usize_spec() == v.as_usize_spec(),
        (&b).as_usize_spec() == v.as_usize_spec(),
        rc.as_usize_spec() == v.as_usize_spec(),
        (&rc).as_usize_spec() == v.as_usize_spec(),
{
}

/// Read as a `usize`, a `usize` is itself.
pub proof fn lemma_as_usize_keeps_value(v_usize: usize)
    ensures
        v_usize.obeys_as_usize_spec(),
        v_usize.as_usize_spec() == v_usize,
{
}

} // verus!
