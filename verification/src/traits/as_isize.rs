//! `AsISize`: a value that already is an `isize`.

use std::rc::Rc;
use vstd::prelude::*;

verus! {

/// A type whose values each are an `isize`, and can be read as one at no
/// cost.
///
/// Among the built-in types it is implemented for `isize` alone.
pub trait AsISize {
    /// Whether the implementation vouches that `as_isize` gives what
    /// `as_isize_spec` says. One that does not say so vouches for nothing.
    open spec fn obeys_as_isize_spec(&self) -> bool {
        false
    }

    /// The `isize` that `self` is.
    open spec fn as_isize_spec(&self) -> isize {
        arbitrary()
    }

    /// Reads `self` as an `isize`.
    fn as_isize(&self) -> (r: isize)
        ensures
            self.obeys_as_isize_spec() ==> r == self.as_isize_spec(),
    ;
}

/// A `Box` hands the call on to the value it holds: what it gives is what
/// that value's own implementation gives.
impl<T: AsISize + ?Sized> AsISize for Box<T> {
    open spec fn obeys_as_isize_spec(&self) -> bool {
        (**self).obeys_as_isize_spec()
    }

    open spec fn as_isize_spec(&self) -> isize {
        (**self).as_isize_spec()
    }

    fn as_isize(&self) -> (r: isize)
        ensures
            call_ensures(T::as_isize, (&**self,), r),
    {
        (**self).as_isize()
    }
}

/// An `Rc` hands the call on to the value it holds: what it gives is what
/// that value's own implementation gives.
impl<T: AsISize + ?Sized> AsISize for Rc<T> {
    open spec fn obeys_as_isize_spec(&self) -> bool {
        (**self).obeys_as_isize_spec()
    }

    open spec fn as_isize_spec(&self) -> isize {
        (**self).as_isize_spec()
    }

    fn as_isize(&self) -> (r: isize)
        ensures
            call_ensures(T::as_isize, (&**self,), r),
    {
        (**self).as_isize()
    }
}

impl AsISize for isize {
    open spec fn obeys_as_isize_spec(&self) -> bool {
        true
    }

    open spec fn as_isize_spec(&self) -> isize {
        *self
    }

    fn as_isize(&self) -> (r: isize)
        ensures
            r == *self,
    {
        *self
    }
}

/// A `Box` and an `Rc` vouch for their result exactly where the value they
/// hold does, and a value, a reference to it, a `Box` or an `Rc` that holds
/// it, and a reference to either of the two all stand for the same `isize`.
pub proof fn lemma_as_isize_through_wrappers<T: AsISize + ?Sized>(v: &T, b: &Box<T>, rc: &Rc<T>)
    requires
        &**b == v,
        &**rc == v,
    ensures
        b.obeys_as_isize_spec() == v.obeys_as_isize_spec(),
        rc.obeys_as_isize_spec() == v.obeys_as_isize_spec(),
        (&v).as_isize_spec() == v.as_isize_spec(),
        b.as_isize_spec() == v.as_isize_spec(),
        (&b).as_isize_spec() == v.as_isize_spec(),
        rc.as_isize_spec() == v.as_isize_spec(),
        (&rc).as_isize_spec() == v.as_isize_spec(),
{
}

/// Read as an `isize`, an `isize` is itself.
pub proof fn lemma_as_isize_keeps_value(v_isize: isize)
    ensures
        v_isize.obeys_as_isize_spec(),
        v_isize.as_isize_spec() == v_isize,
{
}

} // verus!
