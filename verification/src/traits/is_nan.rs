//! `IsNAN`: whether a value is not a number.

use std::rc::Rc;
use vstd::prelude::*;

verus! {

/// A type whose values can each tell whether they are "not a number", as
/// the result of dividing zero by zero is.
///
/// This crate implements it for no built-in type: it is there for number
/// types that have such values.
pub trait IsNAN {
    /// Whether the implementation vouches that `is_nan` gives what
    /// `is_nan_spec` says. One that does not say so vouches for nothing.
    open spec fn obeys_is_nan_spec(&self) -> bool {
        false
    }

    /// Whether `self` is not a number.
    open spec fn is_nan_spec(&self) -> bool {
        arbitrary()
    }

    /// Tells whether `self` is not a number.
    fn is_nan(&self) -> (r: bool)
        ensures
            self.obeys_is_nan_spec() ==> r == self.is_nan_spec(),
    ;
}

/// A `Box` hands the call on to the value it holds: what it gives is what
/// that value's own implementation gives.
impl<T: IsNAN + ?Sized> IsNAN for Box<T> {
    open spec fn obeys_is_nan_spec(&self) -> bool {
        (**self).obeys_is_nan_spec()
    }

    open spec fn is_nan_spec(&self) -> bool {
        (**self).is_nan_spec()
    }

    fn is_nan(&self) -> (r: bool)
        ensures
            call_ensures(T::is_nan, (&**self,), r),
    {
        (**self).is_nan()
    }
}

/// An `Rc` hands the call on to the value it holds: what it gives is what
/// that value's own implementation gives.
impl<T: IsNAN + ?Sized> IsNAN for Rc<T> {
    open spec fn obeys_is_nan_spec(&self) -> bool {
        (**self).obeys_is_nan_spec()
    }

    open spec fn is_nan_spec(&self) -> bool {
        (**self).is_nan_spec()
    }

    fn is_nan(&self) -> (r: bool)
        ensures
            call_ensures(T::is_nan, (&**self,), r),
    {
        (**self).is_nan()
    }
}

/// A `Box` and an `Rc` vouch for their answer exactly where the value they
/// hold does, and a value, a reference to it, a `Box` or an `Rc` that holds
/// it, and a reference to either of the two all agree on whether they are not
/// a number.
pub proof fn lemma_is_nan_through_wrappers<T: IsNAN + ?Sized>(v: &T, b: &Box<T>, rc: &Rc<T>)
    requires
        &**b == v,
        &**rc == v,
    ensures
        b.obeys_is_nan_spec() == v.obeys_is_nan_spec(),
        rc.obeys_is_nan_spec() == v.obeys_is_nan_spec(),
        (&v).is_nan_spec() == v.is_nan_spec(),
        b.is_nan_spec() == v.is_nan_spec(),
        (&b).is_nan_spec() == v.is_nan_spec(),
        rc.is_nan_spec() == v.is_nan_spec(),
        (&rc).is_nan_spec() == v.is_nan_spec(),
{
}

} // verus!
