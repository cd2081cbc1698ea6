//! `IsInfinity`: whether a value is infinite.

use std::rc::Rc;
use vstd::prelude::*;

verus! {

/// A type whose values can each tell whether they are infinite, in thought or
/// in fact.
///
/// This crate implements it for no built-in type: it is there for number
/// types that have such values.
pub trait IsInfinity {
    /// Whether the implementation vouches that `is_infinity` gives what
    /// `is_infinity_spec` says. One that does not say so vouches for nothing.
    open spec fn obeys_is_infinity_spec(&self) -> bool {
        false
    }

    /// Whether `self` is infinite.
    open spec fn is_infinity_spec(&self) -> bool {
        arbitrary()
    }

    /// Tells whether `self` is infinite.
    fn is_infinity(&self) -> (r: bool)
        ensures
            self.obeys_is_infinity_spec() ==> r == self.is_infinity_spec(),
    ;
}

/// A `Box` hands the call on to the value it holds: what it gives is what
/// that value's own implementation gives.
impl<T: IsInfinity + ?Sized> IsInfinity for Box<T> {
    open spec fn obeys_is_infinity_spec(&self) -> bool {
        (**self).obeys_is_infinity_spec()
    }

    open spec fn is_infinity_spec(&self) -> bool {
        (**self).is_infinity_spec()
    }

    fn is_infinity(&self) -> (r: bool)
        ensures
            call_ensures(T::is_infinity, (&**self,), r),
    {
        (**self).is_infinity()
    }
}

/// An `Rc` hands the call on to the value it holds: what it gives is what
/// that value's own implementation gives.
impl<T: IsInfinity + ?Sized> IsInfinity for Rc<T> {
    open spec fn obeys_is_infinity_spec(&self) -> bool {
        (**self).obeys_is_infinity_spec()
    }

    open spec fn is_infinity_spec(&self) -> bool {
        (**self).is_infinity_spec()
    }

    fn is_infinity(&self) -> (r: bool)
        ensures
            call_ensures(T::is_infinity, (&**self,), r),
    {
        (**self).is_infinity()
    }
}

/// A `Box` and an `Rc` vouch for their answer exactly where the value they
/// hold does, and a value, a reference to it, a `Box` or an `Rc` that holds
/// it, and a reference to either of the two all agree on whether they are
/// infinite.
pub proof fn lemma_is_infinity_through_wrappers<T: IsInfinity + ?Sized>(
    v: &T,
    b: &Box<T>,
    rc: &Rc<T>,
)
    requires
        &**b == v,
        &**rc == v,
    ensures
        b.obeys_is_infinity_spec() == v.obeys_is_infinity_spec(),
        rc.obeys_is_infinity_spec() == v.obeys_is_infinity_spec(),
        (&v).is_infinity_spec() == v.is_infinity_spec(),
        b.is_infinity_spec() == v.is_infinity_spec(),
        (&b).is_infinity_spec() == v.is_infinity_spec(),
        rc.is_infinity_spec() == v.is_infinity_spec(),
        (&rc).is_infinity_spec() == v.is_infinity_spec(),
{
}

} // verus!
