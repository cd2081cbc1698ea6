//! `IsDefault`: whether a value is its type's default.

use std::rc::Rc;
use vstd::prelude::*;

verus! {

/// A type whose values can each tell whether they hold the default value of
/// the type.
///
/// This crate implements it for no built-in type: what the default of a type
/// is, the type says.
pub trait IsDefault {
    /// Whether the implementation vouches that `is_default` gives what
    /// `is_default_spec` says. One that does not say so vouches for nothing.
    open spec fn obeys_is_default_spec(&self) -> bool {
        false
    }

    /// Whether `self` holds the default value.
    open spec fn is_default_spec(&self) -> bool {
        arbitrary()
    }

    /// Tells whether `self` holds the default value.
    fn is_default(&self) -> (r: bool)
        ensures
            self.obeys_is_default_spec() ==> r == self.is_default_spec(),
    ;
}

/// A `Box` hands the call on to the value it holds: what it gives is what
/// that value's own implementation gives.
impl<T: IsDefault + ?Sized> IsDefault for Box<T> {
    open spec fn obeys_is_default_spec(&self) -> bool {
        (**self).obeys_is_default_spec()
    }

    open spec fn is_default_spec(&self) -> bool {
        (**self).is_default_spec()
    }

    fn is_default(&self) -> (r: bool)
        ensures
            call_ensures(T::is_default, (&**self,), r),
    {
        (**self).is_default()
    }
}

/// An `Rc` hands the call on to the value it holds: what it gives is what
/// that value's own implementation gives.
impl<T: IsDefault + ?Sized> IsDefault for Rc<T> {
    open spec fn obeys_is_default_spec(&self) -> bool {
        (**self).obeys_is_default_spec()
    }

    open spec fn is_default_spec(&self) -> bool {
        (**self).is_default_spec()
    }

    fn is_default(&self) -> (r: bool)
        ensures
            call_ensures(T::is_default, (&**self,), r),
    {
        (**self).is_default()
    }
}

/// A `Box` and an `Rc` vouch for their answer exactly where the value they
/// hold does, and a value, a reference to it, a `Box` or an `Rc` that holds
/// it, and a reference to either of the two all agree on whether they are the
/// default.
pub proof fn lemma_is_default_through_wrappers<T: IsDefault + ?Sized>(v: &T, b: &Box<T>, rc: &Rc<T>)
    requires
        &**b == v,
        &**rc == v,
    ensures
        b.obeys_is_default_spec() == v.obeys_is_default_spec(),
        rc.obeys_is_default_spec() == v.obeys_is_default_spec(),
        (&v).is_default_spec() == v.is_default_spec(),
        b.is_default_spec() == v.is_default_spec(),
        (&b).is_default_spec() == v.is_default_spec(),
        rc.is_default_spec() == v.is_default_spec(),
        (&rc).is_default_spec() == v.is_default_spec(),
{
}

} // verus!
