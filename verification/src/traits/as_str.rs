//! `AsStr`: a value that shows its text.

use std::rc::Rc;
use vstd::prelude::*;

verus! {

/// A type whose values each hold text in one piece, and can lend it as a
/// string slice.
///
/// Among the built-in types it is implemented for `str`, `&str` and `String`.
pub trait AsStr {
    /// Whether the implementation vouches that `as_str` gives what
    /// `as_str_spec` says. One that does not say so vouches for nothing.
    open spec fn obeys_as_str_spec(&self) -> bool {
        false
    }

    /// The text of `self`.
    open spec fn as_str_spec(&self) -> Seq<char> {
        arbitrary()
    }

    /// Lends the text of `self`.
    fn as_str(&self) -> (r: &str)
        ensures
            self.obeys_as_str_spec() ==> r@ == self.as_str_spec(),
    ;
}

/// A `Box` hands the call on to the value it holds: what it gives is what
/// that value's own implementation gives.
impl<T: AsStr + ?Sized> AsStr for Box<T> {
    open spec fn obeys_as_str_spec(&self) -> bool {
        (**self).obeys_as_str_spec()
    }

    open spec fn as_str_spec(&self) -> Seq<char> {
        (**self).as_str_spec()
    }

    fn as_str(&self) -> (r: &str)
        ensures
            call_ensures(T::as_str, (&**self,), r),
    {
        (**self).as_str()
    }
}

/// An `Rc` hands the call on to the value it holds: what it gives is what
/// that value's own implementation gives.
impl<T: AsStr + ?Sized> AsStr for Rc<T> {
    open spec fn obeys_as_str_spec(&self) -> bool {
        (**self).obeys_as_str_spec()
    }

    open spec fn as_str_spec(&self) -> Seq<char> {
        (**self).as_str_spec()
    }

    fn as_str(&self) -> (r: &str)
        ensures
            call_ensures(T::as_str, (&**self,), r),
    {
        (**self).as_str()
    }
}

impl AsStr for str {
    open spec fn obeys_as_str_spec(&self) -> bool {
        true
    }

    open spec fn as_str_spec(&self) -> Seq<char> {
        self@
    }

    fn as_str(&self) -> (r: &str) {
        self
    }
}

impl AsStr for &str {
    open spec fn obeys_as_str_spec(&self) -> bool {
        true
    }

    open spec fn as_str_spec(&self) -> Seq<char> {
        self@
    }

    fn as_str(&self) -> (r: &str) {
        self
    }
}

impl AsStr for String {
    open spec fn obeys_as_str_spec(&self) -> bool {
        true
    }

    open spec fn as_str_spec(&self) -> Seq<char> {
        self@
    }

    fn as_str(&self) -> (r: &str) {
        self.as_str()
    }
}

/// A `Box` and an `Rc` vouch for their answer exactly where the value they
/// hold does, and a value, a reference to it, a `Box` or an `Rc` that holds
/// it, and a reference to either of the two all show the same text.
pub proof fn lemma_as_str_through_wrappers<T: AsStr + ?Sized>(v: &T, b: &Box<T>, rc: &Rc<T>)
    requires
        &**b == v,
        &**rc == v,
    ensures
        b.obeys_as_str_spec() == v.obeys_as_str_spec(),
        rc.obeys_as_str_spec() == v.obeys_as_str_spec(),
        (&v).as_str_spec() == v.as_str_spec(),
        b.as_str_spec() == v.as_str_spec(),
        (&b).as_str_spec() == v.as_str_spec(),
        rc.as_str_spec() == v.as_str_spec(),
        (&rc).as_str_spec() == v.as_str_spec(),
{
}

/// The text that a string slice or a `String` shows is its own.
pub proof fn lemma_as_str_keeps_text(s: &str, owned: String)
    ensures
        s.obeys_as_str_spec(),
        s.as_str_spec() == s@,
        (&s).obeys_as_str_spec(),
        (&s).as_str_spec() == s@,
        owned.obeys_as_str_spec(),
        owned.as_str_spec() == owned@,
{
}

} // verus!
