//! `IsZero`: whether a value is numerically zero.

use crate::std_calls::duration_nanos;
use crate::std_calls::std_duration_is_zero;
use std::rc::Rc;
use std::time::Duration;
use vstd::prelude::*;

verus! {

/// A type whose values can each tell whether they are zero.
///
/// Among the built-in types it is implemented for the integer types, for
/// `char`, whose zero is `'\0'`, and for `Duration`.
pub trait IsZero {
    /// Whether the implementation vouches that `is_zero` gives what
    /// `is_zero_spec` says. One that does not say so vouches for nothing.
    open spec fn obeys_is_zero_spec(&self) -> bool {
        false
    }

    /// Whether `self` is zero.
    open spec fn is_zero_spec(&self) -> bool {
        arbitrary()
    }

    /// Tells whether `self` is zero.
    fn is_zero(&self) -> (r: bool)
        ensures
            self.obeys_is_zero_spec() ==> r == self.is_zero_spec(),
    ;
}

/// A `Box` hands the call on to the value it holds: what it gives is what
/// that value's own implementation gives.
impl<T: IsZero + ?Sized> IsZero for Box<T> {
    open spec fn obeys_is_zero_spec(&self) -> bool {
        (**self).obeys_is_zero_spec()
    }

    open spec fn is_zero_spec(&self) -> bool {
        (**self).is_zero_spec()
    }

    fn is_zero(&self) -> (r: bool)
        ensures
            call_ensures(T::is_zero, (&**self,), r),
    {
        (**self).is_zero()
    }
}

/// An `Rc` hands the call on to the value it holds: what it gives is what
/// that value's own implementation gives.
impl<T: IsZero + ?Sized> IsZero for Rc<T> {
    open spec fn obeys_is_zero_spec(&self) -> bool {
        (**self).obeys_is_zero_spec()
    }

    open spec fn is_zero_spec(&self) -> bool {
        (**self).is_zero_spec()
    }

    fn is_zero(&self) -> (r: bool)
        ensures
            call_ensures(T::is_zero, (&**self,), r),
    {
        (**self).is_zero()
    }
}

impl IsZero for i8 {
    open spec fn obeys_is_zero_spec(&self) -> bool {
        true
    }

    open spec fn is_zero_spec(&self) -> bool {
        *self == 0
    }

    fn is_zero(&self) -> (r: bool) {
        0 == *self
    }
}

impl IsZero for i16 {
    open spec fn obeys_is_zero_spec(&self) -> bool {
        true
    }

    open spec fn is_zero_spec(&self) -> bool {
        *self == 0
    }

    fn is_zero(&self) -> (r: bool) {
        0 == *self
    }
}

impl IsZero for i32 {
    open spec fn obeys_is_zero_spec(&self) -> bool {
        true
    }

    open spec fn is_zero_spec(&self) -> bool {
        *self == 0
    }

    fn is_zero(&self) -> (r: bool) {
        0 == *self
    }
}

impl IsZero for i64 {
    open spec fn obeys_is_zero_spec(&self) -> bool {
        true
    }

    open spec fn is_zero_spec(&self) -> bool {
        *self == 0
    }

    fn is_zero(&self) -> (r: bool) {
        0 == *self
    }
}

impl IsZero for i128 {
    open spec fn obeys_is_zero_spec(&self) -> bool {
        true
    }

    open spec fn is_zero_spec(&self) -> bool {
        *self == 0
    }

    fn is_zero(&self) -> (r: bool) {
        0 == *self
    }
}

impl IsZero for u8 {
    open spec fn obeys_is_zero_spec(&self) -> bool {
        true
    }

    open spec fn is_zero_spec(&self) -> bool {
        *self == 0
    }

    fn is_zero(&self) -> (r: bool) {
        0 == *self
    }
}

impl IsZero for u16 {
    open spec fn obeys_is_zero_spec(&self) -> bool {
        true
    }

    open spec fn is_zero_spec(&self) -> bool {
        *self == 0
    }

    fn is_zero(&self) -> (r: bool) {
        0 == *self
    }
}

impl IsZero for u32 {
    open spec fn obeys_is_zero_spec(&self) -> bool {
        true
    }

    open spec fn is_zero_spec(&self) -> bool {
        *self == 0
    }

    fn is_zero(&self) -> (r: bool) {
        0 == *self
    }
}

impl IsZero for u64 {
    open spec fn obeys_is_zero_spec(&self) -> bool {
        true
    }

    open spec fn is_zero_spec(&self) -> bool {
        *self == 0
    }

    fn is_zero(&self) -> (r: bool) {
        0 == *self
    }
}

impl IsZero for u128 {
    open spec fn obeys_is_zero_spec(&self) -> bool {
        true
    }

    open spec fn is_zero_spec(&self) -> bool {
        *self == 0
    }

    fn is_zero(&self) -> (r: bool) {
        0 == *self
    }
}

impl IsZero for isize {
    open spec fn obeys_is_zero_spec(&self) -> bool {
        true
    }

    open spec fn is_zero_spec(&self) -> bool {
        *self == 0
    }

    fn is_zero(&self) -> (r: bool) {
        0 == *self
    }
}

impl IsZero for usize {
    open spec fn obeys_is_zero_spec(&self) -> bool {
        true
    }

    open spec fn is_zero_spec(&self) -> bool {
        *self == 0
    }

    fn is_zero(&self) -> (r: bool) {
        0 == *self
    }
}

impl IsZero for char {
    open spec fn obeys_is_zero_spec(&self) -> bool {
        true
    }

    open spec fn is_zero_spec(&self) -> bool {
        *self == '\0'
    }

    fn is_zero(&self) -> (r: bool) {
        '\0' == *self
    }
}

/// Tells whether a duration spans no time.
#[allow(non_snake_case)]
pub fn get_is_zero_Duration_(d: &Duration) -> (r: bool)
    ensures
        r == (duration_nanos(*d) == 0),
{
    std_duration_is_zero(d)
}

impl IsZero for Duration {
    open spec fn obeys_is_zero_spec(&self) -> bool {
        true
    }

    open spec fn is_zero_spec(&self) -> bool {
        duration_nanos(*self) == 0
    }

    fn is_zero(&self) -> (r: bool) {
        get_is_zero_Duration_(self)
    }
}

/// Tells whether a process that ended with `code` ended with the code zero.
/// A process that gave no code, as one that a signal ended, did not.
pub fn exit_code_is_zero(code: Option<i32>) -> (r: bool)
    ensures
        r == (code == Some(0i32)),
{
    match code {
        Some(ec) => 0 == ec,
        None => false,
    }
}

/// A `Box` and an `Rc` vouch for their answer exactly where the value they
/// hold does, and a value, a reference to it, a `Box` or an `Rc` that holds
/// it, and a reference to either of the two all agree on whether they are
/// zero.
pub proof fn lemma_is_zero_through_wrappers<T: IsZero + ?Sized>(v: &T, b: &Box<T>, rc: &Rc<T>)
    requires
        &**b == v,
        &**rc == v,
    ensures
        b.obeys_is_zero_spec() == v.obeys_is_zero_spec(),
        rc.obeys_is_zero_spec() == v.obeys_is_zero_spec(),
        (&v).is_zero_spec() == v.is_zero_spec(),
        b.is_zero_spec() == v.is_zero_spec(),
        (&b).is_zero_spec() == v.is_zero_spec(),
        rc.is_zero_spec() == v.is_zero_spec(),
        (&rc).is_zero_spec() == v.is_zero_spec(),
{
}

} // verus!
