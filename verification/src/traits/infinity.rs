//! `Infinity`: the infinite value of a type.

use vstd::prelude::*;

verus! {

/// A type that has an infinite value, in thought or in fact, and can make it.
///
/// This crate implements it for no built-in type: it is there for number
/// types that have such a value. A type that also implements
/// [`IsInfinity`](super::is_infinity::IsInfinity) is expected to tell of this
/// value that it is infinite.
pub trait Infinity: Sized {
    /// Whether the implementation vouches that `infinity` gives what
    /// `infinity_spec` says. One that does not say so vouches for nothing.
    open spec fn obeys_infinity_spec() -> bool {
        false
    }

    /// The infinite value of the type.
    open spec fn infinity_spec() -> Self {
        arbitrary()
    }

    /// Makes the infinite value of the type.
    fn infinity() -> (r: Self)
        ensures
            Self::obeys_infinity_spec() ==> r == Self::infinity_spec(),
    ;
}

} // verus!
