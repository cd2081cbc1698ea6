//! `Real`: the marker of the built-in floating-point types.

use super::scalar::Scalar;
use vstd::prelude::*;

verus! {

/// Marks the built-in floating-point types. This crate gives it to no type.
///
/// The trait is closed: no other crate can implement it.
pub trait Real: Scalar {
    /// The type is, in the table of the scalar types, a floating-point type.
    proof fn lemma_is_real()
        ensures
            Self::scalar_type().is_real(),
    ;
}

} // verus!
