//! The calls into `std` that this crate makes on trust.
//!
//! `vstd` gives no contract to the functions called here, nor a model to
//! some of the types they work on. Each contract below is believed by the
//! verifier, not proved: it restates what the documentation of `std` says of
//! the function that the body calls.

use std::collections::VecDeque;
use std::ops::Range;
use std::ops::RangeFrom;
use std::ops::RangeFull;
use std::ops::RangeInclusive;
use std::ops::RangeTo;
use std::path::Path;
use std::path::PathBuf;
use std::time::Duration;
use vstd::prelude::*;
use vstd::std_specs::cmp::PartialOrdIs;
use vstd::std_specs::cmp::PartialOrdSpec;

verus! {

/// `std::path::Path`, of which the verifier sees nothing but
/// [`path_len`].
#[verifier::external_type_specification]
#[verifier::external_body]
pub struct ExPath(Path);

/// `std::path::PathBuf`, of which the verifier sees nothing but
/// [`path_buf_len`].
#[verifier::external_type_specification]
#[verifier::external_body]
pub struct ExPathBuf(PathBuf);

/// `std::ops::RangeFrom`, carried through without a look inside.
#[verifier::external_type_specification]
#[verifier::external_body]
#[verifier::reject_recursive_types(Idx)]
pub struct ExRangeFrom<Idx>(RangeFrom<Idx>);

/// `std::ops::RangeTo`, carried through without a look inside.
#[verifier::external_type_specification]
#[verifier::external_body]
#[verifier::reject_recursive_types(Idx)]
pub struct ExRangeTo<Idx>(RangeTo<Idx>);

/// `std::ops::RangeFull`, carried through without a look inside.
#[verifier::external_type_specification]
#[verifier::external_body]
pub struct ExRangeFull(RangeFull);

/// The time that a `Duration` spans, in nanoseconds.
pub uninterp spec fn duration_nanos(d: Duration) -> nat;

/// The length of a path as `std` stores it: what `OsStr::len` gives for
/// `Path::as_os_str`.
pub uninterp spec fn path_len(p: &Path) -> usize;

/// The length of an owned path as `std` stores it: what `OsStr::len` gives for
/// the path's `as_os_str`.
pub uninterp spec fn path_buf_len(p: &PathBuf) -> usize;

/// `Duration::is_zero`: true if and only if the duration spans no time.
#[verifier::external_body]
pub(crate) fn std_duration_is_zero(d: &Duration) -> (r: bool)
    ensures
        r == (duration_nanos(*d) == 0),
{
    d.is_zero()
}

/// `OsStr::len` on `Path::as_os_str`: the stored length of the path.
#[verifier::external_body]
pub(crate) fn std_path_len(p: &Path) -> (r: usize)
    ensures
        r == path_len(p),
{
    p.as_os_str().len()
}

/// `OsStr::is_empty` on `Path::as_os_str`: true if and only if the stored
/// length of the path is zero.
#[verifier::external_body]
pub(crate) fn std_path_is_empty(p: &Path) -> (r: bool)
    ensures
        r == (path_len(p) == 0),
{
    p.as_os_str().is_empty()
}

/// `OsStr::len` on the `as_os_str` of an owned path: its stored length.
#[verifier::external_body]
pub(crate) fn std_path_buf_len(p: &PathBuf) -> (r: usize)
    ensures
        r == path_buf_len(p),
{
    p.as_os_str().len()
}

/// `OsStr::is_empty` on the `as_os_str` of an owned path: true if and only if
/// its stored length is zero.
#[verifier::external_body]
pub(crate) fn std_path_buf_is_empty(p: &PathBuf) -> (r: bool)
    ensures
        r == (path_buf_len(p) == 0),
{
    p.as_os_str().is_empty()
}

/// `VecDeque::is_empty`: true if and only if the deque holds no element.
#[verifier::external_body]
pub(crate) fn std_vec_deque_is_empty<T>(coll: &VecDeque<T>) -> (r: bool)
    ensures
        r == (coll@.len() == 0),
{
    coll.is_empty()
}

/// `Range::is_empty`: true unless `start < end`. Where the comparison of
/// `Idx` is not known to follow its specification, nothing is claimed.
#[verifier::external_body]
pub(crate) fn std_range_is_empty<Idx: PartialOrd>(range: &Range<Idx>) -> (r: bool)
    ensures
        Idx::obeys_partial_cmp_spec() ==> r == !range.start.is_lt(&range.end),
{
    range.is_empty()
}

/// `RangeInclusive::is_empty`: true once the range has been walked to its
/// end, and else true unless `start <= end`. Where the comparison of `Idx` is
/// not known to follow its specification, nothing is claimed.
#[verifier::external_body]
pub(crate) fn std_range_inclusive_is_empty<Idx: PartialOrd>(range: &RangeInclusive<Idx>) -> (r:
    bool)
    ensures
        Idx::obeys_partial_cmp_spec() ==> r == (range@.exhausted || !range@.start.is_le(
            &range@.end,
        )),
{
    range.is_empty()
}

} // verus!
