//! `IsEmpty`: whether a value holds nothing.

use crate::std_calls::duration_nanos;
use crate::std_calls::path_buf_len;
use crate::std_calls::path_len;
use crate::std_calls::std_duration_is_zero;
use crate::std_calls::std_path_buf_is_empty;
use crate::std_calls::std_path_is_empty;
use crate::std_calls::std_range_inclusive_is_empty;
use crate::std_calls::std_range_is_empty;
use crate::std_calls::std_vec_deque_is_empty;
use std::collections::BTreeMap;
use std::collections::BTreeSet;
use std::collections::HashMap;
use std::collections::HashSet;
use std::collections::VecDeque;
use std::ops::Range;
use std::ops::RangeFrom;
use std::ops::RangeFull;
use std::ops::RangeInclusive;
use std::ops::RangeTo;
use std::path::Path;
use std::path::PathBuf;
use std::rc::Rc;
use std::time::Duration;
use vstd::prelude::*;
use vstd::std_specs::cmp::PartialOrdIs;
use vstd::std_specs::cmp::PartialOrdSpec;

verus! {

/// A type whose values can each tell whether they are empty.
///
/// The two bounded ranges are implemented for every index type that can be
/// compared, and a comparison written outside verified code may answer
/// anything. So an implementation says through
/// [`obeys_is_empty_spec`](IsEmpty::obeys_is_empty_spec) whether it vouches
/// for its answer. Every implementation in this crate does, but for the two
/// bounded ranges over an index type whose comparison is not known to follow
/// its own specification.
pub trait IsEmpty {
    /// Whether the implementation vouches that `is_empty` gives what
    /// `is_empty_spec` says. One that does not say so vouches for nothing.
    open spec fn obeys_is_empty_spec(&self) -> bool {
        false
    }

    /// Whether `self` is empty.
    open spec fn is_empty_spec(&self) -> bool {
        arbitrary()
    }

    /// Tells whether `self` is empty.
    fn is_empty(&self) -> (r: bool)
        ensures
            self.obeys_is_empty_spec() ==> r == self.is_empty_spec(),
    ;
}

/// A `Box` hands the call on to the value it holds: what it gives is what
/// that value's own implementation gives.
impl<T: IsEmpty + ?Sized> IsEmpty for Box<T> {
    open spec fn obeys_is_empty_spec(&self) -> bool {
        (**self).obeys_is_empty_spec()
    }

    open spec fn is_empty_spec(&self) -> bool {
        (**self).is_empty_spec()
    }

    fn is_empty(&self) -> (r: bool)
        ensures
            call_ensures(T::is_empty, (&**self,), r),
    {
        (**self).is_empty()
    }
}

/// An `Rc` hands the call on to the value it holds: what it gives is what
/// that value's own implementation gives.
impl<T: IsEmpty + ?Sized> IsEmpty for Rc<T> {
    open spec fn obeys_is_empty_spec(&self) -> bool {
        (**self).obeys_is_empty_spec()
    }

    open spec fn is_empty_spec(&self) -> bool {
        (**self).is_empty_spec()
    }

    fn is_empty(&self) -> (r: bool)
        ensures
            call_ensures(T::is_empty, (&**self,), r),
    {
        (**self).is_empty()
    }
}

/// Tells whether a string slice holds no character.
#[allow(non_snake_case)]
pub fn get_is_empty_str_(s: &str) -> (r: bool)
    ensures
        r == (s@.len() == 0),
{
    s.is_empty()
}

/// Tells whether a slice holds no element.
#[allow(non_snake_case)]
pub fn get_is_empty_Slice_<T>(s: &[T]) -> (r: bool)
    ensures
        r == (s@.len() == 0),
{
    s.is_empty()
}

impl IsEmpty for str {
    open spec fn obeys_is_empty_spec(&self) -> bool {
        true
    }

    open spec fn is_empty_spec(&self) -> bool {
        self@.len() == 0
    }

    fn is_empty(&self) -> (r: bool) {
        get_is_empty_str_(self)
    }
}

impl IsEmpty for &str {
    open spec fn obeys_is_empty_spec(&self) -> bool {
        true
    }

    open spec fn is_empty_spec(&self) -> bool {
        self@.len() == 0
    }

    fn is_empty(&self) -> (r: bool) {
        get_is_empty_str_(self)
    }
}

/// An array is empty if and only if its type says that it has no element.
impl<T, const N: usize> IsEmpty for [T; N] {
    open spec fn obeys_is_empty_spec(&self) -> bool {
        true
    }

    open spec fn is_empty_spec(&self) -> bool {
        N == 0
    }

    fn is_empty(&self) -> (r: bool) {
        0 == N
    }
}

impl<T, const N: usize> IsEmpty for &[T; N] {
    open spec fn obeys_is_empty_spec(&self) -> bool {
        true
    }

    open spec fn is_empty_spec(&self) -> bool {
        N == 0
    }

    fn is_empty(&self) -> (r: bool) {
        0 == N
    }
}

impl<T> IsEmpty for [T] {
    open spec fn obeys_is_empty_spec(&self) -> bool {
        true
    }

    open spec fn is_empty_spec(&self) -> bool {
        self@.len() == 0
    }

    fn is_empty(&self) -> (r: bool) {
        get_is_empty_Slice_(self)
    }
}

impl<T> IsEmpty for &[T] {
    open spec fn obeys_is_empty_spec(&self) -> bool {
        true
    }

    open spec fn is_empty_spec(&self) -> bool {
        self@.len() == 0
    }

    fn is_empty(&self) -> (r: bool) {
        get_is_empty_Slice_(self)
    }
}

/// Tells whether a map holds no entry.
#[allow(non_snake_case)]
pub fn get_is_empty_BTreeMap_<K, V>(coll: &BTreeMap<K, V>) -> (r: bool)
    ensures
        r == coll@.is_empty(),
{
    coll.is_empty()
}

/// Tells whether a set holds no item.
#[allow(non_snake_case)]
pub fn get_is_empty_BTreeSet_<T>(coll: &BTreeSet<T>) -> (r: bool)
    ensures
        r == coll@.is_empty(),
{
    coll.is_empty()
}

/// Tells whether a map holds no entry.
#[allow(non_snake_case)]
pub fn get_is_empty_HashMap_<K, V>(coll: &HashMap<K, V>) -> (r: bool)
    ensures
        r == coll@.is_empty(),
{
    coll.is_empty()
}

/// Tells whether a set holds no item.
#[allow(non_snake_case)]
pub fn get_is_empty_HashSet_<T>(coll: &HashSet<T>) -> (r: bool)
    ensures
        r == coll@.is_empty(),
{
    coll.is_empty()
}

/// Tells whether the text of a `String`, handed over as a slice, holds no
/// character.
#[allow(non_snake_case)]
pub fn get_is_empty_String_(s: &str) -> (r: bool)
    ensures
        r == (s@.len() == 0),
{
    s.is_empty()
}

/// Tells whether the items of a `Vec`, handed over as a slice, are none.
#[allow(non_snake_case)]
pub fn get_is_empty_Vec_<T>(coll: &[T]) -> (r: bool)
    ensures
        r == (coll@.len() == 0),
{
    coll.is_empty()
}

/// Tells whether a deque holds no element.
#[allow(non_snake_case)]
pub fn get_is_empty_VecDeque_<T>(coll: &VecDeque<T>) -> (r: bool)
    ensures
        r == (coll@.len() == 0),
{
    std_vec_deque_is_empty(coll)
}

impl<K, V> IsEmpty for BTreeMap<K, V> {
    open spec fn obeys_is_empty_spec(&self) -> bool {
        true
    }

    open spec fn is_empty_spec(&self) -> bool {
        self@.is_empty()
    }

    fn is_empty(&self) -> (r: bool) {
        get_is_empty_BTreeMap_(self)
    }
}

impl<T> IsEmpty for BTreeSet<T> {
    open spec fn obeys_is_empty_spec(&self) -> bool {
        true
    }

    open spec fn is_empty_spec(&self) -> bool {
        self@.is_empty()
    }

    fn is_empty(&self) -> (r: bool) {
        get_is_empty_BTreeSet_(self)
    }
}

impl<K, V> IsEmpty for HashMap<K, V> {
    open spec fn obeys_is_empty_spec(&self) -> bool {
        true
    }

    open spec fn is_empty_spec(&self) -> bool {
        self@.is_empty()
    }

    fn is_empty(&self) -> (r: bool) {
        get_is_empty_HashMap_(self)
    }
}

impl<T> IsEmpty for HashSet<T> {
    open spec fn obeys_is_empty_spec(&self) -> bool {
        true
    }

    open spec fn is_empty_spec(&self) -> bool {
        self@.is_empty()
    }

    fn is_empty(&self) -> (r: bool) {
        get_is_empty_HashSet_(self)
    }
}

impl IsEmpty for String {
    open spec fn obeys_is_empty_spec(&self) -> bool {
        true
    }

    open spec fn is_empty_spec(&self) -> bool {
        self@.len() == 0
    }

    fn is_empty(&self) -> (r: bool) {
        get_is_empty_String_(self.as_str())
    }
}

impl<T> IsEmpty for Vec<T> {
    open spec fn obeys_is_empty_spec(&self) -> bool {
        true
    }

    open spec fn is_empty_spec(&self) -> bool {
        self@.len() == 0
    }

    fn is_empty(&self) -> (r: bool) {
        get_is_empty_Vec_(self.as_slice())
    }
}

impl<T> IsEmpty for VecDeque<T> {
    open spec fn obeys_is_empty_spec(&self) -> bool {
        true
    }

    open spec fn is_empty_spec(&self) -> bool {
        self@.len() == 0
    }

    fn is_empty(&self) -> (r: bool) {
        get_is_empty_VecDeque_(self)
    }
}

/// A path is empty if and only if its stored length is zero.
impl IsEmpty for &Path {
    open spec fn obeys_is_empty_spec(&self) -> bool {
        true
    }

    open spec fn is_empty_spec(&self) -> bool {
        path_len(*self) == 0
    }

    fn is_empty(&self) -> (r: bool) {
        std_path_is_empty(*self)
    }
}

impl IsEmpty for PathBuf {
    open spec fn obeys_is_empty_spec(&self) -> bool {
        true
    }

    open spec fn is_empty_spec(&self) -> bool {
        path_buf_len(self) == 0
    }

    fn is_empty(&self) -> (r: bool) {
        std_path_buf_is_empty(self)
    }
}

impl IsEmpty for &PathBuf {
    open spec fn obeys_is_empty_spec(&self) -> bool {
        true
    }

    open spec fn is_empty_spec(&self) -> bool {
        path_buf_len(*self) == 0
    }

    fn is_empty(&self) -> (r: bool) {
        std_path_buf_is_empty(*self)
    }
}

/// Tells whether a range holds no index: whether its start is not below its
/// end.
#[allow(non_snake_case)]
pub fn get_is_empty_Range_<Idx: PartialOrd>(r: &Range<Idx>) -> (b: bool)
    ensures
        Idx::obeys_partial_cmp_spec() ==> b == !r.start.is_lt(&r.end),
{
    std_range_is_empty(r)
}

/// Tells whether a range that takes in its end holds no index: whether it has
/// been walked to its end, or its start is above its end.
#[allow(non_snake_case)]
pub fn get_is_empty_RangeInclusive_<Idx: PartialOrd>(r: &RangeInclusive<Idx>) -> (b: bool)
    ensures
        Idx::obeys_partial_cmp_spec() ==> b == (r@.exhausted || !r@.start.is_le(&r@.end)),
{
    std_range_inclusive_is_empty(r)
}

impl<Idx: PartialOrd> IsEmpty for Range<Idx> {
    open spec fn obeys_is_empty_spec(&self) -> bool {
        Idx::obeys_partial_cmp_spec()
    }

    open spec fn is_empty_spec(&self) -> bool {
        !self.start.is_lt(&self.end)
    }

    fn is_empty(&self) -> (r: bool) {
        get_is_empty_Range_(self)
    }
}

/// A range without an end is never empty.
impl<Idx> IsEmpty for RangeFrom<Idx> {
    open spec fn obeys_is_empty_spec(&self) -> bool {
        true
    }

    open spec fn is_empty_spec(&self) -> bool {
        false
    }

    fn is_empty(&self) -> (r: bool) {
        false
    }
}

/// The range of everything is never empty.
impl IsEmpty for RangeFull {
    open spec fn obeys_is_empty_spec(&self) -> bool {
        true
    }

    open spec fn is_empty_spec(&self) -> bool {
        false
    }

    fn is_empty(&self) -> (r: bool) {
        false
    }
}

impl<Idx: PartialOrd> IsEmpty for RangeInclusive<Idx> {
    open spec fn obeys_is_empty_spec(&self) -> bool {
        Idx::obeys_partial_cmp_spec()
    }

    open spec fn is_empty_spec(&self) -> bool {
        self@.exhausted || !self@.start.is_le(&self@.end)
    }

    fn is_empty(&self) -> (r: bool) {
        get_is_empty_RangeInclusive_(self)
    }
}

/// A range without a start is never empty.
impl<Idx> IsEmpty for RangeTo<Idx> {
    open spec fn obeys_is_empty_spec(&self) -> bool {
        true
    }

    open spec fn is_empty_spec(&self) -> bool {
        false
    }

    fn is_empty(&self) -> (r: bool) {
        false
    }
}

/// A duration is empty if and only if it spans no time.
impl IsEmpty for Duration {
    open spec fn obeys_is_empty_spec(&self) -> bool {
        true
    }

    open spec fn is_empty_spec(&self) -> bool {
        duration_nanos(*self) == 0
    }

    fn is_empty(&self) -> (r: bool) {
        std_duration_is_zero(self)
    }
}

impl IsEmpty for &Duration {
    open spec fn obeys_is_empty_spec(&self) -> bool {
        true
    }

    open spec fn is_empty_spec(&self) -> bool {
        duration_nanos(**self) == 0
    }

    fn is_empty(&self) -> (r: bool) {
        std_duration_is_zero(*self)
    }
}

/// A `Box` and an `Rc` vouch for their answer exactly where the value they
/// hold does, and a value, a reference to it, a `Box` or an `Rc` that holds
/// it, and a reference to either of the two all agree on whether they are
/// empty.
pub proof fn lemma_is_empty_through_wrappers<T: IsEmpty + ?Sized>(v: &T, b: &Box<T>, rc: &Rc<T>)
    requires
        &**b == v,
        &**rc == v,
    ensures
        b.obeys_is_empty_spec() == v.obeys_is_empty_spec(),
        rc.obeys_is_empty_spec() == v.obeys_is_empty_spec(),
        (&v).is_empty_spec() == v.is_empty_spec(),
        b.is_empty_spec() == v.is_empty_spec(),
        (&b).is_empty_spec() == v.is_empty_spec(),
        rc.is_empty_spec() == v.is_empty_spec(),
        (&rc).is_empty_spec() == v.is_empty_spec(),
{
}

} // verus!
