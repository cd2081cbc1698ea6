//! `Len`: how much a value holds.

use super::is_empty::IsEmpty;
use crate::std_calls::path_buf_len;
use crate::std_calls::path_len;
use crate::std_calls::std_path_buf_len;
use crate::std_calls::std_path_len;
use std::collections::BTreeMap;
use std::collections::BTreeSet;
use std::collections::HashMap;
use std::collections::HashSet;
use std::collections::VecDeque;
use std::hash::RandomState;
use std::path::Path;
use std::path::PathBuf;
use std::rc::Rc;
use vstd::prelude::*;
use vstd::std_specs::btree::key_obeys_cmp_spec;
use vstd::std_specs::btree::spec_btree_map_len;
use vstd::std_specs::btree::spec_btree_set_len;
use vstd::std_specs::hash::builds_valid_hashers;
use vstd::std_specs::hash::obeys_key_model;
use vstd::std_specs::hash::spec_hash_map_len;
use vstd::std_specs::hash::spec_hash_set_len;
use vstd::utf8::encode_utf8;

verus! {

/// A type whose values can each tell their length.
///
/// The length of text is its length in bytes as UTF-8, not its number of
/// characters; the length of a path is the length that `std` stores it with.
pub trait Len {
    /// Whether the implementation vouches that `len` gives what
    /// `len_spec` says. One that does not say so vouches for nothing.
    open spec fn obeys_len_spec(&self) -> bool {
        false
    }

    /// The length of `self`.
    open spec fn len_spec(&self) -> usize {
        arbitrary()
    }

    /// Tells the length of `self`.
    fn len(&self) -> (r: usize)
        ensures
            self.obeys_len_spec() ==> r == self.len_spec(),
    ;
}

/// A `Box` hands the call on to the value it holds: what it gives is what
/// that value's own implementation gives.
impl<T: Len + ?Sized> Len for Box<T> {
    open spec fn obeys_len_spec(&self) -> bool {
        (**self).obeys_len_spec()
    }

    open spec fn len_spec(&self) -> usize {
        (**self).len_spec()
    }

    fn len(&self) -> (r: usize)
        ensures
            call_ensures(T::len, (&**self,), r),
    {
        (**self).len()
    }
}

/// An `Rc` hands the call on to the value it holds: what it gives is what
/// that value's own implementation gives.
impl<T: Len + ?Sized> Len for Rc<T> {
    open spec fn obeys_len_spec(&self) -> bool {
        (**self).obeys_len_spec()
    }

    open spec fn len_spec(&self) -> usize {
        (**self).len_spec()
    }

    fn len(&self) -> (r: usize)
        ensures
            call_ensures(T::len, (&**self,), r),
    {
        (**self).len()
    }
}

/// Tells the length in bytes of a string slice.
#[allow(non_snake_case)]
pub fn get_len_str_(s: &str) -> (r: usize)
    ensures
        r == encode_utf8(s@).len() as usize,
{
    s.len()
}

/// Tells the number of elements of a slice.
#[allow(non_snake_case)]
pub fn get_len_Slice_<T>(s: &[T]) -> (r: usize)
    ensures
        r == s@.len(),
{
    s.len()
}

impl Len for str {
    open spec fn obeys_len_spec(&self) -> bool {
        true
    }

    open spec fn len_spec(&self) -> usize {
        encode_utf8(self@).len() as usize
    }

    fn len(&self) -> (r: usize) {
        get_len_str_(self)
    }
}

impl Len for &str {
    open spec fn obeys_len_spec(&self) -> bool {
        true
    }

    open spec fn len_spec(&self) -> usize {
        encode_utf8(self@).len() as usize
    }

    fn len(&self) -> (r: usize) {
        get_len_str_(self)
    }
}

/// The length of an array is the number of elements that its type gives it.
impl<T, const N: usize> Len for [T; N] {
    open spec fn obeys_len_spec(&self) -> bool {
        true
    }

    open spec fn len_spec(&self) -> usize {
        N
    }

    fn len(&self) -> (r: usize) {
        N
    }
}

impl<T, const N: usize> Len for &[T; N] {
    open spec fn obeys_len_spec(&self) -> bool {
        true
    }

    open spec fn len_spec(&self) -> usize {
        N
    }

    fn len(&self) -> (r: usize) {
        N
    }
}

impl<T> Len for [T] {
    open spec fn obeys_len_spec(&self) -> bool {
        true
    }

    open spec fn len_spec(&self) -> usize {
        self@.len() as usize
    }

    fn len(&self) -> (r: usize) {
        get_len_Slice_(self)
    }
}

impl<T> Len for &[T] {
    open spec fn obeys_len_spec(&self) -> bool {
        true
    }

    open spec fn len_spec(&self) -> usize {
        self@.len() as usize
    }

    fn len(&self) -> (r: usize) {
        get_len_Slice_(self)
    }
}

/// Tells the number of entries of a map.
#[allow(non_snake_case)]
pub fn get_len_BTreeMap_<K, V>(coll: &BTreeMap<K, V>) -> (r: usize)
    ensures
        r == spec_btree_map_len(coll),
        key_obeys_cmp_spec::<K>() ==> r == coll@.len(),
{
    broadcast use vstd::std_specs::btree::group_btree_axioms;

    coll.len()
}

/// Tells the number of items of a set.
#[allow(non_snake_case)]
pub fn get_len_BTreeSet_<T>(coll: &BTreeSet<T>) -> (r: usize)
    ensures
        r == spec_btree_set_len(coll),
        key_obeys_cmp_spec::<T>() ==> r == coll@.len(),
{
    broadcast use vstd::std_specs::btree::group_btree_axioms;

    coll.len()
}

/// Tells the number of entries of a map.
#[allow(non_snake_case)]
pub fn get_len_HashMap_<K, V>(coll: &HashMap<K, V>) -> (r: usize)
    ensures
        r == spec_hash_map_len(coll),
        obeys_key_model::<K>() ==> r == coll@.len(),
{
    broadcast use vstd::std_specs::hash::group_hash_axioms;

    coll.len()
}

/// Tells the number of items of a set.
#[allow(non_snake_case)]
pub fn get_len_HashSet_<T>(coll: &HashSet<T>) -> (r: usize)
    ensures
        r == spec_hash_set_len(coll),
        obeys_key_model::<T>() ==> r == coll@.len(),
{
    broadcast use vstd::std_specs::hash::group_hash_axioms;

    coll.len()
}

/// Tells the length in bytes of the text of a `String`, handed over as a
/// slice.
#[allow(non_snake_case)]
pub fn get_len_String_(s: &str) -> (r: usize)
    ensures
        r == encode_utf8(s@).len() as usize,
{
    s.len()
}

/// Tells the number of items of a `Vec`, handed over as a slice.
#[allow(non_snake_case)]
pub fn get_len_Vec_<T>(coll: &[T]) -> (r: usize)
    ensures
        r == coll@.len(),
{
    coll.len()
}

/// Tells the number of elements of a deque.
#[allow(non_snake_case)]
pub fn get_len_VecDeque_<T>(coll: &VecDeque<T>) -> (r: usize)
    ensures
        r == coll@.len(),
{
    coll.len()
}

/// The length of a map is the number that `vstd` names for it, which is the
/// number of its entries where the ordering of the keys follows its
/// specification.
impl<K, V> Len for BTreeMap<K, V> {
    open spec fn obeys_len_spec(&self) -> bool {
        true
    }

    open spec fn len_spec(&self) -> usize {
        spec_btree_map_len(self)
    }

    fn len(&self) -> (r: usize) {
        get_len_BTreeMap_(self)
    }
}

impl<T> Len for BTreeSet<T> {
    open spec fn obeys_len_spec(&self) -> bool {
        true
    }

    open spec fn len_spec(&self) -> usize {
        spec_btree_set_len(self)
    }

    fn len(&self) -> (r: usize) {
        get_len_BTreeSet_(self)
    }
}

/// The length of a map is the number that `vstd` names for it, which is the
/// number of its entries where the keys hash and compare as the model of the
/// hash table asks.
impl<K, V> Len for HashMap<K, V> {
    open spec fn obeys_len_spec(&self) -> bool {
        true
    }

    open spec fn len_spec(&self) -> usize {
        spec_hash_map_len(self)
    }

    fn len(&self) -> (r: usize) {
        get_len_HashMap_(self)
    }
}

impl<T> Len for HashSet<T> {
    open spec fn obeys_len_spec(&self) -> bool {
        true
    }

    open spec fn len_spec(&self) -> usize {
        spec_hash_set_len(self)
    }

    fn len(&self) -> (r: usize) {
        get_len_HashSet_(self)
    }
}

impl Len for String {
    open spec fn obeys_len_spec(&self) -> bool {
        true
    }

    open spec fn len_spec(&self) -> usize {
        encode_utf8(self@).len() as usize
    }

    fn len(&self) -> (r: usize) {
        get_len_String_(self.as_str())
    }
}

impl<T> Len for Vec<T> {
    open spec fn obeys_len_spec(&self) -> bool {
        true
    }

    open spec fn len_spec(&self) -> usize {
        self@.len() as usize
    }

    fn len(&self) -> (r: usize) {
        get_len_Vec_(self.as_slice())
    }
}

impl<T> Len for VecDeque<T> {
    open spec fn obeys_len_spec(&self) -> bool {
        true
    }

    open spec fn len_spec(&self) -> usize {
        self@.len() as usize
    }

    fn len(&self) -> (r: usize) {
        get_len_VecDeque_(self)
    }
}

impl Len for &Path {
    open spec fn obeys_len_spec(&self) -> bool {
        true
    }

    open spec fn len_spec(&self) -> usize {
        path_len(*self)
    }

    fn len(&self) -> (r: usize) {
        std_path_len(*self)
    }
}

impl Len for PathBuf {
    open spec fn obeys_len_spec(&self) -> bool {
        true
    }

    open spec fn len_spec(&self) -> usize {
        path_buf_len(self)
    }

    fn len(&self) -> (r: usize) {
        std_path_buf_len(self)
    }
}

impl Len for &PathBuf {
    open spec fn obeys_len_spec(&self) -> bool {
        true
    }

    open spec fn len_spec(&self) -> usize {
        path_buf_len(*self)
    }

    fn len(&self) -> (r: usize) {
        std_path_buf_len(*self)
    }
}

/// A `Box` and an `Rc` vouch for their answer exactly where the value they
/// hold does, and a value, a reference to it, a `Box` or an `Rc` that holds
/// it, and a reference to either of the two all have the same length.
pub proof fn lemma_len_through_wrappers<T: Len + ?Sized>(v: &T, b: &Box<T>, rc: &Rc<T>)
    requires
        &**b == v,
        &**rc == v,
    ensures
        b.obeys_len_spec() == v.obeys_len_spec(),
        rc.obeys_len_spec() == v.obeys_len_spec(),
        (&v).len_spec() == v.len_spec(),
        b.len_spec() == v.len_spec(),
        (&b).len_spec() == v.len_spec(),
        rc.len_spec() == v.len_spec(),
        (&rc).len_spec() == v.len_spec(),
{
}

/// Whether `x` vouches for both of its answers, and is empty exactly when its
/// length is zero.
pub open spec fn is_empty_iff_len_is_zero<T: IsEmpty + Len + ?Sized>(x: &T) -> bool {
    &&& x.obeys_is_empty_spec()
    &&& x.obeys_len_spec()
    &&& x.is_empty_spec() == (x.len_spec() == 0)
}

/// Text whose UTF-8 form has no byte has no character, and the other way
/// round.
proof fn lemma_no_bytes_no_chars(chars: Seq<char>)
    ensures
        (encode_utf8(chars).len() == 0) == (chars.len() == 0),
{
    if chars.len() > 0 {
        let first = vstd::utf8::encode_scalar(chars[0] as u32);
        assert(first.len() > 0);
        assert(encode_utf8(chars) == first + encode_utf8(chars.drop_first()));
    }
}

/// A string slice, and a reference to one, is empty if and only if its length
/// is zero. Its length in bytes has to fit the type that counts it, which
/// holds of every string in memory.
pub proof fn lemma_str_is_empty_iff_len_is_zero(s: &str)
    requires
        encode_utf8(s@).len() <= usize::MAX,
    ensures
        is_empty_iff_len_is_zero::<str>(s),
        is_empty_iff_len_is_zero::<&str>(&s),
{
    lemma_no_bytes_no_chars(s@);
}

/// A `String` is empty if and only if its length is zero. Its length in bytes
/// has to fit the type that counts it, which holds of every string in memory.
pub proof fn lemma_string_is_empty_iff_len_is_zero(s: String)
    requires
        encode_utf8(s@).len() <= usize::MAX,
    ensures
        is_empty_iff_len_is_zero(&s),
{
    lemma_no_bytes_no_chars(s@);
}

/// An array, and a reference to one, is empty if and only if its length is
/// zero.
pub proof fn lemma_array_is_empty_iff_len_is_zero<T, const N: usize>(a: &[T; N])
    ensures
        is_empty_iff_len_is_zero::<[T; N]>(a),
        is_empty_iff_len_is_zero::<&[T; N]>(&a),
{
}

/// A slice, and a reference to one, is empty if and only if its length is
/// zero.
pub proof fn lemma_slice_is_empty_iff_len_is_zero<T>(s: &[T])
    ensures
        is_empty_iff_len_is_zero::<[T]>(s),
        is_empty_iff_len_is_zero::<&[T]>(&s),
{
    broadcast use vstd::slice::group_slice_axioms;

    assert(vstd::slice::spec_slice_len(s) == s@.len());
}

/// A `Vec` is empty if and only if its length is zero.
pub proof fn lemma_vec_is_empty_iff_len_is_zero<T>(v: Vec<T>)
    ensures
        is_empty_iff_len_is_zero(&v),
{
    broadcast use vstd::std_specs::vec::group_vec_axioms;

    assert(vstd::std_specs::vec::spec_vec_len(&v) == v@.len());
}

/// A `VecDeque` is empty if and only if its length is zero.
pub proof fn lemma_vec_deque_is_empty_iff_len_is_zero<T>(v: VecDeque<T>)
    ensures
        is_empty_iff_len_is_zero(&v),
{
    broadcast use vstd::std_specs::vecdeque::group_vec_dequeue_axioms;

    assert(vstd::std_specs::vecdeque::spec_vec_dequeue_len(&v) == v@.len());
}

/// A `BTreeMap` whose keys are ordered as their specification says is empty
/// if and only if its length is zero.
pub proof fn lemma_btree_map_is_empty_iff_len_is_zero<K, V>(m: BTreeMap<K, V>)
    requires
        key_obeys_cmp_spec::<K>(),
    ensures
        is_empty_iff_len_is_zero(&m),
{
    broadcast use vstd::std_specs::btree::group_btree_axioms;

    assert(spec_btree_map_len(&m) == m@.len());
    assert(m@.dom().finite());
    if m@.len() == 0 {
        m@.dom().lemma_len0_is_empty();
    }
}

/// A `BTreeSet` whose items are ordered as their specification says, and are
/// finitely many, is empty if and only if its length is zero.
pub proof fn lemma_btree_set_is_empty_iff_len_is_zero<T>(s: BTreeSet<T>)
    requires
        key_obeys_cmp_spec::<T>(),
        s@.finite(),
    ensures
        is_empty_iff_len_is_zero(&s),
{
    broadcast use vstd::std_specs::btree::group_btree_axioms;

    assert(spec_btree_set_len(&s) == s@.len());
    if s@.len() == 0 {
        s@.lemma_len0_is_empty();
    }
}

/// A `HashMap` whose keys hash and compare as the model of the hash table
/// asks is empty if and only if its length is zero.
pub proof fn lemma_hash_map_is_empty_iff_len_is_zero<K, V>(m: HashMap<K, V>)
    requires
        obeys_key_model::<K>(),
    ensures
        is_empty_iff_len_is_zero(&m),
{
    broadcast use vstd::std_specs::hash::group_hash_axioms;

    assert(builds_valid_hashers::<RandomState>());
    assert(spec_hash_map_len(&m) == m@.len());
    assert(m@.dom().finite());
    if m@.len() == 0 {
        m@.dom().lemma_len0_is_empty();
    }
}

/// A `HashSet` whose items hash and compare as the model of the hash table
/// asks, and are finitely many, is empty if and only if its length is zero.
pub proof fn lemma_hash_set_is_empty_iff_len_is_zero<T>(s: HashSet<T>)
    requires
        obeys_key_model::<T>(),
        s@.finite(),
    ensures
        is_empty_iff_len_is_zero(&s),
{
    broadcast use vstd::std_specs::hash::group_hash_axioms;

    assert(builds_valid_hashers::<RandomState>());
    assert(spec_hash_set_len(&s) == s@.len());
    if s@.len() == 0 {
        s@.lemma_len0_is_empty();
    }
}

/// A path, owned or not, is empty if and only if its length is zero.
pub proof fn lemma_path_is_empty_iff_len_is_zero(p: &Path, b: PathBuf)
    ensures
        is_empty_iff_len_is_zero::<&Path>(&p),
        is_empty_iff_len_is_zero::<PathBuf>(&b),
        is_empty_iff_len_is_zero::<&PathBuf>(&&b),
{
}

} // verus!
