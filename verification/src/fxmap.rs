//! The hash tables of `rustc_hash`, keyed by ids.
//!
//! Each function hands one call on to the table and says what it does to the
//! entries. In which order a table is walked is left open.

use rustc_hash::{FxBuildHasher, FxHashMap, FxHashSet};
#[allow(unused_imports)]
use vstd::prelude::*;

verus! {

/// `rustc_hash::FxBuildHasher`, the hasher that both kinds of table are built with.
#[verifier::external_type_specification]
#[verifier::external_body]
pub struct ExFxBuildHasher(FxBuildHasher);

/// `FxHashMap::default`: a table without entries.
#[verifier::external_body]
pub(crate) fn new_map<V>() -> (m: FxHashMap<u32, V>)
    ensures
        forall|k: u32| !(#[trigger] m@.contains_key(k)),
{
    FxHashMap::default()
}

/// `FxHashMap::get`: the value of a key, where there is one.
#[verifier::external_body]
pub(crate) fn lookup<V>(m: &FxHashMap<u32, V>, key: u32) -> (r: Option<&V>)
    ensures
        r is Some <==> m@.contains_key(key),
        r is Some ==> *r->0 == m@[key],
{
    m.get(&key)
}

/// `FxHashMap::insert`: sets the value of a key. The value it had before is dropped.
#[verifier::external_body]
pub(crate) fn put<V>(m: &mut FxHashMap<u32, V>, key: u32, value: V)
    ensures
        final(m)@ == old(m)@.insert(key, value),
{
    m.insert(key, value);
}

/// `FxHashMap::remove`: takes a key out and gives its value, where there was one.
#[verifier::external_body]
pub(crate) fn take_out<V>(m: &mut FxHashMap<u32, V>, key: u32) -> (r: Option<V>)
    ensures
        final(m)@ == old(m)@.remove(key),
        r is Some <==> old(m)@.contains_key(key),
        r is Some ==> r->0 == old(m)@[key],
{
    m.remove(&key)
}

/// `FxHashMap::keys`: every key once, in no particular order.
#[verifier::external_body]
pub(crate) fn keys_of<V>(m: &FxHashMap<u32, V>) -> (r: Vec<u32>)
    ensures
        r@.no_duplicates(),
        forall|k: u32| r@.contains(k) <==> #[trigger] m@.contains_key(k),
{
    m.keys().copied().collect()
}

/// `FxHashSet::default`: a set without members.
#[verifier::external_body]
pub(crate) fn new_set() -> (s: FxHashSet<u32>)
    ensures
        s@ == Set::<u32>::empty(),
{
    FxHashSet::default()
}

/// `FxHashSet::contains`: whether the set has the member.
#[verifier::external_body]
pub(crate) fn has_member(s: &FxHashSet<u32>, member: u32) -> (r: bool)
    ensures
        r == s@.contains(member),
{
    s.contains(&member)
}

/// `FxHashSet::insert`: adds a member.
#[verifier::external_body]
pub(crate) fn add_member(s: &mut FxHashSet<u32>, member: u32)
    ensures
        final(s)@ == old(s)@.insert(member),
{
    s.insert(member);
}

/// `FxHashSet::remove`: takes a member out.
#[verifier::external_body]
pub(crate) fn drop_member(s: &mut FxHashSet<u32>, member: u32)
    ensures
        final(s)@ == old(s)@.remove(member),
{
    s.remove(&member);
}

} // verus!
