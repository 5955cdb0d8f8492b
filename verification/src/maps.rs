//! The hash maps that the caches and the item tables are kept in.
//!
//! The maps are `ahash::AHashMap`s. Verus does not look inside them: what a
//! map holds is named by an uninterpreted function, and each operation used
//! is a small wrapper whose contract is believed, not proved.

use vstd::prelude::*;
use ahash::AHashMap;

verus! {

/// `ahash::AHashMap`, carried as an opaque value: what it holds is known
/// only through the entry functions below.
#[verifier::external_type_specification]
#[verifier::external_body]
#[verifier::reject_recursive_types(K)]
#[verifier::reject_recursive_types(V)]
#[verifier::reject_recursive_types(S)]
pub struct ExAHashMap<K, V, S>(AHashMap<K, V, S>);

/// `ahash::RandomState`, the hasher state that an `AHashMap` is built with.
/// Nothing is stated of it.
#[verifier::external_type_specification]
#[verifier::external_body]
pub struct ExRandomState(ahash::RandomState);

/// Key of the monomorphization caches: crate, item (or closure number) and
/// the handle of the interned substitution list.
pub type MonoKey = (u32, u32, u32);

pub type MonoMap = AHashMap<MonoKey, u32>;

/// Key of a trait's member table: namespace code and name.
pub type AssocKey = (u8, String);

pub type AssocMap = AHashMap<AssocKey, u32>;

pub type ClosureMap = AHashMap<Vec<u32>, u32>;

/// The entries of a monomorphization cache.
pub uninterp spec fn mono_entries(m: MonoMap) -> Map<MonoKey, u32>;

/// The entries of a trait's member table, the names as character sequences.
pub uninterp spec fn assoc_entries(m: AssocMap) -> Map<(u8, Seq<char>), u32>;

/// The entries of an item's closure table, the paths as sequences.
pub uninterp spec fn closure_entries(m: ClosureMap) -> Map<Seq<u32>, u32>;

/// `AHashMap::new`: a map without entries.
#[verifier::external_body]
pub(crate) fn mono_new() -> (m: MonoMap)
    ensures
        mono_entries(m) =~= Map::empty(),
{
    AHashMap::new()
}

/// `AHashMap::get`: the value stored under the key, if there is one.
#[verifier::external_body]
pub(crate) fn mono_get(m: &MonoMap, k: MonoKey) -> (r: Option<u32>)
    ensures
        r == (if mono_entries(*m).dom().contains(k) {
            Some(mono_entries(*m)[k])
        } else {
            None
        }),
{
    m.get(&k).copied()
}

/// `AHashMap::insert`: afterwards the key maps to the value, and every other
/// key to what it mapped to before.
#[verifier::external_body]
pub(crate) fn mono_insert(m: &mut MonoMap, k: MonoKey, v: u32)
    ensures
        mono_entries(*final(m)) == mono_entries(*old(m)).insert(k, v),
{
    m.insert(k, v);
}

/// `AHashMap::get` on a member table.
#[verifier::external_body]
pub(crate) fn assoc_get(m: &AssocMap, ns: u8, name: &str) -> (r: Option<u32>)
    ensures
        r == (if assoc_entries(*m).dom().contains((ns, name@)) {
            Some(assoc_entries(*m)[(ns, name@)])
        } else {
            None
        }),
{
    m.get(&(ns, name.to_owned())).copied()
}

/// `HashMap::len`, which `AHashMap` derefs to: the number of entries.
#[verifier::external_body]
pub(crate) fn assoc_len(m: &AssocMap) -> (r: usize)
    ensures
        r == assoc_entries(*m).len(),
{
    m.len()
}

/// `AHashMap::new` for a closure table.
#[verifier::external_body]
pub(crate) fn closure_map_new() -> (m: ClosureMap)
    ensures
        closure_entries(m) =~= Map::empty(),
{
    AHashMap::new()
}

/// `AHashMap::get` on a closure table.
#[verifier::external_body]
pub(crate) fn closure_map_get(m: &ClosureMap, k: &Vec<u32>) -> (r: Option<u32>)
    ensures
        r == (if closure_entries(*m).dom().contains(k@) {
            Some(closure_entries(*m)[k@])
        } else {
            None
        }),
{
    m.get(k).copied()
}

/// `AHashMap::insert` on a closure table.
#[verifier::external_body]
pub(crate) fn closure_map_insert(m: &mut ClosureMap, k: Vec<u32>, v: u32)
    ensures
        closure_entries(*final(m)) == closure_entries(*old(m)).insert(k@, v),
{
    m.insert(k, v);
}

} // verus!
