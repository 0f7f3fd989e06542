//! The persistent map engine.
//!
//! The hash-trie itself is `im::HashMap`: structurally shared, reference
//! counted, copy-on-write along one path. Verus does not look inside it.
//! This module declares the type, names the key/value pairs that a map holds,
//! and states for each engine operation what it does to those pairs. Every
//! item in here is believed, not proved.

use vstd::prelude::*;

verus! {

/// Makes `im::HashMap` known to Verus as an opaque type.
#[verifier::external_type_specification]
#[verifier::external_body]
#[verifier::reject_recursive_types(K)]
#[verifier::reject_recursive_types(V)]
#[verifier::reject_recursive_types(S)]
pub struct ExPersistentMap<K, V, S>(im::HashMap<K, V, S>);

/// The key/value pairs that an `im::HashMap<u64, u64>` holds.
pub uninterp spec fn entries(map: im::HashMap<u64, u64>) -> Map<u64, u64>;

/// The map with no pair.
pub open spec fn no_entries() -> Map<u64, u64> {
    Map::empty()
}

/// What a lookup of `key` gives in a map with the pairs `pairs`: the value
/// stored for the key, if there is one.
pub open spec fn lookup(pairs: Map<u64, u64>, key: u64) -> Option<u64> {
    if pairs.contains_key(key) {
        Some(pairs[key])
    } else {
        None
    }
}

/// The pairs of a map after `key` is set to `value`: the key maps to the
/// value, every other key is as in `pairs`.
pub open spec fn derived(pairs: Map<u64, u64>, key: u64, value: u64) -> Map<u64, u64> {
    pairs.insert(key, value)
}

/// Calls `im::HashMap::new`, which constructs an empty hash map: the result
/// holds no pair.
#[verifier::external_body]
pub(crate) fn empty() -> (root: im::HashMap<u64, u64>)
    ensures
        entries(root) == no_entries(),
{
    im::HashMap::new()
}

/// Calls `im::HashMap::get`, which returns the value stored for a key, if
/// there is one: `Some` of the value where the map holds the key, `None`
/// where it does not. The value is copied out of the borrowed slot.
#[verifier::external_body]
pub(crate) fn get(root: &im::HashMap<u64, u64>, key: u64) -> (found: Option<u64>)
    ensures
        found == lookup(entries(*root), key),
{
    root.get(&key).copied()
}

/// Calls `im::HashMap::update`, which builds a new map by inserting one
/// mapping into a copy of the given one, overwriting a previous value for the
/// same key: the result holds the given map's pairs with `key` mapped to
/// `value`. The given map is only borrowed and stays as it was.
#[verifier::external_body]
pub(crate) fn update(root: &im::HashMap<u64, u64>, key: u64, value: u64) -> (new_root: im::HashMap<u64, u64>)
    ensures
        entries(new_root) == derived(entries(*root), key, value),
{
    root.update(key, value)
}

} // verus!
