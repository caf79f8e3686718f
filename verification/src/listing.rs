//! What the calls of a hash table give, as mathematics: what a lookup finds,
//! and what it means for a sequence to list the members of a set or the
//! entries of a map. A hash table hands its content
//! out in an order of its own; the listing predicates say what holds of the
//! result in any order.

use vstd::prelude::*;

verus! {

/// `keys` lists the members of `domain`, each exactly once, in some order.
pub open spec fn lists_each_once<K>(keys: Seq<K>, domain: Set<K>) -> bool {
    &&& keys.no_duplicates()
    &&& forall|k: K| domain.contains(k) <==> keys.contains(k)
}

/// `listed` holds every entry of `entries` exactly once, in some order, each
/// key with the value stored under it.
pub open spec fn lists_map<K, V>(listed: Seq<(K, V)>, entries: Map<K, V>) -> bool {
    &&& lists_each_once(listed.map_values(|e: (K, V)| e.0), entries.dom())
    &&& forall|i: int| 0 <= i < listed.len() ==> entries[(#[trigger] listed[i]).0] == listed[i].1
}

/// The map without entries.
pub open spec fn holds_nothing<K, V>(entries: Map<K, V>) -> bool {
    entries == Map::<K, V>::empty()
}

/// What a lookup of `key` in `entries` gives: the stored value, or nothing
/// where there is no entry.
pub open spec fn is_lookup<K, V>(entries: Map<K, V>, key: K, found: Option<V>) -> bool {
    match found {
        Some(value) => entries.contains_key(key) && entries[key] == value,
        None => !entries.contains_key(key),
    }
}

} // verus!
