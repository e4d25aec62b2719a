//! The pending-request sets are kept in persistent hash maps of the `im`
//! crate, so that the speculative copy a processor works on shares structure
//! with the committed state. The maps are opaque here; what a map holds is
//! named by `im_map_contents`, and each method the ledger calls gets a
//! wrapper whose contract speaks over that name.

use vstd::prelude::*;

use crate::types::PendingFriendRequest;

verus! {

#[verifier::external_type_specification]
#[verifier::external_body]
#[verifier::reject_recursive_types(K)]
#[verifier::reject_recursive_types(V)]
#[verifier::reject_recursive_types(S)]
pub struct ExImHashMap<K, V, S>(im::HashMap<K, V, S>);

/// The key-value pairs that a pending-request map holds.
pub uninterp spec fn im_map_contents(
    m: im::HashMap<u128, PendingFriendRequest>,
) -> Map<u128, PendingFriendRequest>;

/// Relies on im::HashMap::new: the new map is empty.
#[verifier::external_body]
pub fn im_map_new() -> (r: im::HashMap<u128, PendingFriendRequest>)
    ensures
        forall|k: u128| !im_map_contents(r).dom().contains(k),
{
    im::HashMap::new()
}

/// Relies on im::HashMap::insert: the map then holds `value` under `key` and
/// is otherwise unchanged.
#[verifier::external_body]
pub fn im_map_insert(m: &mut im::HashMap<u128, PendingFriendRequest>, key: u128, value: PendingFriendRequest)
    ensures
        im_map_contents(*final(m)) == im_map_contents(*old(m)).insert(key, value),
{
    m.insert(key, value);
}

/// Relies on im::HashMap::remove: the map then holds nothing under `key` and
/// is otherwise unchanged.
#[verifier::external_body]
pub fn im_map_remove(m: &mut im::HashMap<u128, PendingFriendRequest>, key: u128)
    ensures
        im_map_contents(*final(m)) == im_map_contents(*old(m)).remove(key),
{
    m.remove(&key);
}

/// Relies on im::HashMap::get: the value held under `key`, if any.
#[verifier::external_body]
pub fn im_map_get<'a>(m: &'a im::HashMap<u128, PendingFriendRequest>, key: u128) -> (r: Option<
    &'a PendingFriendRequest,
>)
    ensures
        match r {
            Some(v) => im_map_contents(*m).dom().contains(key) && *v == im_map_contents(*m)[key],
            None => !im_map_contents(*m).dom().contains(key),
        },
{
    m.get(&key)
}

/// Relies on im::HashMap::contains_key.
#[verifier::external_body]
pub fn im_map_contains(m: &im::HashMap<u128, PendingFriendRequest>, key: u128) -> (r: bool)
    ensures
        r == im_map_contents(*m).dom().contains(key),
{
    m.contains_key(&key)
}

/// Relies on im::HashMap::clone: the clone holds the same pairs; the
/// persistent structure makes it cheap.
#[verifier::external_body]
pub fn im_map_clone(m: &im::HashMap<u128, PendingFriendRequest>) -> (r: im::HashMap<
    u128,
    PendingFriendRequest,
>)
    ensures
        im_map_contents(r) == im_map_contents(*m),
{
    m.clone()
}

} // verus!
