//! The two concurrent maps that hold the definitions: trusted declarations
//! for `dashmap::DashMap` and for the methods that the registry calls.
//!
//! `DashMap` changes its contents through a shared reference. Here every
//! method that changes the map is reached through `&mut`, so that a contract
//! can speak of the contents before and after the call, and so that no
//! reference into the map is alive while another call runs (the condition
//! under which `DashMap` documents that it cannot deadlock).

use crate::models::{MockAPI, MockView};
use dashmap::DashMap;
use vstd::prelude::*;

verus! {

/// `dashmap::DashMap`, the concurrent hash map, as an opaque type.
#[verifier::external_type_specification]
#[verifier::external_body]
#[verifier::reject_recursive_types(K)]
#[verifier::reject_recursive_types(V)]
#[verifier::reject_recursive_types(S)]
pub struct ExDashMap<K, V, S>(DashMap<K, V, S>);

/// What a map of definitions holds: for each identifier in it, the view of
/// the definition stored under it.
pub uninterp spec fn stored_mocks(m: DashMap<u128, MockAPI>) -> Map<u128, MockView>;

/// What a name index holds: for each name in it, the identifier stored under
/// it.
pub uninterp spec fn stored_names(m: DashMap<String, u128>) -> Map<Seq<char>, u128>;

/// `DashMap::new`: a map that holds nothing.
#[verifier::external_body]
pub(crate) fn mocks_new() -> (m: DashMap<u128, MockAPI>)
    ensures
        stored_mocks(m) == (Map::<u128, MockView>::empty()),
{
    DashMap::new()
}

/// `DashMap::insert`: afterwards the map holds `mock` under `id`, in place of
/// what it held there, and everything else as before.
#[verifier::external_body]
pub(crate) fn mocks_insert(m: &mut DashMap<u128, MockAPI>, id: u128, mock: MockAPI)
    ensures
        stored_mocks(*final(m)) == stored_mocks(*old(m)).insert(id, mock@),
{
    m.insert(id, mock);
}

/// `DashMap::get`: a copy of the definition stored under `id`, or nothing
/// where the map holds none.
#[verifier::external_body]
pub(crate) fn mocks_get(m: &DashMap<u128, MockAPI>, id: u128) -> (r: Option<MockAPI>)
    ensures
        r is Some <==> stored_mocks(*m).dom().contains(id),
        r is Some ==> r.unwrap()@ == stored_mocks(*m)[id],
{
    m.get(&id).map(|entry| entry.value().duplicate())
}

/// `DashMap::remove`: the definition that was stored under `id` leaves the
/// map and is returned; a map that held none stays as it was.
#[verifier::external_body]
pub(crate) fn mocks_remove(m: &mut DashMap<u128, MockAPI>, id: u128) -> (r: Option<MockAPI>)
    ensures
        stored_mocks(*final(m)) == stored_mocks(*old(m)).remove(id),
        r is Some <==> stored_mocks(*old(m)).dom().contains(id),
        r is Some ==> r.unwrap()@ == stored_mocks(*old(m))[id],
{
    m.remove(&id).map(|pair| pair.1)
}

/// `DashMap::clear`: afterwards the map holds nothing.
#[verifier::external_body]
pub(crate) fn mocks_clear(m: &mut DashMap<u128, MockAPI>)
    ensures
        stored_mocks(*final(m)) == (Map::<u128, MockView>::empty()),
{
    m.clear();
}

/// `DashMap::iter`: every entry of the map once, as its identifier and a copy
/// of its definition. The order in which the entries come is left open.
#[verifier::external_body]
pub(crate) fn mocks_entries(m: &DashMap<u128, MockAPI>) -> (r: Vec<(u128, MockAPI)>)
    ensures
        forall|i: int|
            0 <= i < r.len() ==> stored_mocks(*m).dom().contains(#[trigger] r[i].0)
                && stored_mocks(*m)[r[i].0] == r[i].1@,
        forall|i: int, j: int| 0 <= i < j < r.len() ==> r[i].0 != r[j].0,
        forall|id: u128|
            stored_mocks(*m).dom().contains(id) ==> exists|i: int|
                0 <= i < r.len() && r[i].0 == id,
{
    m.iter().map(|entry| (*entry.key(), entry.value().duplicate())).collect()
}

/// `DashMap::new`: an index that holds nothing.
#[verifier::external_body]
pub(crate) fn names_new() -> (m: DashMap<String, u128>)
    ensures
        stored_names(m) == (Map::<Seq<char>, u128>::empty()),
{
    DashMap::new()
}

/// `DashMap::insert`: afterwards the index holds `id` under `name`, in place
/// of what it held there, and everything else as before.
#[verifier::external_body]
pub(crate) fn names_insert(m: &mut DashMap<String, u128>, name: String, id: u128)
    ensures
        stored_names(*final(m)) == stored_names(*old(m)).insert(name@, id),
{
    m.insert(name, id);
}

/// `DashMap::get`: the identifier stored under `name`, or nothing where the
/// index holds none.
#[verifier::external_body]
pub(crate) fn names_get(m: &DashMap<String, u128>, name: &str) -> (r: Option<u128>)
    ensures
        r is Some <==> stored_names(*m).dom().contains(name@),
        r is Some ==> r.unwrap() == stored_names(*m)[name@],
{
    m.get(name).map(|entry| *entry.value())
}

/// `DashMap::remove`: afterwards the index holds nothing under `name`, and
/// everything else as before.
#[verifier::external_body]
pub(crate) fn names_remove(m: &mut DashMap<String, u128>, name: &str)
    ensures
        stored_names(*final(m)) == stored_names(*old(m)).remove(name@),
{
    m.remove(name);
}

/// `DashMap::clear`: afterwards the index holds nothing.
#[verifier::external_body]
pub(crate) fn names_clear(m: &mut DashMap<String, u128>)
    ensures
        stored_names(*final(m)) == (Map::<Seq<char>, u128>::empty()),
{
    m.clear();
}

} // verus!
