//! The mock registry: the definitions by identifier, and the index from each
//! name to the identifier that owns it.
//!
//! A name that a second definition takes is repointed to that definition;
//! the first one stays stored and can still be found by its identifier.

use crate::errors::MockError;
use crate::models::{MockAPI, MockView, Timestamp};
use crate::store::{
    mocks_clear, mocks_entries, mocks_get, mocks_insert, mocks_new, mocks_remove, names_clear,
    names_get, names_insert, names_new, names_remove, stored_mocks, stored_names,
};
use dashmap::DashMap;
use vstd::prelude::*;

verus! {

/// The mathematical value of a registry.
#[verifier::ext_equal]
pub struct RegistryView {
    /// The definitions, by identifier.
    pub mocks: Map<u128, MockView>,
    /// The identifier that each name leads to.
    pub names: Map<Seq<char>, u128>,
}

impl RegistryView {
    /// The registry that holds nothing.
    pub open spec fn empty() -> RegistryView {
        RegistryView { mocks: Map::empty(), names: Map::empty() }
    }

    /// The two maps agree: every name leads to a stored definition that
    /// carries that name, and every definition is stored under the
    /// identifier that it carries.
    pub open spec fn consistent(self) -> bool {
        &&& forall|name: Seq<char>| #[trigger]
            self.names.dom().contains(name) ==> self.mocks.dom().contains(self.names[name])
                && self.mocks[self.names[name]].api_name == name
        &&& forall|id: u128| #[trigger]
            self.mocks.dom().contains(id) ==> self.mocks[id].id == Some(id)
    }

    /// The definition that a name leads to, where it leads to one.
    pub open spec fn by_name(self, name: Seq<char>) -> Option<MockView> {
        if self.names.dom().contains(name) && self.mocks.dom().contains(self.names[name]) {
            Some(self.mocks[self.names[name]])
        } else {
            None
        }
    }

    /// The index once the definition under `id` has given up its name: the
    /// entry of that name goes, provided it leads to `id`.
    pub open spec fn names_without(self, id: u128) -> Map<Seq<char>, u128> {
        if self.mocks.dom().contains(id) && self.names.dom().contains(self.mocks[id].api_name)
            && self.names[self.mocks[id].api_name] == id {
            self.names.remove(self.mocks[id].api_name)
        } else {
            self.names
        }
    }

    /// The registry once `def` has been stored under `id`: the definition
    /// replaces the one stored there, the name that the replaced one owned is
    /// given up, and the name of `def` leads to `id`.
    pub open spec fn upserted(self, id: u128, def: MockView) -> RegistryView {
        RegistryView {
            mocks: self.mocks.insert(id, MockView { id: Some(id), ..def }),
            names: self.names_without(id).insert(def.api_name, id),
        }
    }

    /// The registry once the definition under `id` has been removed, with
    /// the name that it owned.
    pub open spec fn removed(self, id: u128) -> RegistryView {
        RegistryView { mocks: self.mocks.remove(id), names: self.names_without(id) }
    }

    /// The registry after a copy `def` of the definition `id` came from a
    /// peer: it is stored where the registry has none under `id`, or where
    /// its timestamp is strictly later than that of the stored one; else the
    /// registry stays as it is.
    pub open spec fn merged(self, id: u128, def: MockView) -> RegistryView {
        if !self.mocks.dom().contains(id) || def.timestamp.later_than(self.mocks[id].timestamp) {
            self.upserted(id, def)
        } else {
            self
        }
    }
}

/// What became of a copy that came from a peer.
#[derive(Clone, Copy, Debug, PartialEq, Eq, Structural)]
pub enum MergeOutcome {
    /// The registry had no definition under the identifier: the copy was stored.
    Inserted,
    /// The copy was strictly newer than the stored definition and replaced it.
    Replaced,
    /// The copy was not newer: it was dropped.
    Discarded,
}

/// The outcome that the merge rule gives for a copy with timestamp `remote`
/// against the stored timestamp `local`, absent where nothing is stored.
pub open spec fn merge_outcome(local: Option<Timestamp>, remote: Timestamp) -> MergeOutcome {
    match local {
        None => MergeOutcome::Inserted,
        Some(t) => if remote.later_than(t) {
            MergeOutcome::Replaced
        } else {
            MergeOutcome::Discarded
        },
    }
}

/// The store of mock definitions.
pub struct Registry {
    mocks: DashMap<u128, MockAPI>,
    api_name_to_id: DashMap<String, u128>,
}

impl View for Registry {
    type V = RegistryView;

    closed spec fn view(&self) -> RegistryView {
        RegistryView {
            mocks: stored_mocks(self.mocks),
            names: stored_names(self.api_name_to_id),
        }
    }
}

impl Registry {
    /// The two maps of the registry agree.
    pub open spec fn wf(&self) -> bool {
        self@.consistent()
    }

    /// A registry that holds nothing.
    pub fn new() -> (r: Registry)
        ensures
            r@ == RegistryView::empty(),
            r.wf(),
    {
        Registry { mocks: mocks_new(), api_name_to_id: names_new() }
    }

    /// Takes the name of the definition under `id` out of the index, where
    /// the index leads from that name to `id`.
    fn release_name(&mut self, id: u128)
        ensures
            final(self)@.mocks == old(self)@.mocks,
            final(self)@.names == old(self)@.names_without(id),
    {
        match mocks_get(&self.mocks, id) {
            Some(current) => {
                match names_get(&self.api_name_to_id, current.api_name.as_str()) {
                    Some(owner) => {
                        if owner == id {
                            names_remove(&mut self.api_name_to_id, current.api_name.as_str());
                        }
                    },
                    None => {},
                }
            },
            None => {},
        }
    }

    /// Stores `def` under `id`, in place of the definition that was stored
    /// there, and points the name of `def` to `id`.
    pub fn upsert(&mut self, id: u128, def: MockAPI)
        requires
            old(self).wf(),
        ensures
            final(self)@ == old(self)@.upserted(id, def@),
            final(self).wf(),
    {
        self.release_name(id);
        let stored = def.with_id(id);
        let name = stored.api_name.clone();
        mocks_insert(&mut self.mocks, id, stored);
        names_insert(&mut self.api_name_to_id, name, id);
        proof {
            lemma_upsert_consistent(old(self)@, id, def@);
        }
    }

    /// A copy of the definition stored under `id`.
    pub fn get(&self, id: u128) -> (r: Result<MockAPI, MockError>)
        ensures
            r is Ok <==> self@.mocks.dom().contains(id),
            r is Ok ==> r.unwrap()@ == self@.mocks[id],
            r is Err ==> r == Err::<MockAPI, MockError>(MockError::NotFound),
    {
        match mocks_get(&self.mocks, id) {
            Some(found) => Ok(found),
            None => Err(MockError::NotFound),
        }
    }

    /// Whether a definition is stored under `id`.
    pub fn contains(&self, id: u128) -> (r: bool)
        ensures
            r == self@.mocks.dom().contains(id),
    {
        mocks_get(&self.mocks, id).is_some()
    }

    /// The identifier that `name` leads to.
    pub fn id_of(&self, name: &str) -> (r: Option<u128>)
        ensures
            r == (if self@.names.dom().contains(name@) {
                Some(self@.names[name@])
            } else {
                None
            }),
    {
        names_get(&self.api_name_to_id, name)
    }

    /// A copy of the definition that `name` leads to.
    pub fn get_by_name(&self, name: &str) -> (r: Result<MockAPI, MockError>)
        ensures
            r is Ok <==> self@.by_name(name@) is Some,
            r is Ok ==> Some(r.unwrap()@) == self@.by_name(name@),
            r is Err ==> r == Err::<MockAPI, MockError>(MockError::NotFound),
    {
        match names_get(&self.api_name_to_id, name) {
            Some(id) => match mocks_get(&self.mocks, id) {
                Some(found) => Ok(found),
                None => Err(MockError::NotFound),
            },
            None => Err(MockError::NotFound),
        }
    }

    /// Removes the definition stored under `id` and returns it. Where none
    /// is stored there the registry stays as it is.
    pub fn remove(&mut self, id: u128) -> (r: Result<MockAPI, MockError>)
        requires
            old(self).wf(),
        ensures
            r is Ok <==> old(self)@.mocks.dom().contains(id),
            r is Ok ==> r.unwrap()@ == old(self)@.mocks[id],
            r is Err ==> r == Err::<MockAPI, MockError>(MockError::NotFound),
            final(self)@ == old(self)@.removed(id),
            r is Err ==> final(self)@ == old(self)@,
            final(self).wf(),
    {
        self.release_name(id);
        let taken = mocks_remove(&mut self.mocks, id);
        proof {
            lemma_remove_consistent(old(self)@, id);
            if !old(self)@.mocks.dom().contains(id) {
                assert(old(self)@.mocks.remove(id) =~= old(self)@.mocks);
            }
        }
        match taken {
            Some(found) => Ok(found),
            None => Err(MockError::NotFound),
        }
    }

    /// Drops every definition and every name.
    pub fn clear_all(&mut self)
        ensures
            final(self)@ == RegistryView::empty(),
            final(self).wf(),
    {
        mocks_clear(&mut self.mocks);
        names_clear(&mut self.api_name_to_id);
    }

    /// A copy of every stored definition, each once. The order is that in
    /// which the underlying map hands its entries out.
    pub fn snapshot(&self) -> (r: Vec<MockAPI>)
        requires
            self.wf(),
        ensures
            forall|i: int|
                0 <= i < r.len() ==> (#[trigger] r[i]@).id is Some && self@.mocks.dom().contains(
                    r[i]@.id.unwrap(),
                ) && self@.mocks[r[i]@.id.unwrap()] == r[i]@,
            forall|i: int, j: int| 0 <= i < j < r.len() ==> r[i]@.id != r[j]@.id,
            forall|id: u128|
                self@.mocks.dom().contains(id) ==> exists|i: int|
                    0 <= i < r.len() && r[i]@.id == Some(id),
    {
        let entries = mocks_entries(&self.mocks);
        let ghost all = entries@;
        let mut out: Vec<MockAPI> = Vec::new();
        let mut i: usize = 0;
        while i < entries.len()
            invariant
                i <= entries.len(),
                entries.len() == all.len(),
                out.len() == i,
                forall|k: int| 0 <= k < i ==> (#[trigger] out[k]@) == all[k].1@,
                forall|k: int| i <= k < entries.len() ==> entries[k] == all[k],
            decreases entries.len() - i,
        {
            out.push(entries[i].1.duplicate());
            i += 1;
        }
        proof {
            assert forall|k: int| 0 <= k < out.len() implies (#[trigger] out[k]@).id == Some(
                all[k].0,
            ) by {
                assert(self@.mocks.dom().contains(all[k].0));
            }
            assert forall|id: u128| self@.mocks.dom().contains(id) implies exists|k: int|
                0 <= k < out.len() && out[k]@.id == Some(id) by {
                let k = choose|k: int| 0 <= k < all.len() && all[k].0 == id;
                assert(out[k]@.id == Some(id));
            }
        }
        out
    }

    /// Applies the merge rule to a copy `def` of the definition `id` that
    /// came from a peer: last write wins, and a tie keeps what is stored.
    pub fn merge_remote(&mut self, id: u128, def: MockAPI) -> (r: MergeOutcome)
        requires
            old(self).wf(),
        ensures
            final(self)@ == old(self)@.merged(id, def@),
            r == merge_outcome(
                if old(self)@.mocks.dom().contains(id) {
                    Some(old(self)@.mocks[id].timestamp)
                } else {
                    None
                },
                def@.timestamp,
            ),
            final(self).wf(),
    {
        match mocks_get(&self.mocks, id) {
            Some(local) => {
                if def.timestamp.is_later_than(&local.timestamp) {
                    self.upsert(id, def);
                    MergeOutcome::Replaced
                } else {
                    MergeOutcome::Discarded
                }
            },
            None => {
                self.upsert(id, def);
                MergeOutcome::Inserted
            },
        }
    }
}

/// Storing a definition keeps the two maps in agreement.
pub proof fn lemma_upsert_consistent(v: RegistryView, id: u128, def: MockView)
    requires
        v.consistent(),
    ensures
        v.upserted(id, def).consistent(),
{
    let w = v.upserted(id, def);
    assert forall|name: Seq<char>| #[trigger] w.names.dom().contains(name) implies w.mocks.dom().contains(
        w.names[name],
    ) && w.mocks[w.names[name]].api_name == name by {
        if name != def.api_name {
            assert(v.names.dom().contains(name));
        }
    }
}

/// Removing a definition keeps the two maps in agreement.
pub proof fn lemma_remove_consistent(v: RegistryView, id: u128)
    requires
        v.consistent(),
    ensures
        v.removed(id).consistent(),
{
    let w = v.removed(id);
    assert forall|name: Seq<char>| #[trigger] w.names.dom().contains(name) implies w.mocks.dom().contains(
        w.names[name],
    ) && w.mocks[w.names[name]].api_name == name by {
        assert(v.names.dom().contains(name));
    }
}

} // verus!
