//! The state of one instance: the registry, the compiled templates of its
//! definitions, and two counters.
//!
//! A definition enters the registry only together with its templates. It
//! is accepted where each of its templates compiles and includes no other
//! template, and none of its variants names a header twice; a definition
//! that is not accepted changes nothing.

use crate::engine::{free_of_inclusions, TemplateEngine};
use crate::errors::MockError;
use crate::models::{headers_distinct, MockAPI, MockView, Timestamp};
use crate::registry::{merge_outcome, MergeOutcome, Registry, RegistryView};
use crate::templates::{
    compile_all, accepted_whatever_id, install_all, mock_accepted,
    names_of_different_ids_differ, remove_all, source_map_is_of_list, sources_of, template_map,
    template_names, template_sources, templates_accepted,
};
use vstd::prelude::*;

verus! {

/// The mathematical value of the state.
#[verifier::ext_equal]
pub struct AppStateView {
    /// The definitions and the name index.
    pub registry: RegistryView,
    /// The source of each compiled template that is held, by its name.
    pub templates: Map<Seq<char>, Seq<char>>,
    /// The helpers of this library that templates can call, each under its
    /// name.
    pub helpers: Map<Seq<char>, crate::utils::HelperKind>,
    /// How many peers have been synchronized from.
    pub synced_peers: nat,
    /// How many requests have been dispatched.
    pub request_count: nat,
}

impl AppStateView {
    /// The template names of the definition stored under `id`; none where
    /// nothing is stored there.
    pub open spec fn names_of(self, id: u128) -> Set<Seq<char>> {
        if self.registry.mocks.dom().contains(id) {
            template_names(id, self.registry.mocks[id])
        } else {
            Set::empty()
        }
    }

    /// Every template of every stored definition is held, under its name
    /// and compiled from its source.
    pub open spec fn templates_held(self) -> bool {
        forall|id: u128, name: Seq<char>|
            self.registry.mocks.dom().contains(id) && #[trigger] template_map(
                id,
                self.registry.mocks[id],
            ).dom().contains(name) ==> self.templates.dom().contains(name) && self.templates[name]
                == template_map(id, self.registry.mocks[id])[name]
    }

    /// No variant of a stored definition names a header twice.
    pub open spec fn headers_named_once(self) -> bool {
        forall|id: u128| #[trigger]
            self.registry.mocks.dom().contains(id) ==> headers_distinct(
                self.registry.mocks[id].response_variants,
            )
    }

    /// The state is sound: the registry is consistent, the templates of its
    /// definitions are held, no template that is held includes another, and
    /// no variant of a stored definition names a header twice.
    pub open spec fn sound(self) -> bool {
        self.registry.consistent() && self.templates_held() && free_of_inclusions(self.templates)
            && self.headers_named_once()
    }

    /// The state once `def` has been stored under `id`: the registry holds
    /// it, and its templates stand in place of those of the definition that
    /// it replaced.
    pub open spec fn stored(self, id: u128, def: MockView) -> AppStateView {
        AppStateView {
            registry: self.registry.upserted(id, def),
            templates: self.templates.remove_keys(self.names_of(id)).union_prefer_right(
                template_map(id, def),
            ),
            ..self
        }
    }

    /// The state once the definition under `id` has been removed with its
    /// templates.
    pub open spec fn deleted(self, id: u128) -> AppStateView {
        AppStateView {
            registry: self.registry.removed(id),
            templates: self.templates.remove_keys(self.names_of(id)),
            ..self
        }
    }

    /// The state once every definition and every template has been dropped.
    pub open spec fn cleared(self) -> AppStateView {
        AppStateView { registry: RegistryView::empty(), templates: Map::empty(), ..self }
    }

    /// The copy `def` of definition `id`, come from a peer, wins by the merge
    /// rule: nothing is stored under `id`, or the copy is strictly newer
    /// than what is.
    pub open spec fn wins(self, id: u128, def: MockView) -> bool {
        !self.registry.mocks.dom().contains(id) || def.timestamp.later_than(
            self.registry.mocks[id].timestamp,
        )
    }

    /// The state after the copy `def` of definition `id` came from a peer:
    /// it is stored where it wins by the merge rule and is accepted as a
    /// definition; else the state stays as it is.
    pub open spec fn merged(self, id: u128, def: MockView) -> AppStateView {
        if self.wins(id, def) && mock_accepted(def) {
            self.stored(id, def)
        } else {
            self
        }
    }
}

/// The state of one instance.
pub struct AppState {
    registry: Registry,
    engine: TemplateEngine,
    synced_peers: usize,
    request_count: usize,
}

impl View for AppState {
    type V = AppStateView;

    closed spec fn view(&self) -> AppStateView {
        AppStateView {
            registry: self.registry@,
            templates: self.engine@,
            helpers: self.engine.helpers(),
            synced_peers: self.synced_peers as nat,
            request_count: self.request_count as nat,
        }
    }
}

impl AppState {
    /// The registry of the state is consistent, and the templates of its
    /// definitions are held.
    pub open spec fn wf(&self) -> bool {
        self@.sound()
    }

    /// A state without definitions, templates or synchronized peers, whose
    /// templates can call the four helpers of this library.
    pub fn new() -> (r: AppState)
        ensures
            r@.registry == RegistryView::empty(),
            r@.templates == Map::<Seq<char>, Seq<char>>::empty(),
            r@.helpers == crate::utils::own_helpers(),
            r@.synced_peers == 0,
            r@.request_count == 0,
            r.wf(),
    {
        AppState {
            registry: Registry::new(),
            engine: TemplateEngine::new(),
            synced_peers: 0,
            request_count: 0,
        }
    }

    /// A state around an engine that the caller has prepared.
    pub fn with_engine(engine: TemplateEngine) -> (r: AppState)
        requires
            engine.wf(),
        ensures
            r@.registry == RegistryView::empty(),
            r@.templates == engine@,
            r@.helpers == engine.helpers(),
            r@.synced_peers == 0,
            r@.request_count == 0,
            r.wf(),
    {
        AppState { registry: Registry::new(), engine, synced_peers: 0, request_count: 0 }
    }

    /// The registry, for reading.
    pub fn registry(&self) -> (r: &Registry)
        ensures
            r@ == self@.registry,
    {
        &self.registry
    }

    /// The engine, for reading.
    pub fn engine(&self) -> (r: &TemplateEngine)
        ensures
            r@ == self@.templates,
            r.helpers() == self@.helpers,
            self.wf() ==> r.wf(),
    {
        &self.engine
    }

    /// How many peers have been synchronized from.
    pub fn synced_peers(&self) -> (r: usize)
        ensures
            r == self@.synced_peers,
    {
        self.synced_peers
    }

    /// How many requests have been dispatched.
    pub fn request_count(&self) -> (r: usize)
        ensures
            r == self@.request_count,
    {
        self.request_count
    }

    /// Counts one dispatched request. The count starts again at zero once
    /// it has reached the largest number that it can hold.
    pub fn count_request(&mut self)
        ensures
            final(self)@ == (AppStateView {
                request_count: if old(self)@.request_count == usize::MAX {
                    0
                } else {
                    old(self)@.request_count + 1
                },
                ..old(self)@
            }),
            old(self).wf() ==> final(self).wf(),
    {
        if self.request_count == usize::MAX {
            self.request_count = 0;
        } else {
            self.request_count = self.request_count + 1;
        }
    }

    /// Counts one peer that has been synchronized from. The count stays at
    /// the largest number that it can hold.
    pub fn count_synced_peer(&mut self)
        ensures
            final(self)@ == (AppStateView {
                synced_peers: if old(self)@.synced_peers == usize::MAX {
                    old(self)@.synced_peers
                } else {
                    old(self)@.synced_peers + 1
                },
                ..old(self)@
            }),
            old(self).wf() ==> final(self).wf(),
    {
        if self.synced_peers < usize::MAX {
            self.synced_peers = self.synced_peers + 1;
        }
    }

    /// The instance is ready to serve: it has synchronized from a peer at
    /// least once.
    pub fn is_ready(&self) -> (r: bool)
        ensures
            r == (self@.synced_peers > 0),
    {
        self.synced_peers > 0
    }

    /// Compiles the templates of `mock` and holds them under the names that
    /// belong to its identifier, each in place of what was held under its
    /// name. Either the definition is accepted and all of them are held, or
    /// the engine stays as it was. The registry is not touched. The state
    /// stays sound where nothing is stored under the identifier, or where
    /// the definition stored there has the variants of `mock`.
    pub fn register_mock_templates(&mut self, mock: &MockAPI) -> (r: Result<(), MockError>)
        requires
            mock.id is Some,
            free_of_inclusions(old(self)@.templates),
        ensures
            r is Ok <==> mock_accepted(mock@),
            r is Ok ==> final(self)@ == (AppStateView {
                templates: old(self)@.templates.union_prefer_right(
                    template_map(mock.id.unwrap(), mock@),
                ),
                ..old(self)@
            }),
            r is Err ==> final(self)@ == old(self)@ && r == Err::<(), MockError>(
                MockError::TemplateSyntaxError,
            ),
            free_of_inclusions(final(self)@.templates),
            old(self).wf() && (!old(self)@.registry.mocks.dom().contains(mock.id.unwrap())
                || old(self)@.registry.mocks[mock.id.unwrap()].response_variants
                == mock@.response_variants) ==> final(self).wf(),
    {
        if !mock.has_distinct_headers() {
            return Err(MockError::TemplateSyntaxError);
        }
        let id = mock.id.unwrap();
        let sources = template_sources(id, mock);
        proof {
            accepted_whatever_id(id, 0, mock@);
        }
        match compile_all(&sources) {
            Ok(compiled) => {
                install_all(&mut self.engine, &sources, compiled);
                proof {
                    crate::templates::accepted_sources_are_free(sources_of(id, mock@));
                    source_map_is_of_list(sources_of(id, mock@));
                    if old(self).wf() && (!old(self)@.registry.mocks.dom().contains(id)
                        || old(self)@.registry.mocks[id].response_variants
                        == mock@.response_variants) {
                        assert forall|other: u128, name: Seq<char>|
                            self@.registry.mocks.dom().contains(other) && #[trigger] template_map(
                                other,
                                self@.registry.mocks[other],
                            ).dom().contains(name) implies self@.templates.dom().contains(name)
                            && self@.templates[name] == template_map(
                            other,
                            self@.registry.mocks[other],
                        )[name] by {
                            source_map_is_of_list(sources_of(other, self@.registry.mocks[other]));
                            if other != id {
                                names_of_different_ids_differ(
                                    other,
                                    self@.registry.mocks[other],
                                    id,
                                    mock@,
                                );
                            }
                        }
                    }
                }
                Ok(())
            },
            Err(e) => Err(e),
        }
    }

    /// Stores `def` under `id` with its templates, in place of the
    /// definition that was stored there. Where `def` is not accepted, the
    /// call fails and the state stays as it was. The stored definition is
    /// returned.
    pub fn store(&mut self, id: u128, def: MockAPI) -> (r: Result<MockAPI, MockError>)
        requires
            old(self).wf(),
        ensures
            r is Ok <==> mock_accepted(def@),
            r is Ok ==> final(self)@ == old(self)@.stored(id, def@) && r.unwrap()@ == (MockView {
                id: Some(id),
                ..def@
            }),
            r is Err ==> final(self)@ == old(self)@ && r == Err::<MockAPI, MockError>(
                MockError::TemplateSyntaxError,
            ),
            final(self).wf(),
    {
        if !def.has_distinct_headers() {
            return Err(MockError::TemplateSyntaxError);
        }
        let sources = template_sources(id, &def);
        proof {
            accepted_whatever_id(id, 0, def@);
        }
        match compile_all(&sources) {
            Ok(compiled) => {
                match self.registry.get(id) {
                    Ok(previous) => {
                        let stale = template_sources(id, &previous);
                        remove_all(&mut self.engine, &stale);
                    },
                    Err(_) => {
                        assert(self.engine@.remove_keys(Set::<Seq<char>>::empty()) =~= self.engine@);
                    },
                }
                let stored = def.with_id(id);
                self.registry.upsert(id, def);
                install_all(&mut self.engine, &sources, compiled);
                proof {
                    storing_keeps_sound(old(self)@, id, def@);
                }
                Ok(stored)
            },
            Err(e) => Err(e),
        }
    }

    /// Creates a definition: `def` is stored under the fresh identifier `id`
    /// with the timestamp `now`.
    pub fn create(&mut self, id: u128, now: Timestamp, def: MockAPI) -> (r: Result<
        MockAPI,
        MockError,
    >)
        requires
            old(self).wf(),
        ensures
            r is Ok <==> mock_accepted(def@),
            r is Ok ==> final(self)@ == old(self)@.stored(
                id,
                MockView { timestamp: now, ..def@ },
            ) && r.unwrap()@ == (MockView { id: Some(id), timestamp: now, ..def@ }),
            r is Err ==> final(self)@ == old(self)@ && r == Err::<MockAPI, MockError>(
                MockError::TemplateSyntaxError,
            ),
            final(self).wf(),
    {
        let mut stamped = def;
        stamped.timestamp = now;
        proof {
            same_templates(def@, stamped@);
        }
        self.store(id, stamped)
    }

    /// Creates a definition from what was drawn for it: the identifier `id`
    /// and the instant `now` that the clock gave, if it gave one.
    ///
    /// A definition that is not accepted is refused as such. An accepted one
    /// is stored under `id` with the timestamp `now`, unless something is
    /// stored under `id` already or the clock gave no instant: then the
    /// call fails for an internal reason. A call that fails leaves the state
    /// as it was.
    pub fn create_fresh(&mut self, id: u128, now: Option<Timestamp>, def: MockAPI) -> (r: Result<
        MockAPI,
        MockError,
    >)
        requires
            old(self).wf(),
        ensures
            r is Ok <==> mock_accepted(def@) && !old(self)@.registry.mocks.dom().contains(id)
                && now is Some,
            r is Ok ==> final(self)@ == old(self)@.stored(
                id,
                MockView { timestamp: now.unwrap(), ..def@ },
            ) && r.unwrap()@ == (MockView { id: Some(id), timestamp: now.unwrap(), ..def@ }),
            r is Err ==> final(self)@ == old(self)@ && r == Err::<MockAPI, MockError>(
                if mock_accepted(def@) {
                    MockError::InternalError
                } else {
                    MockError::TemplateSyntaxError
                },
            ),
            final(self).wf(),
    {
        if !templates_accepted(&def) {
            return Err(MockError::TemplateSyntaxError);
        }
        if self.registry.contains(id) {
            return Err(MockError::InternalError);
        }
        match now {
            Some(at) => self.create(id, at, def),
            None => Err(MockError::InternalError),
        }
    }

    /// Receives a copy that carries no identifier, under the identifier
    /// `id` that was drawn for it. Where something is stored under `id`
    /// already, the call fails for an internal reason and the state stays as
    /// it was. Else the copy is stored, unless it is not accepted as a
    /// definition.
    pub fn merge_fresh(&mut self, id: u128, def: MockAPI) -> (r: Result<MergeOutcome, MockError>)
        requires
            old(self).wf(),
        ensures
            old(self)@.registry.mocks.dom().contains(id) ==> final(self)@ == old(self)@ && r
                == Err::<MergeOutcome, MockError>(MockError::InternalError),
            !old(self)@.registry.mocks.dom().contains(id) ==> final(self)@ == old(self)@.merged(
                id,
                def@,
            ) && r == (if mock_accepted(def@) {
                Ok::<MergeOutcome, MockError>(MergeOutcome::Inserted)
            } else {
                Err::<MergeOutcome, MockError>(MockError::TemplateSyntaxError)
            }),
            final(self).wf(),
    {
        if self.registry.contains(id) {
            return Err(MockError::InternalError);
        }
        self.merge(id, def)
    }

    /// Updates the definition stored under `id` to `def`. An unknown
    /// identifier is refused, and so is a definition that is not accepted;
    /// the state then stays as it was.
    pub fn update(&mut self, id: u128, def: MockAPI) -> (r: Result<MockAPI, MockError>)
        requires
            old(self).wf(),
        ensures
            r is Ok <==> old(self)@.registry.mocks.dom().contains(id) && mock_accepted(def@),
            r is Ok ==> final(self)@ == old(self)@.stored(id, def@) && r.unwrap()@ == (MockView {
                id: Some(id),
                ..def@
            }),
            r is Err ==> final(self)@ == old(self)@,
            r is Err ==> r == Err::<MockAPI, MockError>(
                if old(self)@.registry.mocks.dom().contains(id) {
                    MockError::TemplateSyntaxError
                } else {
                    MockError::NotFound
                },
            ),
            final(self).wf(),
    {
        if !self.registry.contains(id) {
            return Err(MockError::NotFound);
        }
        self.store(id, def)
    }

    /// Removes the definition stored under `id`, with its name and its
    /// templates, and returns it. An unknown identifier is refused and
    /// leaves the state as it was.
    pub fn delete(&mut self, id: u128) -> (r: Result<MockAPI, MockError>)
        requires
            old(self).wf(),
        ensures
            r is Ok <==> old(self)@.registry.mocks.dom().contains(id),
            r is Ok ==> final(self)@ == old(self)@.deleted(id) && r.unwrap()@
                == old(self)@.registry.mocks[id],
            r is Err ==> final(self)@ == old(self)@ && r == Err::<MockAPI, MockError>(
                MockError::NotFound,
            ),
            final(self).wf(),
    {
        match self.registry.remove(id) {
            Ok(removed) => {
                let stale = template_sources(id, &removed);
                remove_all(&mut self.engine, &stale);
                proof {
                    deleting_keeps_sound(old(self)@, id);
                }
                Ok(removed)
            },
            Err(e) => Err(e),
        }
    }

    /// Drops every definition, every name and every template.
    pub fn clear(&mut self)
        ensures
            final(self)@ == old(self)@.cleared(),
            final(self).wf(),
    {
        self.registry.clear_all();
        self.engine.clear_all();
    }

    /// Applies the merge rule to the copy `def` of definition `id` that came
    /// from a peer: it is stored where nothing is stored under `id` or where
    /// it is strictly newer than what is. A copy that wins by the rule but
    /// is not accepted as a definition is refused.
    pub fn merge(&mut self, id: u128, def: MockAPI) -> (r: Result<MergeOutcome, MockError>)
        requires
            old(self).wf(),
        ensures
            final(self)@ == old(self)@.merged(id, def@),
            r is Err <==> old(self)@.wins(id, def@) && !mock_accepted(def@),
            r is Ok ==> r.unwrap() == merge_outcome(
                if old(self)@.registry.mocks.dom().contains(id) {
                    Some(old(self)@.registry.mocks[id].timestamp)
                } else {
                    None
                },
                def@.timestamp,
            ),
            r is Err ==> r == Err::<MergeOutcome, MockError>(MockError::TemplateSyntaxError),
            final(self).wf(),
    {
        let outcome = match self.registry.get(id) {
            Ok(local) => {
                if def.timestamp.is_later_than(&local.timestamp) {
                    MergeOutcome::Replaced
                } else {
                    MergeOutcome::Discarded
                }
            },
            Err(_) => MergeOutcome::Inserted,
        };
        match outcome {
            MergeOutcome::Discarded => Ok(outcome),
            _ => match self.store(id, def) {
                Ok(_) => Ok(outcome),
                Err(e) => Err(e),
            },
        }
    }
}

/// Storing a definition whose templates are accepted keeps the state
/// sound.
pub proof fn storing_keeps_sound(s: AppStateView, id: u128, def: MockView)
    requires
        s.sound(),
        mock_accepted(def),
    ensures
        s.stored(id, def).sound(),
{
    crate::registry::lemma_upsert_consistent(s.registry, id, def);
    accepted_whatever_id(id, 0, def);
    crate::templates::accepted_sources_are_free(sources_of(id, def));
    source_map_is_of_list(sources_of(id, def));
    let t = s.stored(id, def);
    assert forall|other: u128, name: Seq<char>|
        t.registry.mocks.dom().contains(other) && #[trigger] template_map(
            other,
            t.registry.mocks[other],
        ).dom().contains(name) implies t.templates.dom().contains(name) && t.templates[name]
        == template_map(other, t.registry.mocks[other])[name] by {
        if other != id {
            assert(s.registry.mocks.dom().contains(other));
            assert(template_map(other, s.registry.mocks[other]).dom().contains(name));
            source_map_is_of_list(sources_of(other, s.registry.mocks[other]));
            names_of_different_ids_differ(other, s.registry.mocks[other], id, def);
            if s.registry.mocks.dom().contains(id) {
                names_of_different_ids_differ(
                    other,
                    s.registry.mocks[other],
                    id,
                    s.registry.mocks[id],
                );
            }
        }
    }
}

/// Deleting a definition keeps the state sound.
pub proof fn deleting_keeps_sound(s: AppStateView, id: u128)
    requires
        s.sound(),
    ensures
        s.deleted(id).sound(),
{
    crate::registry::lemma_remove_consistent(s.registry, id);
    let t = s.deleted(id);
    assert forall|other: u128, name: Seq<char>|
        t.registry.mocks.dom().contains(other) && #[trigger] template_map(
            other,
            t.registry.mocks[other],
        ).dom().contains(name) implies t.templates.dom().contains(name) && t.templates[name]
        == template_map(other, t.registry.mocks[other])[name] by {
        assert(s.registry.mocks.dom().contains(other));
        assert(template_map(other, s.registry.mocks[other]).dom().contains(name));
        source_map_is_of_list(sources_of(other, s.registry.mocks[other]));
        if s.registry.mocks.dom().contains(id) {
            names_of_different_ids_differ(other, s.registry.mocks[other], id, s.registry.mocks[id]);
        }
    }
}

/// Two definitions that differ in their timestamp alone bring the same
/// templates.
pub proof fn same_templates(a: MockView, b: MockView)
    requires
        a.response_variants == b.response_variants,
    ensures
        forall|id: u128| sources_of(id, a) == sources_of(id, b),
        mock_accepted(a) == mock_accepted(b),
{
}

} // verus!
