//! The operations behind the HTTP surface: what each endpoint does to the
//! state, what it answers, and what it passes on to the peers.
//!
//! A public endpoint changes the state first and then names the call that
//! carries the change to the peers. An internal endpoint, which receives
//! such a call, acts only for a caller that shows the shared secret.

use crate::clock::{current_time, fresh_id};
use crate::errors::MockError;
use crate::models::{MockAPI, MockView};
use crate::registry::{merge_outcome, MergeOutcome};
use crate::state::{AppState, AppStateView};
use crate::sync::PeerCall;
use crate::templates::mock_accepted;
use crate::text::{chars_of, same_text};
use vstd::prelude::*;

verus! {

/// A plain answer: an HTTP status and a short text.
#[derive(Clone, Debug, PartialEq, Eq)]
pub struct Reply {
    pub status: u16,
    pub body: String,
}

/// The caller shows the shared secret: a secret is configured and is not
/// empty, a token is there, and the two are the same text. Where no secret
/// is configured nobody shows it.
pub open spec fn shows_secret(token: Option<&str>, secret: Option<&str>) -> bool {
    match (token, secret) {
        (Some(t), Some(s)) => s@.len() > 0 && t@ == s@,
        _ => false,
    }
}

/// Tests whether the caller shows the shared secret.
pub fn authorized(token: Option<&str>, secret: Option<&str>) -> (r: bool)
    ensures
        r == shows_secret(token, secret),
{
    match (token, secret) {
        (Some(t), Some(s)) => {
            let configured = chars_of(s);
            configured.len() > 0 && same_text(t, s)
        },
        _ => false,
    }
}

/// Creates a definition from `data` under a fresh identifier, with the
/// current time as its timestamp, and names the call that carries it to the
/// peers. The identifier is one under which nothing was stored.
///
/// A definition that is not accepted is refused: one with a template that
/// does not compile or that includes another template, or with a header
/// named twice in one variant. The call fails as well where the identifier
/// that was drawn is taken, or where the clock gives no instant. A call
/// that fails leaves the state as it was. What follows from the identifier
/// and the instant that were drawn is fixed by `AppState::create_fresh`.
pub fn save_mock(state: &mut AppState, data: MockAPI) -> (r: Result<(MockAPI, PeerCall), MockError>)
    requires
        old(state).wf(),
    ensures
        !mock_accepted(data@) ==> r == Err::<(MockAPI, PeerCall), MockError>(
            MockError::TemplateSyntaxError,
        ),
        mock_accepted(data@) && r is Err ==> r == Err::<(MockAPI, PeerCall), MockError>(
            MockError::InternalError,
        ),
        r is Ok ==> {
            let saved = r.unwrap().0;
            &&& saved@.id is Some
            &&& !old(state)@.registry.mocks.dom().contains(saved@.id.unwrap())
            &&& saved@ == (MockView { id: saved@.id, timestamp: saved@.timestamp, ..data@ })
            &&& final(state)@ == old(state)@.stored(
                saved@.id.unwrap(),
                MockView { timestamp: saved@.timestamp, ..data@ },
            )
            &&& r.unwrap().1 is Save
            &&& r.unwrap().1->Save_0@ == saved@
        },
        r is Err ==> final(state)@ == old(state)@,
        final(state).wf(),
{
    match state.create_fresh(fresh_id(), current_time(), data) {
        Ok(saved) => {
            let call = PeerCall::Save(saved.duplicate());
            Ok((saved, call))
        },
        Err(e) => Err(e),
    }
}

/// Updates the definition under `id` to `data` and names the call that
/// carries the update to the peers. An unknown identifier is refused, and so
/// is a definition that is not accepted.
pub fn update_mock(state: &mut AppState, id: u128, data: MockAPI) -> (r: Result<
    (MockAPI, PeerCall),
    MockError,
>)
    requires
        old(state).wf(),
    ensures
        r is Ok <==> old(state)@.registry.mocks.dom().contains(id) && mock_accepted(data@),
        r is Ok ==> {
            &&& r.unwrap().0@ == (MockView { id: Some(id), ..data@ })
            &&& final(state)@ == old(state)@.stored(id, data@)
            &&& r.unwrap().1 is Update
            &&& r.unwrap().1->Update_0 == id
            &&& r.unwrap().1->Update_1@ == r.unwrap().0@
        },
        r is Err ==> final(state)@ == old(state)@,
        r is Err ==> r == Err::<(MockAPI, PeerCall), MockError>(
            if old(state)@.registry.mocks.dom().contains(id) {
                MockError::TemplateSyntaxError
            } else {
                MockError::NotFound
            },
        ),
        final(state).wf(),
{
    match state.update(id, data) {
        Ok(updated) => {
            let call = PeerCall::Update(id, updated.duplicate());
            Ok((updated, call))
        },
        Err(e) => Err(e),
    }
}

/// A copy of the definition under `id`.
pub fn get_mock(state: &AppState, id: u128) -> (r: Result<MockAPI, MockError>)
    ensures
        r is Ok <==> state@.registry.mocks.dom().contains(id),
        r is Ok ==> r.unwrap()@ == state@.registry.mocks[id],
        r is Err ==> r == Err::<MockAPI, MockError>(MockError::NotFound),
{
    state.registry().get(id)
}

/// A copy of every definition, each once.
pub fn list_mocks(state: &AppState) -> (r: Vec<MockAPI>)
    requires
        state.wf(),
    ensures
        forall|i: int|
            0 <= i < r.len() ==> (#[trigger] r[i]@).id is Some
                && state@.registry.mocks.dom().contains(r[i]@.id.unwrap())
                && state@.registry.mocks[r[i]@.id.unwrap()] == r[i]@,
        forall|i: int, j: int| 0 <= i < j < r.len() ==> r[i]@.id != r[j]@.id,
        forall|id: u128|
            state@.registry.mocks.dom().contains(id) ==> exists|i: int|
                0 <= i < r.len() && r[i]@.id == Some(id),
{
    state.registry().snapshot()
}

/// Deletes the definition under `id` and names the call that carries the
/// deletion to the peers. An unknown identifier is refused.
pub fn delete_mock(state: &mut AppState, id: u128) -> (r: Result<PeerCall, MockError>)
    requires
        old(state).wf(),
    ensures
        r is Ok <==> old(state)@.registry.mocks.dom().contains(id),
        r is Ok ==> final(state)@ == old(state)@.deleted(id) && r.unwrap() is Delete
            && r.unwrap()->Delete_0 == id,
        r is Err ==> final(state)@ == old(state)@ && r == Err::<PeerCall, MockError>(
            MockError::NotFound,
        ),
        final(state).wf(),
{
    match state.delete(id) {
        Ok(_) => Ok(PeerCall::Delete(id)),
        Err(e) => Err(e),
    }
}

/// Deletes every definition and names the call that carries this to the
/// peers.
pub fn delete_all_mocks(state: &mut AppState) -> (r: PeerCall)
    ensures
        final(state)@ == old(state)@.cleared(),
        r is DeleteAll,
        final(state).wf(),
{
    state.clear();
    PeerCall::DeleteAll
}

/// The liveness probe: always well.
pub fn health_check() -> (r: Reply)
    ensures
        r.status == 200,
        r.body@ == "OK"@,
{
    Reply { status: 200, body: "OK".to_string() }
}

/// The readiness probe: well once the instance has synchronized from a
/// peer, unavailable before. An instance that finds no peer stays
/// unavailable.
pub fn readiness_check(state: &AppState) -> (r: Reply)
    ensures
        state@.synced_peers > 0 ==> r.status == 200 && r.body@ == "Ready"@,
        state@.synced_peers == 0 ==> r.status == 503 && r.body@
            == "Not synchronized with peers yet"@,
{
    if state.is_ready() {
        Reply { status: 200, body: "Ready".to_string() }
    } else {
        Reply { status: 503, body: "Not synchronized with peers yet".to_string() }
    }
}

/// Receives a created definition from a peer. A caller that does not show
/// the shared secret is refused and the state stays as it was. The
/// definition is merged under the identifier that it carries, or under a
/// fresh one, under which nothing was stored, where it carries none. Where
/// the fresh identifier that was drawn is taken, the call fails and the
/// state stays as it was: what follows from the identifier that was drawn
/// is fixed by `AppState::merge_fresh`.
pub fn save_mock_internal(
    state: &mut AppState,
    token: Option<&str>,
    secret: Option<&str>,
    data: MockAPI,
) -> (r: Result<MergeOutcome, MockError>)
    requires
        old(state).wf(),
    ensures
        !shows_secret(token, secret) ==> final(state)@ == old(state)@ && r == Err::<
            MergeOutcome,
            MockError,
        >(MockError::Unauthorized),
        shows_secret(token, secret) ==> match data@.id {
            Some(id) => received(old(state)@, final(state)@, r, id, data@),
            None => (final(state)@ == old(state)@ && r == Err::<MergeOutcome, MockError>(
                MockError::InternalError,
            )) || exists|id: u128|
                !old(state)@.registry.mocks.dom().contains(id) && received(
                    old(state)@,
                    final(state)@,
                    r,
                    id,
                    data@,
                ),
        },
        final(state).wf(),
{
    if !authorized(token, secret) {
        return Err(MockError::Unauthorized);
    }
    let id = match data.id {
        Some(id) => id,
        None => {
            let drawn = fresh_id();
            let r = state.merge_fresh(drawn, data);
            assert(!old(state)@.registry.mocks.dom().contains(drawn) ==> received(
                old(state)@,
                state@,
                r,
                drawn,
                data@,
            ));
            return r;
        },
    };
    let r = state.merge(id, data);
    assert(received(old(state)@, state@, r, id, data@));
    r
}

/// What the merge of the copy `def` of definition `id` leaves: the state
/// that the merge rule gives, and as the answer the outcome of the rule, or
/// a refusal where the rule takes a copy that is not accepted as a
/// definition.
pub open spec fn received(
    before: AppStateView,
    after: AppStateView,
    r: Result<MergeOutcome, MockError>,
    id: u128,
    def: MockView,
) -> bool {
    &&& after == before.merged(id, def)
    &&& r is Err <==> before.wins(id, def) && !mock_accepted(def)
    &&& r is Err ==> r == Err::<MergeOutcome, MockError>(MockError::TemplateSyntaxError)
    &&& r is Ok ==> r.unwrap() == merge_outcome(
        if before.registry.mocks.dom().contains(id) {
            Some(before.registry.mocks[id].timestamp)
        } else {
            None
        },
        def.timestamp,
    )
}

/// Receives an updated definition from a peer and merges it under `id`. A
/// caller that does not show the shared secret is refused and the state
/// stays as it was.
pub fn update_mock_internal(
    state: &mut AppState,
    token: Option<&str>,
    secret: Option<&str>,
    id: u128,
    data: MockAPI,
) -> (r: Result<MergeOutcome, MockError>)
    requires
        old(state).wf(),
    ensures
        !shows_secret(token, secret) ==> final(state)@ == old(state)@ && r == Err::<
            MergeOutcome,
            MockError,
        >(MockError::Unauthorized),
        shows_secret(token, secret) ==> received(old(state)@, final(state)@, r, id, data@),
        final(state).wf(),
{
    if !authorized(token, secret) {
        return Err(MockError::Unauthorized);
    }
    state.merge(id, data)
}

/// Receives a deletion from a peer. A caller that does not show the shared
/// secret is refused and the state stays as it was; an unknown identifier
/// is refused too.
pub fn delete_mock_internal(
    state: &mut AppState,
    token: Option<&str>,
    secret: Option<&str>,
    id: u128,
) -> (r: Result<(), MockError>)
    requires
        old(state).wf(),
    ensures
        !shows_secret(token, secret) ==> final(state)@ == old(state)@ && r == Err::<(), MockError>(
            MockError::Unauthorized,
        ),
        shows_secret(token, secret) ==> (r is Ok <==> old(state)@.registry.mocks.dom().contains(
            id,
        )) && final(state)@ == old(state)@.deleted(id) && (r is Err ==> r == Err::<
            (),
            MockError,
        >(MockError::NotFound)),
        final(state).wf(),
{
    if !authorized(token, secret) {
        return Err(MockError::Unauthorized);
    }
    match state.delete(id) {
        Ok(_) => Ok(()),
        Err(e) => {
            proof {
                deleting_nothing(old(state)@, id);
            }
            Err(e)
        },
    }
}

/// Receives the deletion of every definition from a peer. A caller that
/// does not show the shared secret is refused and the state stays as it
/// was.
pub fn delete_all_mocks_internal(
    state: &mut AppState,
    token: Option<&str>,
    secret: Option<&str>,
) -> (r: Result<(), MockError>)
    requires
        old(state).wf(),
    ensures
        r is Ok <==> shows_secret(token, secret),
        r is Ok ==> final(state)@ == old(state)@.cleared(),
        r is Err ==> final(state)@ == old(state)@ && r == Err::<(), MockError>(
            MockError::Unauthorized,
        ),
        final(state).wf(),
{
    if !authorized(token, secret) {
        return Err(MockError::Unauthorized);
    }
    state.clear();
    Ok(())
}

/// Deleting under an identifier that is not stored changes nothing.
pub proof fn deleting_nothing(s: AppStateView, id: u128)
    requires
        !s.registry.mocks.dom().contains(id),
    ensures
        s.deleted(id) == s,
{
    assert(s.registry.mocks.remove(id) =~= s.registry.mocks);
    assert(s.templates.remove_keys(s.names_of(id)) =~= s.templates);
    assert(s.deleted(id).registry =~= s.registry);
}

} // verus!
