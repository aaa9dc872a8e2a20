//! The peer synchronizer: what is pulled from a peer is merged by the rule
//! that the last write wins, a peer that fails is tried again after a
//! growing pause, and each local change is described for the peers.
//!
//! The calls to the peers themselves are made by the caller; this module
//! decides what follows from each answer.

use crate::models::{MockAPI, MockView};
use crate::naming::{id_chars, id_text};
use crate::state::{AppState, AppStateView};
use crate::templates::mock_accepted;
use crate::text::{append_chars, chars_of, same_text, string_of};
use vstd::prelude::*;

verus! {

/// How many times one peer is tried in one cycle.
pub const MAX_ATTEMPTS: u32 = 3;

/// The seconds that an instance waits after its start before the first
/// cycle, to settle.
pub const INITIAL_DELAY_SECONDS: u64 = 2;

/// The seconds from one cycle to the next.
pub const SYNC_INTERVAL_SECONDS: u64 = 60;

/// The header in which a peer shows the shared secret.
pub const TOKEN_HEADER: &'static str = "X-Internal-Token";

/// The views of a list of definitions.
pub open spec fn mocks_view(mocks: Seq<MockAPI>) -> Seq<MockView> {
    Seq::new(mocks.len(), |i: int| mocks[i]@)
}

/// Two to the power `n`.
pub open spec fn pow2(n: nat) -> nat
    decreases n,
{
    if n == 0 {
        1
    } else {
        2 * pow2((n - 1) as nat)
    }
}

/// The seconds to wait after the failed attempt `attempt` before the next
/// one: the pause doubles with each attempt, starting at two seconds.
pub fn backoff_seconds(attempt: u32) -> (r: u64)
    requires
        attempt <= 62,
    ensures
        r == pow2(attempt as nat),
{
    let mut r: u64 = 1;
    let mut i: u32 = 0;
    while i < attempt
        invariant
            i <= attempt <= 62,
            r == pow2(i as nat),
        decreases attempt - i,
    {
        proof {
            pow2_grows(i as nat, 61);
            pow2_of_61();
        }
        r = r * 2;
        i += 1;
    }
    r
}

/// The power is at least one and grows with the exponent.
pub proof fn pow2_grows(m: nat, n: nat)
    requires
        m <= n,
    ensures
        1 <= pow2(m) <= pow2(n),
    decreases n,
{
    if n > 0 {
        if m < n {
            pow2_grows(m, (n - 1) as nat);
        } else {
            pow2_grows((m - 1) as nat, (n - 1) as nat);
        }
    }
}

/// Two to the power 61.
proof fn pow2_of_61()
    ensures
        pow2(61) == 0x2000_0000_0000_0000,
{
    reveal_with_fuel(pow2, 17);
    assert(pow2(15) == 0x8000);
    assert(pow2(30) == 0x4000_0000);
    assert(pow2(45) == 0x2000_0000_0000);
    assert(pow2(60) == 0x1000_0000_0000_0000);
}

/// The state after every definition of `defs` that carries an identifier
/// has been merged, one after the other. One without an identifier is
/// passed over.
pub open spec fn merged_all(s: AppStateView, defs: Seq<MockView>) -> AppStateView
    decreases defs.len(),
{
    if defs.len() == 0 {
        s
    } else {
        let before = merged_all(s, defs.drop_last());
        match defs.last().id {
            Some(id) => before.merged(id, defs.last()),
            None => before,
        }
    }
}

/// How many definitions of `defs` the merge stores.
pub open spec fn stored_count(s: AppStateView, defs: Seq<MockView>) -> nat
    decreases defs.len(),
{
    if defs.len() == 0 {
        0
    } else {
        let before = merged_all(s, defs.drop_last());
        let rest = stored_count(s, defs.drop_last());
        match defs.last().id {
            Some(id) => if before.wins(id, defs.last()) && mock_accepted(defs.last()) {
                rest + 1
            } else {
                rest
            },
            None => rest,
        }
    }
}

/// No more definitions are stored than came.
pub proof fn stored_count_bounded(s: AppStateView, defs: Seq<MockView>)
    ensures
        stored_count(s, defs) <= defs.len(),
    decreases defs.len(),
{
    if defs.len() > 0 {
        stored_count_bounded(s, defs.drop_last());
    }
}

/// What came of one attempt to fetch the definitions of a peer.
pub enum FetchOutcome {
    /// The peer answered with its definitions.
    Fetched(Vec<MockAPI>),
    /// The peer could not be reached, answered with a failure, or sent
    /// what could not be read.
    Failed,
}

/// What follows one attempt.
#[derive(Clone, Copy, Debug, PartialEq, Eq, Structural)]
pub enum SyncStep {
    /// The definitions were merged; so many of them were stored.
    Synced { stored: usize },
    /// The peer is to be tried again, as the attempt `attempt`, after a
    /// pause of so many seconds.
    Retry { attempt: u32, wait_seconds: u64 },
    /// The peer is given up for this cycle.
    GaveUp,
}

impl AppState {
    /// Merges the definitions that a peer sent into the state and returns
    /// how many of them were stored.
    pub fn merge_peer_mocks(&mut self, mocks: &Vec<MockAPI>) -> (stored: usize)
        requires
            old(self).wf(),
        ensures
            final(self)@ == merged_all(old(self)@, mocks_view(mocks@)),
            stored == stored_count(old(self)@, mocks_view(mocks@)),
            final(self).wf(),
    {
        let ghost all = mocks_view(mocks@);
        let mut stored: usize = 0;
        let mut i: usize = 0;
        while i < mocks.len()
            invariant
                i <= mocks.len(),
                all == mocks_view(mocks@),
                self.wf(),
                self@ == merged_all(old(self)@, all.take(i as int)),
                stored == stored_count(old(self)@, all.take(i as int)),
            decreases mocks.len() - i,
        {
            proof {
                assert(all.take(i + 1).drop_last() =~= all.take(i as int));
                assert(all.take(i + 1).last() == all[i as int]);
                stored_count_bounded(old(self)@, all.take(i as int));
            }
            match mocks[i].id {
                Some(id) => {
                    match self.merge(id, mocks[i].duplicate()) {
                        Ok(outcome) => {
                            match outcome {
                                crate::registry::MergeOutcome::Discarded => {},
                                _ => {
                                    stored = stored + 1;
                                },
                            }
                        },
                        Err(_) => {},
                    }
                },
                None => {},
            }
            i += 1;
        }
        assert(all.take(mocks.len() as int) =~= all);
        stored
    }

    /// Decides what follows the attempt `attempt` on one peer.
    ///
    /// Definitions that came are merged and the peer is counted as
    /// synchronized. A failed attempt before the last one is followed by a
    /// pause and another attempt; the last one ends the cycle for this peer.
    /// A failure leaves the state as it was.
    pub fn sync_data_from_peer(&mut self, attempt: u32, outcome: FetchOutcome) -> (r: SyncStep)
        requires
            old(self).wf(),
        ensures
            final(self).wf(),
            match outcome {
                FetchOutcome::Fetched(mocks) => {
                    let merged = merged_all(old(self)@, mocks_view(mocks@));
                    &&& r == (SyncStep::Synced {
                        stored: stored_count(old(self)@, mocks_view(mocks@)) as usize,
                    })
                    &&& final(self)@ == (AppStateView {
                        synced_peers: if merged.synced_peers == usize::MAX {
                            merged.synced_peers
                        } else {
                            merged.synced_peers + 1
                        },
                        ..merged
                    })
                },
                FetchOutcome::Failed => {
                    &&& final(self)@ == old(self)@
                    &&& r == next_after_failure(attempt)
                },
            },
    {
        match outcome {
            FetchOutcome::Fetched(mocks) => {
                let stored = self.merge_peer_mocks(&mocks);
                self.count_synced_peer();
                SyncStep::Synced { stored }
            },
            FetchOutcome::Failed => after_failure(attempt),
        }
    }
}

/// What follows the failed attempt `attempt`: before the last attempt,
/// another one after a pause of two to the power `attempt` seconds; else
/// the peer is given up.
pub open spec fn next_after_failure(attempt: u32) -> SyncStep {
    if attempt < MAX_ATTEMPTS {
        SyncStep::Retry { attempt: (attempt + 1) as u32, wait_seconds: pow2(attempt as nat) as u64 }
    } else {
        SyncStep::GaveUp
    }
}

/// Decides what follows a failed attempt.
pub fn after_failure(attempt: u32) -> (r: SyncStep)
    ensures
        r == next_after_failure(attempt),
{
    if attempt < MAX_ATTEMPTS {
        SyncStep::Retry { attempt: attempt + 1, wait_seconds: backoff_seconds(attempt) }
    } else {
        SyncStep::GaveUp
    }
}

/// A change that is passed on to the peers.
#[derive(Clone, Debug, PartialEq, Eq)]
pub enum PeerCall {
    /// A definition was created.
    Save(MockAPI),
    /// The definition under the identifier was updated.
    Update(u128, MockAPI),
    /// The definition under the identifier was deleted.
    Delete(u128),
    /// Every definition was deleted.
    DeleteAll,
}

/// The HTTP method of a call to a peer.
#[derive(Clone, Copy, Debug, PartialEq, Eq, Structural)]
pub enum Verb {
    Get,
    Post,
    Put,
    Delete,
}

impl PeerCall {
    /// The HTTP method of the call.
    pub open spec fn verb_of(self) -> Verb {
        match self {
            PeerCall::Save(_) => Verb::Post,
            PeerCall::Update(_, _) => Verb::Put,
            PeerCall::Delete(_) => Verb::Delete,
            PeerCall::DeleteAll => Verb::Delete,
        }
    }

    /// The path of the call on the peer.
    pub open spec fn path_of(self) -> Seq<char> {
        match self {
            PeerCall::Save(_) => "/save-mock-internal"@,
            PeerCall::Update(id, _) => "/update-mock-internal/"@ + id_text(id),
            PeerCall::Delete(id) => "/delete-mock-internal/"@ + id_text(id),
            PeerCall::DeleteAll => "/delete-all-mocks-internal"@,
        }
    }

    /// The HTTP method of the call.
    pub fn verb(&self) -> (r: Verb)
        ensures
            r == self.verb_of(),
    {
        match self {
            PeerCall::Save(_) => Verb::Post,
            PeerCall::Update(_, _) => Verb::Put,
            PeerCall::Delete(_) => Verb::Delete,
            PeerCall::DeleteAll => Verb::Delete,
        }
    }

    /// The path of the call on the peer.
    pub fn path(&self) -> (r: String)
        ensures
            r@ == self.path_of(),
    {
        match self {
            PeerCall::Save(_) => "/save-mock-internal".to_string(),
            PeerCall::Update(id, _) => {
                let mut out = chars_of("/update-mock-internal/");
                let tail = id_chars(*id);
                append_chars(&mut out, &tail);
                string_of(&out)
            },
            PeerCall::Delete(id) => {
                let mut out = chars_of("/delete-mock-internal/");
                let tail = id_chars(*id);
                append_chars(&mut out, &tail);
                string_of(&out)
            },
            PeerCall::DeleteAll => "/delete-all-mocks-internal".to_string(),
        }
    }
}

/// The address of `path` on the peer `peer`.
pub open spec fn peer_address(peer: Seq<char>, path: Seq<char>) -> Seq<char> {
    "http://"@ + peer + ":8080"@ + path
}

/// The address of `path` on the peer `peer`.
pub fn peer_url(peer: &str, path: &str) -> (r: String)
    ensures
        r@ == peer_address(peer@, path@),
{
    let mut out = chars_of("http://");
    let host = chars_of(peer);
    append_chars(&mut out, &host);
    let port = chars_of(":8080");
    append_chars(&mut out, &port);
    let tail = chars_of(path);
    append_chars(&mut out, &tail);
    string_of(&out)
}

/// The address from which the definitions of the peer `peer` are fetched.
pub fn list_url(peer: &str) -> (r: String)
    ensures
        r@ == peer_address(peer@, "/list-mocks"@),
{
    peer_url(peer, "/list-mocks")
}

/// The addresses of `found` without the instance's own address, in their
/// order.
pub open spec fn others(found: Seq<Seq<char>>, own: Seq<char>) -> Seq<Seq<char>>
    decreases found.len(),
{
    if found.len() == 0 {
        Seq::empty()
    } else if found.last() != own {
        others(found.drop_last(), own).push(found.last())
    } else {
        others(found.drop_last(), own)
    }
}

/// The views of a list of strings.
pub open spec fn texts_view(texts: Seq<String>) -> Seq<Seq<char>> {
    Seq::new(texts.len(), |i: int| texts[i]@)
}

/// The peers among the addresses that the directory gave: all but the
/// instance's own address.
pub fn other_peers(found: &Vec<String>, own: &str) -> (r: Vec<String>)
    ensures
        texts_view(r@) == others(texts_view(found@), own@),
{
    let ghost all = texts_view(found@);
    let mut out: Vec<String> = Vec::new();
    let mut i: usize = 0;
    assert(texts_view(out@) =~= others(all.take(0), own@));
    while i < found.len()
        invariant
            i <= found.len(),
            all == texts_view(found@),
            texts_view(out@) == others(all.take(i as int), own@),
        decreases found.len() - i,
    {
        let ghost before = texts_view(out@);
        proof {
            assert(all.take(i + 1).drop_last() =~= all.take(i as int));
            assert(all.take(i + 1).last() == all[i as int]);
        }
        if !same_text(found[i].as_str(), own) {
            out.push(found[i].clone());
            assert(texts_view(out@) =~= before.push(all[i as int]));
        }
        i += 1;
    }
    assert(all.take(found.len() as int) =~= all);
    out
}

} // verus!
