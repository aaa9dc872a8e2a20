use omock::models::{MockAPI, ResponseVariant, Timestamp};
use omock::state::AppState;
use omock::sync::{
    after_failure, backoff_seconds, list_url, other_peers, peer_url, FetchOutcome, PeerCall,
    SyncStep, Verb, INITIAL_DELAY_SECONDS, MAX_ATTEMPTS, SYNC_INTERVAL_SECONDS, TOKEN_HEADER,
};

fn mock(id: Option<u128>, name: &str, seconds: i64, response: &str) -> MockAPI {
    MockAPI {
        id,
        api_name: name.to_string(),
        method: String::from("GET"),
        timestamp: Timestamp { seconds, nanos: 0 },
        response_variants: vec![ResponseVariant {
            response: response.to_string(),
            weight: 1,
            status: 200,
            response_headers: None,
            condition: None,
            delay: None,
        }],
    }
}

#[test]
fn the_pause_doubles_with_each_attempt() {
    assert_eq!(backoff_seconds(0), 1);
    assert_eq!(backoff_seconds(1), 2);
    assert_eq!(backoff_seconds(2), 4);
    assert_eq!(backoff_seconds(3), 8);
    assert_eq!(backoff_seconds(10), 1024);
    assert_eq!(backoff_seconds(62), 1u64 << 62);
}

#[test]
fn a_failed_attempt_is_followed_by_a_pause_until_the_ceiling() {
    assert_eq!(MAX_ATTEMPTS, 3);
    assert_eq!(INITIAL_DELAY_SECONDS, 2);
    assert_eq!(SYNC_INTERVAL_SECONDS, 60);
    assert_eq!(TOKEN_HEADER, "X-Internal-Token");
    assert_eq!(after_failure(1), SyncStep::Retry { attempt: 2, wait_seconds: 2 });
    assert_eq!(after_failure(2), SyncStep::Retry { attempt: 3, wait_seconds: 4 });
    assert_eq!(after_failure(3), SyncStep::GaveUp);
    assert_eq!(after_failure(4), SyncStep::GaveUp);
    assert_eq!(after_failure(u32::MAX), SyncStep::GaveUp);
}

#[test]
fn a_failure_leaves_the_state_as_it_was() {
    let mut state = AppState::new();
    state.store(1, mock(None, "a", 1, "x")).unwrap();
    let before = state.registry().snapshot();
    assert_eq!(
        state.sync_data_from_peer(1, FetchOutcome::Failed),
        SyncStep::Retry { attempt: 2, wait_seconds: 2 }
    );
    assert_eq!(state.sync_data_from_peer(3, FetchOutcome::Failed), SyncStep::GaveUp);
    assert_eq!(state.registry().snapshot(), before);
    assert_eq!(state.synced_peers(), 0);
    assert!(!state.is_ready());
}

#[test]
fn fetched_definitions_are_merged_and_the_peer_is_counted() {
    let mut state = AppState::new();
    state.store(1, mock(None, "local-old", 10, "x")).unwrap();
    state.store(2, mock(None, "local-new", 30, "x")).unwrap();
    let fetched = vec![
        mock(Some(1), "remote-newer", 20, "r1"),
        mock(Some(2), "remote-older", 20, "r2"),
        mock(Some(3), "remote-only", 5, "r3"),
        mock(None, "without-id", 99, "r4"),
        mock(Some(4), "broken", 99, "{{#if}}"),
    ];
    let step = state.sync_data_from_peer(1, FetchOutcome::Fetched(fetched));
    assert_eq!(step, SyncStep::Synced { stored: 2 });
    assert_eq!(state.registry().get(1).unwrap().api_name, "remote-newer");
    assert_eq!(state.registry().get(2).unwrap().api_name, "local-new");
    assert_eq!(state.registry().get(3).unwrap().api_name, "remote-only");
    assert!(state.registry().get(4).is_err());
    assert_eq!(state.registry().snapshot().len(), 3);
    assert_eq!(state.synced_peers(), 1);
    assert!(state.is_ready());
}

#[test]
fn a_later_copy_in_the_same_answer_wins_over_an_earlier_one() {
    let mut state = AppState::new();
    let fetched = vec![
        mock(Some(1), "first", 10, "a"),
        mock(Some(1), "second", 20, "b"),
        mock(Some(1), "third", 15, "c"),
    ];
    assert_eq!(state.merge_peer_mocks(&fetched), 2);
    assert_eq!(state.registry().get(1).unwrap().api_name, "second");
}

#[test]
fn an_empty_answer_still_counts_the_peer() {
    let mut state = AppState::new();
    assert_eq!(
        state.sync_data_from_peer(2, FetchOutcome::Fetched(Vec::new())),
        SyncStep::Synced { stored: 0 }
    );
    assert_eq!(state.synced_peers(), 1);
}

#[test]
fn two_instances_converge() {
    let mut left = AppState::new();
    let mut right = AppState::new();
    left.store(1, mock(None, "one", 10, "l1")).unwrap();
    left.store(2, mock(None, "two", 10, "l2")).unwrap();
    right.store(2, mock(None, "two-right", 20, "r2")).unwrap();
    right.store(3, mock(None, "three", 5, "r3")).unwrap();
    let from_left = left.registry().snapshot();
    let from_right = right.registry().snapshot();
    left.merge_peer_mocks(&from_right);
    right.merge_peer_mocks(&from_left);
    let mut l = left.registry().snapshot();
    let mut r = right.registry().snapshot();
    l.sort_by_key(|m| m.id);
    r.sort_by_key(|m| m.id);
    assert_eq!(l, r);
    assert_eq!(l.len(), 3);
    assert_eq!(l[1].api_name, "two-right");
}

#[test]
fn peer_calls_name_their_method_and_path() {
    let id = 0x0123_4567_89ab_cdef_0123_4567_89ab_cdef;
    let def = mock(Some(id), "a", 1, "x");
    let save = PeerCall::Save(def.clone());
    assert_eq!(save.verb(), Verb::Post);
    assert_eq!(save.path(), "/save-mock-internal");
    let update = PeerCall::Update(id, def);
    assert_eq!(update.verb(), Verb::Put);
    assert_eq!(update.path(), "/update-mock-internal/01234567-89ab-cdef-0123-456789abcdef");
    let delete = PeerCall::Delete(id);
    assert_eq!(delete.verb(), Verb::Delete);
    assert_eq!(delete.path(), "/delete-mock-internal/01234567-89ab-cdef-0123-456789abcdef");
    assert_eq!(PeerCall::DeleteAll.verb(), Verb::Delete);
    assert_eq!(PeerCall::DeleteAll.path(), "/delete-all-mocks-internal");
}

#[test]
fn peer_addresses() {
    assert_eq!(peer_url("10.0.0.7", "/x/y"), "http://10.0.0.7:8080/x/y");
    assert_eq!(list_url("10.0.0.7"), "http://10.0.0.7:8080/list-mocks");
    assert_eq!(
        peer_url("10.1.2.3", &PeerCall::DeleteAll.path()),
        "http://10.1.2.3:8080/delete-all-mocks-internal"
    );
}

#[test]
fn the_own_address_is_no_peer() {
    let found: Vec<String> =
        ["10.0.0.1", "10.0.0.2", "10.0.0.3", "10.0.0.2"].iter().map(|s| s.to_string()).collect();
    assert_eq!(other_peers(&found, "10.0.0.2"), vec!["10.0.0.1", "10.0.0.3"]);
    assert_eq!(other_peers(&found, ""), found);
    assert_eq!(other_peers(&found, "10.0.0.9"), found);
    assert!(other_peers(&Vec::new(), "10.0.0.1").is_empty());
    assert!(other_peers(&vec![String::from("a")], "a").is_empty());
}
