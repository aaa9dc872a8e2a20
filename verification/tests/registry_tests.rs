use omock::errors::MockError;
use omock::models::{MockAPI, ResponseVariant, Timestamp};
use omock::registry::{MergeOutcome, Registry};

fn mock(name: &str, seconds: i64) -> MockAPI {
    MockAPI {
        id: None,
        api_name: name.to_string(),
        method: String::from("GET"),
        timestamp: Timestamp { seconds, nanos: 0 },
        response_variants: vec![ResponseVariant {
            response: String::from("{}"),
            weight: 1,
            status: 200,
            response_headers: Some(vec![(String::from("X-A"), String::from("1"))]),
            condition: None,
            delay: Some(5),
        }],
    }
}

#[test]
fn upsert_then_get() {
    let mut registry = Registry::new();
    registry.upsert(7, mock("greet", 10));
    let found = registry.get(7).unwrap();
    assert_eq!(found.id, Some(7));
    assert_eq!(found.api_name, "greet");
    assert_eq!(found.response_variants, mock("greet", 10).response_variants);
    assert_eq!(registry.get_by_name("greet").unwrap(), found);
    assert_eq!(registry.id_of("greet"), Some(7));
    assert!(registry.contains(7));
    assert!(!registry.contains(8));
    assert_eq!(registry.get(8), Err(MockError::NotFound));
    assert_eq!(registry.get_by_name("other"), Err(MockError::NotFound));
    assert_eq!(registry.id_of("other"), None);
}

#[test]
fn upsert_sets_the_identifier_of_the_stored_definition() {
    let mut registry = Registry::new();
    let mut def = mock("a", 1);
    def.id = Some(99);
    registry.upsert(3, def);
    assert_eq!(registry.get(3).unwrap().id, Some(3));
    assert_eq!(registry.get(99), Err(MockError::NotFound));
}

#[test]
fn a_changed_name_gives_up_the_old_one() {
    let mut registry = Registry::new();
    registry.upsert(1, mock("old", 1));
    registry.upsert(1, mock("new", 2));
    assert_eq!(registry.get_by_name("old"), Err(MockError::NotFound));
    assert_eq!(registry.get_by_name("new").unwrap().id, Some(1));
    assert_eq!(registry.snapshot().len(), 1);
}

#[test]
fn a_name_taken_by_a_second_definition_leads_to_the_second() {
    let mut registry = Registry::new();
    registry.upsert(1, mock("shared", 1));
    registry.upsert(2, mock("shared", 2));
    assert_eq!(registry.get_by_name("shared").unwrap().id, Some(2));
    // The first one is still stored under its identifier.
    assert_eq!(registry.get(1).unwrap().api_name, "shared");
    // Removing the first one leaves the name with the second.
    assert!(registry.remove(1).is_ok());
    assert_eq!(registry.get_by_name("shared").unwrap().id, Some(2));
    // Renaming the second one releases the name.
    registry.upsert(2, mock("renamed", 3));
    assert_eq!(registry.get_by_name("shared"), Err(MockError::NotFound));
}

#[test]
fn remove_returns_the_definition_and_frees_the_name() {
    let mut registry = Registry::new();
    registry.upsert(1, mock("a", 1));
    registry.upsert(2, mock("b", 1));
    let removed = registry.remove(1).unwrap();
    assert_eq!(removed.api_name, "a");
    assert_eq!(registry.get(1), Err(MockError::NotFound));
    assert_eq!(registry.get_by_name("a"), Err(MockError::NotFound));
    assert_eq!(registry.id_of("a"), None);
    assert_eq!(registry.get_by_name("b").unwrap().id, Some(2));
    assert_eq!(registry.remove(1), Err(MockError::NotFound));
    assert_eq!(registry.get_by_name("b").unwrap().id, Some(2));
}

#[test]
fn clear_all_drops_everything() {
    let mut registry = Registry::new();
    registry.upsert(1, mock("a", 1));
    registry.upsert(2, mock("b", 1));
    registry.clear_all();
    assert!(registry.snapshot().is_empty());
    assert_eq!(registry.get(1), Err(MockError::NotFound));
    assert_eq!(registry.get_by_name("b"), Err(MockError::NotFound));
}

#[test]
fn snapshot_holds_every_definition_once() {
    let mut registry = Registry::new();
    for id in 0..50u128 {
        registry.upsert(id, mock(&format!("name{id}"), id as i64));
    }
    registry.upsert(10, mock("again", 100));
    let mut ids: Vec<u128> = registry.snapshot().iter().map(|m| m.id.unwrap()).collect();
    ids.sort();
    assert_eq!(ids, (0..50u128).collect::<Vec<_>>());
    // A snapshot is a copy: changing it leaves the registry alone.
    let mut copy = registry.snapshot();
    copy[0].api_name = String::from("changed");
    assert!(registry.get_by_name("changed").is_err());
}

#[test]
fn merge_inserts_replaces_and_discards() {
    let mut registry = Registry::new();
    assert_eq!(registry.merge_remote(1, mock("a", 10)), MergeOutcome::Inserted);
    assert_eq!(registry.merge_remote(1, mock("older", 9)), MergeOutcome::Discarded);
    assert_eq!(registry.get(1).unwrap().api_name, "a");
    assert_eq!(registry.merge_remote(1, mock("same", 10)), MergeOutcome::Discarded);
    assert_eq!(registry.get(1).unwrap().api_name, "a");
    assert_eq!(registry.merge_remote(1, mock("newer", 11)), MergeOutcome::Replaced);
    assert_eq!(registry.get(1).unwrap().api_name, "newer");
    assert_eq!(registry.get_by_name("a"), Err(MockError::NotFound));
}

#[test]
fn header_names_are_tested_for_repeats() {
    let pairs = |names: &[&str]| -> Vec<(String, String)> {
        names.iter().map(|n| (n.to_string(), String::from("v"))).collect()
    };
    assert!(omock::models::names_are_distinct(&pairs(&[])));
    assert!(omock::models::names_are_distinct(&pairs(&["a"])));
    assert!(omock::models::names_are_distinct(&pairs(&["a", "b", "c"])));
    assert!(!omock::models::names_are_distinct(&pairs(&["a", "b", "a"])));
    assert!(!omock::models::names_are_distinct(&pairs(&["a", "a"])));
    assert!(!omock::models::names_are_distinct(&pairs(&["x", "b", "c", "c"])));
    assert!(mock("a", 1).has_distinct_headers());
}

#[test]
fn timestamps_compare_by_seconds_then_nanoseconds() {
    let early = Timestamp { seconds: 5, nanos: 999_999_999 };
    let late = Timestamp { seconds: 6, nanos: 0 };
    let later = Timestamp { seconds: 6, nanos: 1 };
    assert!(late.is_later_than(&early));
    assert!(later.is_later_than(&late));
    assert!(!early.is_later_than(&late));
    assert!(!late.is_later_than(&late));
    assert!(Timestamp { seconds: -1, nanos: 0 }.is_later_than(&Timestamp { seconds: -2, nanos: 5 }));
}
