use omock::engine::TemplateEngine;
use omock::errors::MockError;
use omock::models::{MockAPI, ResponseVariant, Timestamp};
use omock::naming::{body_template_name, header_name};
use omock::registry::MergeOutcome;
use omock::state::AppState;

fn variant(response: &str, headers: Option<Vec<(&str, &str)>>) -> ResponseVariant {
    ResponseVariant {
        response: response.to_string(),
        weight: 1,
        status: 200,
        response_headers: headers
            .map(|h| h.into_iter().map(|(k, v)| (k.to_string(), v.to_string())).collect()),
        condition: None,
        delay: None,
    }
}

fn mock(name: &str, seconds: i64, variants: Vec<ResponseVariant>) -> MockAPI {
    MockAPI {
        id: None,
        api_name: name.to_string(),
        method: String::from("GET"),
        timestamp: Timestamp { seconds, nanos: 0 },
        response_variants: variants,
    }
}

#[test]
fn a_new_state_is_empty() {
    let state = AppState::new();
    assert!(state.registry().snapshot().is_empty());
    assert_eq!(state.synced_peers(), 0);
    assert_eq!(state.request_count(), 0);
    assert!(!state.is_ready());
}

#[test]
fn the_templates_of_a_new_state_can_call_the_helpers() {
    let mut state = AppState::new();
    state.store(1, mock("a", 1, vec![variant("{{ordered_number}}/{{random_number 2 2}}", None)])).unwrap();
    let ctx = omock::context::build_context("a", &Vec::new(), &Vec::new(), &Vec::new());
    assert_eq!(
        state.engine().render(&body_template_name(1, 0), &ctx),
        Ok(String::from("1/2"))
    );
    // Clearing the state keeps the helpers.
    state.clear();
    state.store(2, mock("b", 1, vec![variant("{{ordered_number}}", None)])).unwrap();
    assert_eq!(state.engine().render(&body_template_name(2, 0), &ctx), Ok(String::from("2")));
}

#[test]
fn store_registers_the_templates_of_every_variant_and_header() {
    let mut state = AppState::new();
    let def = mock(
        "a",
        1,
        vec![variant("one", Some(vec![("X-A", "{{a}}"), ("X-B", "b")])), variant("two", None)],
    );
    let stored = state.store(5, def).unwrap();
    assert_eq!(stored.id, Some(5));
    let engine = state.engine();
    assert!(engine.has_template(&body_template_name(5, 0)));
    assert!(engine.has_template(&body_template_name(5, 1)));
    assert!(engine.has_template(&header_name(5, 0, "X-A")));
    assert!(engine.has_template(&header_name(5, 0, "X-B")));
    assert!(!engine.has_template(&body_template_name(5, 2)));
    assert!(!engine.has_template(&header_name(5, 1, "X-A")));
}

#[test]
fn a_template_that_does_not_compile_leaves_the_state_as_it_was() {
    let mut state = AppState::new();
    state.store(5, mock("a", 1, vec![variant("fine", None)])).unwrap();
    let broken = mock("b", 2, vec![variant("ok", None), variant("{{#if x}}open", None)]);
    assert_eq!(state.store(5, broken.clone()), Err(MockError::TemplateSyntaxError));
    assert_eq!(state.store(6, broken), Err(MockError::TemplateSyntaxError));
    assert_eq!(state.registry().get(5).unwrap().api_name, "a");
    assert!(state.registry().get(6).is_err());
    assert!(state.engine().has_template(&body_template_name(5, 0)));
    assert!(!state.engine().has_template(&body_template_name(5, 1)));
    assert!(!state.engine().has_template(&body_template_name(6, 0)));
    let bad_header = mock("c", 3, vec![variant("ok", Some(vec![("X", "{{/if}}")]))]);
    assert_eq!(state.store(7, bad_header), Err(MockError::TemplateSyntaxError));
    assert!(!state.engine().has_template(&body_template_name(7, 0)));
}

#[test]
fn a_header_named_twice_in_one_variant_is_refused() {
    let mut state = AppState::new();
    let twice = mock("a", 1, vec![variant("x", Some(vec![("X-A", "1"), ("X-B", "2"), ("X-A", "3")]))]);
    assert!(!twice.has_distinct_headers());
    assert_eq!(state.store(1, twice.clone()), Err(MockError::TemplateSyntaxError));
    assert_eq!(state.merge(1, twice.clone()), Err(MockError::TemplateSyntaxError));
    let mut with_id = twice;
    with_id.id = Some(1);
    assert_eq!(state.register_mock_templates(&with_id), Err(MockError::TemplateSyntaxError));
    assert!(state.registry().snapshot().is_empty());
    assert!(!state.engine().has_template(&body_template_name(1, 0)));
    // The same name in two variants is in order, and so are names that
    // differ in case.
    let spread = mock(
        "b",
        1,
        vec![
            variant("x", Some(vec![("X-A", "1"), ("x-a", "2")])),
            variant("y", Some(vec![("X-A", "3")])),
        ],
    );
    assert!(spread.has_distinct_headers());
    assert!(state.store(2, spread).is_ok());
}

#[test]
fn a_replaced_definition_brings_its_own_templates() {
    let mut state = AppState::new();
    let ctx = omock::context::build_context("a", &Vec::new(), &Vec::new(), &Vec::new());
    state.store(1, mock("a", 1, vec![variant("old", Some(vec![("H", "old-h")]))])).unwrap();
    state.store(1, mock("a", 2, vec![variant("new", Some(vec![("H", "new-h")]))])).unwrap();
    assert_eq!(state.engine().render(&body_template_name(1, 0), &ctx), Ok(String::from("new")));
    assert_eq!(state.engine().render(&header_name(1, 0, "H"), &ctx), Ok(String::from("new-h")));
    state.merge(1, mock("a", 3, vec![variant("newest", None)])).unwrap();
    assert_eq!(state.engine().render(&body_template_name(1, 0), &ctx), Ok(String::from("newest")));
    assert!(!state.engine().has_template(&header_name(1, 0, "H")));
}

#[test]
fn storing_again_drops_the_templates_that_are_no_longer_used() {
    let mut state = AppState::new();
    state
        .store(
            5,
            mock("a", 1, vec![variant("one", Some(vec![("X-A", "a")])), variant("two", None)]),
        )
        .unwrap();
    state.store(5, mock("a", 2, vec![variant("only", None)])).unwrap();
    assert!(state.engine().has_template(&body_template_name(5, 0)));
    assert!(!state.engine().has_template(&body_template_name(5, 1)));
    assert!(!state.engine().has_template(&header_name(5, 0, "X-A")));
}

#[test]
fn create_sets_identifier_and_timestamp() {
    let mut state = AppState::new();
    let now = Timestamp { seconds: 1_700_000_000, nanos: 42 };
    let created = state.create(9, now, mock("a", 1, vec![variant("x", None)])).unwrap();
    assert_eq!(created.id, Some(9));
    assert_eq!(created.timestamp, now);
    assert_eq!(state.registry().get(9).unwrap(), created);
}

#[test]
fn a_fresh_definition_needs_a_free_identifier_and_an_instant() {
    let mut state = AppState::new();
    let now = Timestamp { seconds: 1_700_000_000, nanos: 7 };
    let good = mock("a", 1, vec![variant("x", None)]);
    let bad = mock("b", 1, vec![variant("{{#if}}", None)]);
    let created = state.create_fresh(9, Some(now), good.clone()).unwrap();
    assert_eq!((created.id, created.timestamp), (Some(9), now));
    assert_eq!(state.registry().get(9).unwrap(), created);
    // The identifier is taken now.
    assert_eq!(state.create_fresh(9, Some(now), good.clone()), Err(MockError::InternalError));
    assert_eq!(state.registry().get(9).unwrap(), created);
    // The clock gave nothing.
    assert_eq!(state.create_fresh(10, None, good.clone()), Err(MockError::InternalError));
    assert!(state.registry().get(10).is_err());
    assert!(!state.engine().has_template(&body_template_name(10, 0)));
    // A definition that is not accepted is refused as such, whatever was
    // drawn.
    assert_eq!(state.create_fresh(11, Some(now), bad.clone()), Err(MockError::TemplateSyntaxError));
    assert_eq!(state.create_fresh(9, Some(now), bad.clone()), Err(MockError::TemplateSyntaxError));
    assert_eq!(state.create_fresh(11, None, bad), Err(MockError::TemplateSyntaxError));
    assert_eq!(state.registry().snapshot().len(), 1);
}

#[test]
fn a_copy_without_identifier_needs_a_free_one() {
    let mut state = AppState::new();
    let good = mock("a", 5, vec![variant("x", None)]);
    assert_eq!(state.merge_fresh(3, good.clone()), Ok(MergeOutcome::Inserted));
    assert_eq!(state.registry().get(3).unwrap().api_name, "a");
    // The identifier is taken: nothing changes, however new the copy is.
    let newer = mock("newer", 99, vec![variant("y", None)]);
    assert_eq!(state.merge_fresh(3, newer), Err(MockError::InternalError));
    assert_eq!(state.registry().get(3).unwrap().api_name, "a");
    let bad = mock("b", 5, vec![variant("{{> x}}", None)]);
    assert_eq!(state.merge_fresh(4, bad), Err(MockError::TemplateSyntaxError));
    assert!(state.registry().get(4).is_err());
}

#[test]
fn registering_the_templates_of_a_stored_definition_again_changes_nothing() {
    let mut state = AppState::new();
    let ctx = omock::context::build_context("a", &Vec::new(), &Vec::new(), &Vec::new());
    let stored =
        state.store(1, mock("a", 1, vec![variant("body", Some(vec![("H", "head")]))])).unwrap();
    assert_eq!(state.register_mock_templates(&stored), Ok(()));
    assert_eq!(state.engine().render(&body_template_name(1, 0), &ctx), Ok(String::from("body")));
    assert_eq!(state.engine().render(&header_name(1, 0, "H"), &ctx), Ok(String::from("head")));
    assert_eq!(state.registry().snapshot(), vec![stored]);
}

#[test]
fn update_refuses_an_unknown_identifier() {
    let mut state = AppState::new();
    assert_eq!(
        state.update(1, mock("a", 1, vec![variant("x", None)])),
        Err(MockError::NotFound)
    );
    assert!(state.registry().snapshot().is_empty());
    assert!(!state.engine().has_template(&body_template_name(1, 0)));
    state.store(1, mock("a", 1, vec![variant("x", None)])).unwrap();
    let updated = state.update(1, mock("b", 0, vec![variant("y", None)])).unwrap();
    // A local update is taken whatever its timestamp.
    assert_eq!(updated.api_name, "b");
    assert_eq!(state.registry().get_by_name("b").unwrap().id, Some(1));
    assert!(state.registry().get_by_name("a").is_err());
    assert_eq!(
        state.update(1, mock("c", 5, vec![variant("{{#each}}", None)])),
        Err(MockError::TemplateSyntaxError)
    );
    assert_eq!(state.registry().get(1).unwrap().api_name, "b");
}

#[test]
fn delete_drops_definition_name_and_templates() {
    let mut state = AppState::new();
    state.store(1, mock("a", 1, vec![variant("x", Some(vec![("H", "v")]))])).unwrap();
    state.store(2, mock("b", 1, vec![variant("y", None)])).unwrap();
    let deleted = state.delete(1).unwrap();
    assert_eq!(deleted.api_name, "a");
    assert!(state.registry().get(1).is_err());
    assert!(state.registry().get_by_name("a").is_err());
    assert!(!state.engine().has_template(&body_template_name(1, 0)));
    assert!(!state.engine().has_template(&header_name(1, 0, "H")));
    assert!(state.engine().has_template(&body_template_name(2, 0)));
    assert_eq!(state.delete(1), Err(MockError::NotFound));
    assert!(state.engine().has_template(&body_template_name(2, 0)));
    assert_eq!(state.registry().snapshot().len(), 1);
}

#[test]
fn clear_drops_definitions_and_templates_but_keeps_the_counters() {
    let mut state = AppState::new();
    state.store(1, mock("a", 1, vec![variant("x", None)])).unwrap();
    state.count_request();
    state.count_synced_peer();
    state.clear();
    assert!(state.registry().snapshot().is_empty());
    assert!(!state.engine().has_template(&body_template_name(1, 0)));
    assert_eq!(state.request_count(), 1);
    assert_eq!(state.synced_peers(), 1);
    assert!(state.is_ready());
}

#[test]
fn last_write_wins() {
    let mut state = AppState::new();
    state.store(1, mock("at-t1", 100, vec![variant("t1", None)])).unwrap();
    let before = state.registry().get(1).unwrap();
    // A copy from an earlier instant leaves the stored definition unchanged.
    assert_eq!(
        state.merge(1, mock("at-t0", 99, vec![variant("t0", None), variant("t0b", None)])),
        Ok(MergeOutcome::Discarded)
    );
    assert_eq!(state.registry().get(1).unwrap(), before);
    assert!(!state.engine().has_template(&body_template_name(1, 1)));
    // So does one from the same instant.
    assert_eq!(
        state.merge(1, mock("tie", 100, vec![variant("tie", None)])),
        Ok(MergeOutcome::Discarded)
    );
    assert_eq!(state.registry().get(1).unwrap(), before);
    // A copy from a later instant replaces it.
    assert_eq!(
        state.merge(1, mock("at-t2", 101, vec![variant("t2", None), variant("t2b", None)])),
        Ok(MergeOutcome::Replaced)
    );
    let after = state.registry().get(1).unwrap();
    assert_eq!(after.api_name, "at-t2");
    assert_eq!(after.timestamp, Timestamp { seconds: 101, nanos: 0 });
    assert!(state.engine().has_template(&body_template_name(1, 1)));
    assert!(state.registry().get_by_name("at-t1").is_err());
}

#[test]
fn merge_refuses_a_newer_copy_that_does_not_compile() {
    let mut state = AppState::new();
    state.store(1, mock("a", 100, vec![variant("x", None)])).unwrap();
    assert_eq!(
        state.merge(1, mock("b", 200, vec![variant("{{#if}}", None)])),
        Err(MockError::TemplateSyntaxError)
    );
    assert_eq!(state.registry().get(1).unwrap().api_name, "a");
    // An older copy is dropped before its templates are looked at.
    assert_eq!(
        state.merge(1, mock("b", 50, vec![variant("{{#if}}", None)])),
        Ok(MergeOutcome::Discarded)
    );
    assert_eq!(
        state.merge(2, mock("c", 1, vec![variant("fine", None)])),
        Ok(MergeOutcome::Inserted)
    );
}

#[test]
fn register_mock_templates_holds_all_or_none() {
    let mut state = AppState::new();
    let mut def = mock("a", 1, vec![variant("x", None), variant("{{y}}", None)]);
    def.id = Some(3);
    assert_eq!(state.register_mock_templates(&def), Ok(()));
    assert!(state.engine().has_template(&body_template_name(3, 0)));
    assert!(state.engine().has_template(&body_template_name(3, 1)));
    let mut broken = mock("b", 1, vec![variant("x", None), variant("{{#a}}", None)]);
    broken.id = Some(4);
    assert_eq!(state.register_mock_templates(&broken), Err(MockError::TemplateSyntaxError));
    assert!(!state.engine().has_template(&body_template_name(4, 0)));
}

#[test]
fn counters() {
    let mut state = AppState::new();
    state.count_request();
    state.count_request();
    assert_eq!(state.request_count(), 2);
    assert!(!state.is_ready());
    state.count_synced_peer();
    assert!(state.is_ready());
    assert_eq!(state.synced_peers(), 1);
}

#[test]
fn an_engine_prepared_by_the_caller_starts_without_templates() {
    let mut registry = handlebars::Handlebars::new();
    registry.register_template_string("left-over", "text").unwrap();
    let engine = TemplateEngine::with_registry(registry);
    assert!(!engine.has_template("left-over"));
    let mut state = AppState::with_engine(engine);
    state.store(1, mock("a", 1, vec![variant("x", None)])).unwrap();
    assert!(state.engine().has_template(&body_template_name(1, 0)));
}
