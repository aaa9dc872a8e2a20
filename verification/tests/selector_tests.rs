use omock::condition::passing_variants;
use omock::context::build_context;
use omock::errors::MockError;
use omock::models::ResponseVariant;
use omock::selector::{choose_at_random, choose_by_draw, passing_weight, select_response_variant};

fn variant(weight: u32, condition: Option<&str>) -> ResponseVariant {
    ResponseVariant {
        response: String::from("ok"),
        weight,
        status: 200,
        response_headers: None,
        condition: condition.map(String::from),
        delay: None,
    }
}

fn context(query: &[(&str, &str)]) -> serde_json::Map<String, serde_json::Value> {
    let pairs: Vec<(String, String)> =
        query.iter().map(|(k, v)| (k.to_string(), v.to_string())).collect();
    build_context("greet", &Vec::new(), &pairs, &Vec::new())
}

#[test]
fn draw_walks_cumulative_weights() {
    let variants = vec![variant(1, None), variant(3, None)];
    let passes = vec![true, true];
    assert_eq!(passing_weight(&variants, &passes), 4);
    assert_eq!(choose_by_draw(&variants, &passes, 0), Some(0));
    assert_eq!(choose_by_draw(&variants, &passes, 1), Some(1));
    assert_eq!(choose_by_draw(&variants, &passes, 3), Some(1));
    assert_eq!(choose_by_draw(&variants, &passes, 4), None);
}

#[test]
fn draw_skips_variants_that_did_not_pass() {
    let variants = vec![variant(5, None), variant(2, None), variant(7, None)];
    let passes = vec![false, true, true];
    assert_eq!(passing_weight(&variants, &passes), 9);
    assert_eq!(choose_by_draw(&variants, &passes, 0), Some(1));
    assert_eq!(choose_by_draw(&variants, &passes, 1), Some(1));
    assert_eq!(choose_by_draw(&variants, &passes, 2), Some(2));
    assert_eq!(choose_by_draw(&variants, &passes, 8), Some(2));
    assert_eq!(choose_by_draw(&variants, &passes, 9), None);
}

#[test]
fn draw_skips_variants_without_weight() {
    let variants = vec![variant(0, None), variant(1, None), variant(0, None)];
    let passes = vec![true, true, true];
    assert_eq!(choose_by_draw(&variants, &passes, 0), Some(1));
}

#[test]
fn every_draw_below_the_total_selects_in_proportion() {
    let variants = vec![variant(2, None), variant(0, None), variant(5, None)];
    let passes = vec![true, true, true];
    let total = passing_weight(&variants, &passes);
    let mut counts = [0u32; 3];
    for draw in 0..total {
        let picked = choose_by_draw(&variants, &passes, draw).unwrap();
        counts[picked] += 1;
    }
    assert_eq!(counts, [2, 0, 5]);
}

#[test]
fn weights_beyond_32_bits_add_up() {
    let variants = vec![variant(u32::MAX, None), variant(u32::MAX, None), variant(2, None)];
    let passes = vec![true, true, true];
    let total = passing_weight(&variants, &passes);
    assert_eq!(total, 2 * (u32::MAX as u128) + 2);
    assert_eq!(choose_by_draw(&variants, &passes, total - 1), Some(2));
    assert_eq!(choose_by_draw(&variants, &passes, u32::MAX as u128), Some(1));
}

#[test]
fn nothing_is_selected_from_no_variants() {
    let variants: Vec<ResponseVariant> = Vec::new();
    assert_eq!(choose_at_random(&variants, &Vec::new()), None);
    assert_eq!(
        select_response_variant(&variants, &context(&[])),
        Err(MockError::NoMatchingVariant)
    );
}

#[test]
fn nothing_is_selected_where_the_weights_sum_to_zero() {
    let variants = vec![variant(0, None), variant(0, None)];
    assert_eq!(
        select_response_variant(&variants, &context(&[])),
        Err(MockError::NoMatchingVariant)
    );
}

#[test]
fn weighted_selection_distribution() {
    let variants = vec![variant(1, None), variant(3, None)];
    let ctx = context(&[]);
    let mut counts = [0u32; 2];
    for _ in 0..10_000 {
        let picked = select_response_variant(&variants, &ctx).unwrap();
        counts[picked] += 1;
    }
    // One in four draws is expected for the first variant: 2500 of 10000.
    assert!(counts[0] > 2000 && counts[0] < 3000, "first variant drawn {} times", counts[0]);
    assert_eq!(counts[0] + counts[1], 10_000);
}

#[test]
fn condition_filtering() {
    // The condition names a field that the request does not bring: the
    // placeholder stays in the expression, which then does not evaluate.
    let variants = vec![variant(5, Some("{{missing}} + 1")), variant(1, None)];
    let ctx = context(&[("present", "1")]);
    assert_eq!(passing_variants(&variants, &ctx), vec![false, true]);
    for _ in 0..50 {
        assert_eq!(select_response_variant(&variants, &ctx), Ok(1));
    }
}

#[test]
fn condition_decides_who_takes_part() {
    let variants = vec![variant(1, Some("{{vip}}")), variant(1, Some("1 - {{vip}}"))];
    let yes = context(&[("vip", "1")]);
    let no = context(&[("vip", "0")]);
    assert_eq!(passing_variants(&variants, &yes), vec![true, false]);
    assert_eq!(passing_variants(&variants, &no), vec![false, true]);
    assert_eq!(select_response_variant(&variants, &yes), Ok(0));
    assert_eq!(select_response_variant(&variants, &no), Ok(1));
}

#[test]
fn all_variants_filtered_out_fails_the_selection() {
    let variants = vec![variant(1, Some("0")), variant(1, Some("{{absent}}"))];
    assert_eq!(
        select_response_variant(&variants, &context(&[])),
        Err(MockError::NoMatchingVariant)
    );
}
