use omock::models::Timestamp;
use omock::utils::{
    accepted_chars, current_datetime, datetime_at, datetime_format, draw_chars, helper_output,
    number_bounds, ordered_number, random_number, random_string, HelperKind, OrderedCounter,
};

#[test]
fn the_counter_starts_at_one_and_counts_up() {
    let mut counter = OrderedCounter::new();
    assert_eq!(counter.take(), 1);
    assert_eq!(counter.take(), 2);
    assert_eq!(counter.take(), 3);
    assert_eq!(ordered_number(&mut counter), "4");
    assert_eq!(ordered_number(&mut counter), "5");
}

#[test]
fn the_time_pattern_defaults() {
    assert_eq!(datetime_format(None), "%Y-%m-%d %H:%M:%S");
    assert_eq!(datetime_format(Some("%H")), "%H");
    assert_eq!(current_datetime(Some("literal")), Some(String::from("literal")));
    assert_eq!(current_datetime(Some("%Q")), None);
    assert_eq!(current_datetime(None).unwrap().len(), 19);
}

#[test]
fn an_instant_is_written_after_the_pattern() {
    let epoch = Timestamp { seconds: 0, nanos: 0 };
    assert_eq!(datetime_at(None, epoch), Some(String::from("1970-01-01 00:00:00")));
    let later = Timestamp { seconds: 1_700_000_000, nanos: 123_000_000 };
    assert_eq!(datetime_at(None, later), Some(String::from("2023-11-14 22:13:20")));
    assert_eq!(
        datetime_at(Some("%Y/%m/%d %H:%M:%S%.3f"), later),
        Some(String::from("2023/11/14 22:13:20.123"))
    );
    assert_eq!(datetime_at(Some("%s"), later), Some(String::from("1700000000")));
    assert_eq!(datetime_at(Some("no pattern"), later), Some(String::from("no pattern")));
    assert_eq!(datetime_at(Some(""), later), Some(String::new()));
    let before = Timestamp { seconds: -1, nanos: 0 };
    assert_eq!(datetime_at(None, before), Some(String::from("1969-12-31 23:59:59")));
    // A pattern that cannot be written out gives nothing.
    assert_eq!(datetime_at(Some("%Q"), later), None);
    // Nor does an instant that the calendar does not hold.
    assert_eq!(datetime_at(None, Timestamp { seconds: i64::MAX, nanos: 0 }), None);
    assert_eq!(datetime_at(None, Timestamp { seconds: 0, nanos: u32::MAX }), None);
}

#[test]
fn the_current_time_is_the_pattern_written_for_the_clock() {
    let year: i32 = current_datetime(Some("%Y")).unwrap().parse().unwrap();
    assert!(year >= 2024);
    let seconds: i64 = current_datetime(Some("%s")).unwrap().parse().unwrap();
    let again: i64 = current_datetime(Some("%s")).unwrap().parse().unwrap();
    assert!(seconds > 1_700_000_000 && again >= seconds);
}

#[test]
fn the_bounds_default_to_zero_and_one_hundred() {
    assert_eq!(number_bounds(None, None), (0, 100));
    assert_eq!(number_bounds(Some(5), None), (5, 100));
    assert_eq!(number_bounds(None, Some(7)), (0, 7));
    assert_eq!(number_bounds(Some(9), Some(3)), (9, 3));
}

#[test]
fn random_numbers_lie_between_the_bounds() {
    for _ in 0..500 {
        let n = random_number(Some(10), Some(12)).unwrap();
        assert!((10..=12).contains(&n));
        assert!(random_number(None, None).unwrap() <= 100);
    }
    assert_eq!(random_number(Some(4), Some(4)), Some(4));
    assert_eq!(random_number(Some(u64::MAX), Some(u64::MAX)), Some(u64::MAX));
    assert_eq!(random_number(Some(5), Some(4)), None);
    assert_eq!(random_number(Some(101), None), None);
    let mut seen = [false; 3];
    for _ in 0..500 {
        seen[(random_number(Some(0), Some(2)).unwrap()) as usize] = true;
    }
    assert_eq!(seen, [true, true, true]);
}

#[test]
fn the_pattern_says_which_characters_are_accepted() {
    let letters: Vec<char> = "aZ09_-b".chars().collect();
    assert_eq!(accepted_chars("[a-z]", &letters), vec!['a', 'b']);
    assert_eq!(accepted_chars("[0-9A-Z]", &letters), vec!['Z', '0', '9']);
    assert_eq!(accepted_chars("", &letters), letters);
    assert!(accepted_chars("[a-z]{2}", &letters).is_empty());
    // A pattern that is no regular expression accepts nothing.
    assert!(accepted_chars("[a-", &letters).is_empty());
}

#[test]
fn characters_are_drawn_from_the_pool() {
    let pool = vec!['x', 'y'];
    let drawn = draw_chars(&pool, 40);
    assert_eq!(drawn.len(), 40);
    assert!(drawn.iter().all(|c| pool.contains(c)));
    assert!(drawn.contains(&'x') && drawn.contains(&'y'));
    assert!(draw_chars(&pool, 0).is_empty());
    assert_eq!(draw_chars(&vec!['q'], 3), vec!['q', 'q', 'q']);
}

#[test]
fn random_strings_go_by_the_pattern() {
    for _ in 0..50 {
        let s = random_string(Some("[a-f]"));
        assert_eq!(s.len(), 10);
        assert!(s.chars().all(|c| ('a'..='f').contains(&c)));
    }
    let s = random_string(Some("\\w"));
    assert_eq!(s.len(), 10);
    assert!(s.chars().all(|c| c.is_ascii_alphanumeric()));
    // Where the pattern accepts no single letter or digit, any letter or
    // digit is drawn: so for a pattern that asks for several in a row, for
    // an absent pattern, and for one that is no regular expression.
    for given in [Some("[!?]"), Some("[a-z]{5}"), Some("[a-zA-Z0-9]{10}"), None, Some("[a-")] {
        for _ in 0..20 {
            let s = random_string(given);
            assert_eq!(s.len(), 10, "{given:?}");
            assert!(s.chars().all(|c| c.is_ascii_alphanumeric()), "{given:?} gave {s}");
        }
    }
    // All letters and digits can come.
    let mut seen = std::collections::BTreeSet::new();
    for _ in 0..400 {
        seen.extend(random_string(None).chars());
    }
    assert_eq!(seen.len(), 62);
}

#[test]
fn helpers_write_what_their_parameters_ask_for() {
    let mut counter = OrderedCounter::new();
    let five = serde_json::Value::from(5);
    let nine = serde_json::Value::from(9);
    let text = serde_json::Value::from("[0-3]");
    assert_eq!(
        helper_output(HelperKind::OrderedNumber, &mut counter, None, None),
        Some(String::from("1"))
    );
    assert_eq!(
        helper_output(HelperKind::OrderedNumber, &mut counter, Some(&five), None),
        Some(String::from("2"))
    );
    let n: u64 = helper_output(HelperKind::RandomNumber, &mut counter, Some(&five), Some(&nine))
        .unwrap()
        .parse()
        .unwrap();
    assert!((5..=9).contains(&n));
    assert_eq!(helper_output(HelperKind::RandomNumber, &mut counter, Some(&nine), Some(&five)), None);
    // A bound that is no whole number counts as missing.
    let n: u64 = helper_output(HelperKind::RandomNumber, &mut counter, Some(&text), Some(&text))
        .unwrap()
        .parse()
        .unwrap();
    assert!(n <= 100);
    let s = helper_output(HelperKind::RandomString, &mut counter, Some(&text), None).unwrap();
    assert_eq!(s.len(), 10);
    assert!(s.chars().all(|c| ('0'..='3').contains(&c)));
    let fixed = serde_json::Value::from("fixed");
    assert_eq!(
        helper_output(HelperKind::CurrentDatetime, &mut counter, Some(&fixed), None),
        Some(String::from("fixed"))
    );
    // The other helpers leave the counter alone.
    assert_eq!(counter.take(), 3);
}
