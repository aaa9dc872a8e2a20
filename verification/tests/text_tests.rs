use omock::text::{
    chars_of, contains_chars, decimal_chars, eq_ignore_case, matches_at, replace_all, same_text,
    string_of,
};

fn contains_text(text: &str, pat: &str) -> bool {
    contains_chars(&chars_of(text), &chars_of(pat))
}

fn replace(text: &str, pat: &str, with: &str) -> String {
    string_of(&replace_all(&chars_of(text), &chars_of(pat), &chars_of(with)))
}

#[test]
fn strings_spread_into_characters_and_back() {
    let s = "héllo, wörld ✓";
    assert_eq!(string_of(&chars_of(s)), s);
    assert_eq!(chars_of("ab"), vec!['a', 'b']);
    assert!(same_text("abc", "abc"));
    assert!(!same_text("abc", "abd"));
    assert!(!same_text("abc", "ab"));
}

#[test]
fn replace_all_agrees_with_the_standard_library() {
    let cases = [
        ("a{{x}}b{{x}}", "{{x}}", "1"),
        ("aaaa", "aa", "b"),
        ("aaa", "aa", "b"),
        ("abc", "d", "e"),
        ("", "a", "b"),
        ("abcabc", "abc", ""),
        ("xyz", "xyz", "xyzxyz"),
        ("ab", "abc", "z"),
    ];
    for (text, pat, with) in cases {
        assert_eq!(replace(text, pat, with), text.replace(pat, with), "{text} {pat} {with}");
    }
}

#[test]
fn an_empty_pattern_replaces_nothing() {
    assert_eq!(replace("abc", "", "x"), "abc");
}

#[test]
fn containment() {
    assert!(contains_text("application/json; charset=utf-8", "application/json"));
    assert!(!contains_text("text/plain", "application/json"));
    assert!(contains_text("abc", ""));
    assert!(contains_text("", ""));
    assert!(!contains_text("", "a"));
    assert!(contains_text("xxab", "ab"));
}

#[test]
fn occurrence_at_a_position() {
    let text = chars_of("abcabc");
    assert!(matches_at(&text, 0, &chars_of("abc")));
    assert!(matches_at(&text, 3, &chars_of("abc")));
    assert!(!matches_at(&text, 1, &chars_of("abc")));
    assert!(!matches_at(&text, 4, &chars_of("abc")));
    assert!(matches_at(&text, 6, &chars_of("")));
    assert!(!matches_at(&text, 7, &chars_of("")));
    assert!(!matches_at(&text, usize::MAX, &chars_of("a")));
}

#[test]
fn comparison_without_regard_to_case() {
    assert!(eq_ignore_case("get", "GET"));
    assert!(eq_ignore_case("PoSt", "pOsT"));
    assert!(!eq_ignore_case("GET", "PUT"));
    assert!(!eq_ignore_case("GET", "GETS"));
    // Only ASCII letters are folded.
    assert!(!eq_ignore_case("é", "É"));
    assert!(!eq_ignore_case("[", "{"));
    assert!(!eq_ignore_case("@", "`"));
}

#[test]
fn decimal_numerals() {
    assert_eq!(string_of(&decimal_chars(0)), "0");
    assert_eq!(string_of(&decimal_chars(7)), "7");
    assert_eq!(string_of(&decimal_chars(10)), "10");
    assert_eq!(string_of(&decimal_chars(1203)), "1203");
    assert_eq!(string_of(&decimal_chars(u128::MAX)), u128::MAX.to_string());
    assert_eq!(string_of(&decimal_chars(u64::MAX as u128)), u64::MAX.to_string());
}
