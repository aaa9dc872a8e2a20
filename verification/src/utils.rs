//! The helpers that templates can call: the current time, a random number,
//! a running number and a random string.

use crate::chance::random_between;
use crate::clock::{current_time, format_instant, formatted_time};
use crate::models::Timestamp;
use crate::context::{json_text, json_u64, value_text, value_u64};
use crate::engine::TemplateEngine;
use crate::text::{chars_of, string_of};
use vstd::prelude::*;

verus! {

/// The helpers, by what they write.
#[derive(Clone, Copy, Debug, PartialEq, Eq, Structural)]
pub enum HelperKind {
    /// The current time, after a pattern.
    CurrentDatetime,
    /// A random number between two bounds.
    RandomNumber,
    /// The next number of the running counter.
    OrderedNumber,
    /// Ten random letters and digits that a pattern accepts.
    RandomString,
}

/// The counter behind the running number: it starts at one and hands out
/// each number once, in order.
#[derive(Debug)]
pub struct OrderedCounter {
    next: usize,
}

impl View for OrderedCounter {
    type V = nat;

    closed spec fn view(&self) -> nat {
        self.next as nat
    }
}

impl OrderedCounter {
    /// A counter whose first number is one.
    pub fn new() -> (r: OrderedCounter)
        ensures
            r@ == 1,
    {
        OrderedCounter { next: 1 }
    }

    /// Hands out the next number. After the largest number that the counter
    /// can hold it starts again at zero.
    pub fn take(&mut self) -> (r: usize)
        ensures
            r == old(self)@,
            final(self)@ == (if old(self)@ == usize::MAX {
                0
            } else {
                old(self)@ + 1
            }),
    {
        let r = self.next;
        if self.next == usize::MAX {
            self.next = 0;
        } else {
            self.next = self.next + 1;
        }
        r
    }
}

/// The running number as a helper writes it: the next number of the
/// counter, as a decimal numeral.
pub fn ordered_number(counter: &mut OrderedCounter) -> (r: String)
    ensures
        r@ == crate::text::decimal(old(counter)@),
        final(counter)@ == (if old(counter)@ == usize::MAX {
            0
        } else {
            old(counter)@ + 1
        }),
{
    let n = counter.take();
    string_of(&crate::text::decimal_chars(n as u128))
}

/// The pattern after which the time is written where the template gives
/// none.
pub open spec fn default_datetime_format() -> Seq<char> {
    "%Y-%m-%d %H:%M:%S"@
}

/// The pattern after which the time is written: the one that the template
/// gives, or the default.
pub fn datetime_format(given: Option<&str>) -> (r: String)
    ensures
        r@ == format_of(given),
{
    match given {
        Some(f) => f.to_string(),
        None => "%Y-%m-%d %H:%M:%S".to_string(),
    }
}

/// The text of a string that may be missing.
pub open spec fn given_view(given: Option<&str>) -> Option<Seq<char>> {
    match given {
        Some(text) => Some(text@),
        None => None,
    }
}

/// The pattern after which the time is written: the one that is given, or
/// the default.
pub open spec fn format_for(given: Option<Seq<char>>) -> Seq<char> {
    match given {
        Some(f) => f,
        None => default_datetime_format(),
    }
}

/// The pattern after which the time is written for what the template
/// gives.
pub open spec fn format_of(given: Option<&str>) -> Seq<char> {
    format_for(given_view(given))
}

/// The view of a text that may be missing.
pub open spec fn text_view(text: Option<String>) -> Option<Seq<char>> {
    match text {
        Some(t) => Some(t@),
        None => None,
    }
}

/// `text` is the pattern `format` written out for some instant, or nothing
/// where the pattern cannot be written out for that instant.
pub open spec fn written_for_some_instant(text: Option<String>, format: Seq<char>) -> bool {
    exists|seconds: i64, nanos: u32|
        text_view(text) == #[trigger] formatted_time(format, seconds, nanos)
}

/// The instant `at`, written after the pattern that the template gives or
/// after the default. Nothing comes back where the pattern cannot be
/// written out for that instant.
pub fn datetime_at(given: Option<&str>, at: Timestamp) -> (r: Option<String>)
    ensures
        text_view(r) == formatted_time(format_of(given), at.seconds, at.nanos),
{
    let format = datetime_format(given);
    format_instant(format.as_str(), at)
}

/// The current time, written after the pattern that the template gives or
/// after the default. Nothing comes back where the clock gives no instant
/// or the pattern cannot be written out. Which instant the clock gives is
/// left open.
pub fn current_datetime(given: Option<&str>) -> (r: Option<String>)
    ensures
        r is Some ==> written_for_some_instant(r, format_of(given)),
{
    match current_time() {
        Some(now) => datetime_at(given, now),
        None => None,
    }
}

/// The bounds of the random number: those that the template gives, with
/// zero for a missing lower and one hundred for a missing upper bound.
pub fn number_bounds(min: Option<u64>, max: Option<u64>) -> (r: (u64, u64))
    ensures
        r.0 == (match min {
            Some(n) => n,
            None => 0,
        }),
        r.1 == (match max {
            Some(n) => n,
            None => 100,
        }),
{
    let low = match min {
        Some(n) => n,
        None => 0,
    };
    let high = match max {
        Some(n) => n,
        None => 100,
    };
    (low, high)
}

/// A random number between the bounds, both included. Nothing comes back
/// where the lower bound lies above the upper one.
pub fn random_number(min: Option<u64>, max: Option<u64>) -> (r: Option<u64>)
    ensures
        r is Some <==> number_bounds_spec(min, max).0 <= number_bounds_spec(min, max).1,
        r is Some ==> number_bounds_spec(min, max).0 <= r.unwrap() <= number_bounds_spec(
            min,
            max,
        ).1,
{
    let (low, high) = number_bounds(min, max);
    if low > high {
        return None;
    }
    let drawn = random_between(low as u128, high as u128);
    Some(drawn as u64)
}

/// The bounds of the random number.
pub open spec fn number_bounds_spec(min: Option<u64>, max: Option<u64>) -> (u64, u64) {
    (
        match min {
            Some(n) => n,
            None => 0,
        },
        match max {
            Some(n) => n,
            None => 100,
        },
    )
}

/// Whether the regular expression `pattern` matches somewhere in `text`;
/// nothing where `pattern` is no regular expression.
pub uninterp spec fn pattern_match(pattern: Seq<char>, text: Seq<char>) -> Option<bool>;

/// `regex::Regex::new` and `Regex::is_match`: whether `pattern` matches
/// somewhere in `text`, which depends on the two texts alone; nothing where
/// the pattern does not compile.
#[verifier::external_body]
pub(crate) fn matches_pattern(pattern: &str, text: &str) -> (r: Option<bool>)
    ensures
        r == pattern_match(pattern@, text@),
{
    regex::Regex::new(pattern).ok().map(|re| re.is_match(text))
}

/// The letters and digits from which the random string is drawn.
pub open spec fn alphabet() -> Seq<char> {
    "ABCDEFGHIJKLMNOPQRSTUVWXYZabcdefghijklmnopqrstuvwxyz0123456789"@
}

/// The pattern of the random string where the template gives none, or one
/// that is no regular expression.
pub open spec fn default_pattern() -> Seq<char> {
    "[a-zA-Z0-9]{10}"@
}

/// The pattern that the random string goes by: the one that is given
/// where it is a regular expression, and else the default.
pub open spec fn pattern_for(given: Option<Seq<char>>) -> Seq<char> {
    match given {
        Some(p) => if pattern_match(p, seq!['A']) is Some {
            p
        } else {
            default_pattern()
        },
        None => default_pattern(),
    }
}

/// The pattern that the random string goes by for what the template gives.
pub open spec fn effective_pattern(given: Option<&str>) -> Seq<char> {
    pattern_for(given_view(given))
}

/// The pattern accepts the character: it matches the text made of that
/// character alone.
pub open spec fn accepts(pattern: Seq<char>, c: char) -> bool {
    pattern_match(pattern, seq![c]) == Some(true)
}

/// The characters among the first `n` of `from` that the pattern accepts.
pub open spec fn accepted(pattern: Seq<char>, from: Seq<char>, n: int) -> Seq<char>
    decreases n,
{
    if n <= 0 {
        Seq::empty()
    } else if accepts(pattern, from[n - 1]) {
        accepted(pattern, from, n - 1).push(from[n - 1])
    } else {
        accepted(pattern, from, n - 1)
    }
}

/// The characters of `from` that the pattern accepts.
pub fn accepted_chars(pattern: &str, from: &Vec<char>) -> (r: Vec<char>)
    ensures
        r@ == accepted(pattern@, from@, from.len() as int),
{
    let mut out: Vec<char> = Vec::new();
    let mut i: usize = 0;
    while i < from.len()
        invariant
            i <= from.len(),
            out@ == accepted(pattern@, from@, i as int),
        decreases from.len() - i,
    {
        let mut one: Vec<char> = Vec::new();
        one.push(from[i]);
        assert(one@ =~= seq![from@[i as int]]);
        let single = string_of(&one);
        match matches_pattern(pattern, single.as_str()) {
            Some(true) => {
                out.push(from[i]);
            },
            _ => {},
        }
        i += 1;
    }
    out
}

/// Draws `count` characters from `pool`, each with the same chance.
pub fn draw_chars(pool: &Vec<char>, count: usize) -> (r: Vec<char>)
    requires
        pool.len() > 0,
    ensures
        r.len() == count,
        forall|i: int| 0 <= i < r.len() ==> pool@.contains(#[trigger] r@[i]),
{
    let mut out: Vec<char> = Vec::new();
    let mut i: usize = 0;
    while i < count
        invariant
            i <= count,
            pool.len() > 0,
            out.len() == i,
            forall|k: int| 0 <= k < out.len() ==> pool@.contains(#[trigger] out@[k]),
        decreases count - i,
    {
        let at = random_between(0, (pool.len() - 1) as u128) as usize;
        out.push(pool[at]);
        i += 1;
    }
    out
}

/// The characters from which the random string for a pattern is drawn:
/// the letters and digits that the pattern accepts, or all letters and
/// digits where it accepts none.
pub open spec fn pool_of(pattern: Seq<char>) -> Seq<char> {
    let chosen = accepted(pattern, alphabet(), alphabet().len() as int);
    if chosen.len() > 0 {
        chosen
    } else {
        alphabet()
    }
}

/// What the pattern accepts of a list is in the list.
pub proof fn accepted_is_within(pattern: Seq<char>, from: Seq<char>, n: int, c: char)
    requires
        0 <= n <= from.len(),
        accepted(pattern, from, n).contains(c),
    ensures
        from.contains(c),
    decreases n,
{
    if n > 0 {
        let before = accepted(pattern, from, n - 1);
        if accepts(pattern, from[n - 1]) {
            let all = before.push(from[n - 1]);
            let i = choose|i: int| 0 <= i < all.len() && all[i] == c;
            if i < before.len() {
                assert(before[i] == c);
                accepted_is_within(pattern, from, n - 1, c);
            } else {
                assert(from[n - 1] == c);
            }
        } else {
            accepted_is_within(pattern, from, n - 1, c);
        }
    }
}

/// A random string of ten letters and digits. Each of them is one that the
/// pattern accepts when it stands alone; where the pattern accepts no
/// letter or digit alone, as one that asks for several characters in a row,
/// each is any letter or digit. The pattern is the one that the template
/// gives, or `[a-zA-Z0-9]{10}` where it gives none or one that is no regular
/// expression.
pub fn random_string(given: Option<&str>) -> (r: String)
    ensures
        r@.len() == 10,
        forall|i: int| 0 <= i < 10 ==> pool_of(effective_pattern(given)).contains(#[trigger] r@[i]),
        forall|i: int| 0 <= i < 10 ==> alphabet().contains(#[trigger] r@[i]),
{
    let pattern = match given {
        Some(p) => {
            let mut probe: Vec<char> = Vec::new();
            probe.push('A');
            assert(probe@ =~= seq!['A']);
            match matches_pattern(p, string_of(&probe).as_str()) {
                Some(_) => p.to_string(),
                None => "[a-zA-Z0-9]{10}".to_string(),
            }
        },
        None => "[a-zA-Z0-9]{10}".to_string(),
    };
    let letters = chars_of("ABCDEFGHIJKLMNOPQRSTUVWXYZabcdefghijklmnopqrstuvwxyz0123456789");
    proof {
        reveal_strlit("ABCDEFGHIJKLMNOPQRSTUVWXYZabcdefghijklmnopqrstuvwxyz0123456789");
    }
    let chosen = accepted_chars(pattern.as_str(), &letters);
    let drawn = if chosen.len() == 0 {
        draw_chars(&letters, 10)
    } else {
        draw_chars(&chosen, 10)
    };
    proof {
        assert forall|i: int| 0 <= i < 10 implies alphabet().contains(#[trigger] drawn@[i]) by {
            if chosen.len() > 0 {
                accepted_is_within(pattern@, letters@, letters.len() as int, drawn@[i]);
            }
        }
    }
    string_of(&drawn)
}

/// The whole number that a parameter gives, where it is there and is one.
pub open spec fn given_number(parameter: Option<&serde_json::Value>) -> Option<u64> {
    match parameter {
        Some(v) => json_u64(*v),
        None => None,
    }
}

/// The text that a parameter gives, where it is there and is a string.
pub open spec fn given_text(parameter: Option<&serde_json::Value>) -> Option<Seq<char>> {
    match parameter {
        Some(v) => json_text(*v),
        None => None,
    }
}

/// `text` is the decimal numeral of some number from `low` to `high`.
pub open spec fn numeral_between(text: Seq<char>, low: u64, high: u64) -> bool {
    exists|n: u64| low <= n <= high && text == #[trigger] crate::text::decimal(n as nat)
}

/// What a helper writes for the parameters that the template gives it, or
/// nothing where it cannot write.
///
/// The time helper writes the current time after the pattern that its first
/// parameter gives as a string, or after the default; it writes nothing
/// where the clock gives no instant or the pattern cannot be written out.
/// The random number is written as a decimal numeral; its bounds are the
/// whole numbers that the first two parameters give, with zero and one
/// hundred for those that are missing, and it is not written where the
/// lower bound lies above the upper one. The running number is the next of
/// the counter. The random string goes by the pattern that the first
/// parameter gives as a string.
pub fn helper_output(
    kind: HelperKind,
    counter: &mut OrderedCounter,
    first: Option<&serde_json::Value>,
    second: Option<&serde_json::Value>,
) -> (r: Option<String>)
    ensures
        kind != HelperKind::OrderedNumber ==> final(counter)@ == old(counter)@,
        kind == HelperKind::OrderedNumber ==> r is Some && r.unwrap()@ == crate::text::decimal(
            old(counter)@,
        ) && final(counter)@ == (if old(counter)@ == usize::MAX {
            0
        } else {
            old(counter)@ + 1
        }),
        kind == HelperKind::CurrentDatetime && r is Some ==> written_for_some_instant(
            r,
            format_for(given_text(first)),
        ),
        kind == HelperKind::RandomString ==> r is Some && r.unwrap()@.len() == 10 && forall|i: int|
            0 <= i < 10 ==> pool_of(pattern_for(given_text(first))).contains(
                #[trigger] r.unwrap()@[i],
            ),
        kind == HelperKind::RandomNumber ==> (r is Some <==> number_bounds_spec(
            given_number(first),
            given_number(second),
        ).0 <= number_bounds_spec(given_number(first), given_number(second)).1),
        kind == HelperKind::RandomNumber && r is Some ==> numeral_between(
            r.unwrap()@,
            number_bounds_spec(given_number(first), given_number(second)).0,
            number_bounds_spec(given_number(first), given_number(second)).1,
        ),
{
    match kind {
        HelperKind::CurrentDatetime => {
            let given = match first {
                Some(v) => value_text(v),
                None => None,
            };
            match &given {
                Some(f) => current_datetime(Some(f.as_str())),
                None => current_datetime(None),
            }
        },
        HelperKind::RandomNumber => {
            let min = match first {
                Some(v) => value_u64(v),
                None => None,
            };
            let max = match second {
                Some(v) => value_u64(v),
                None => None,
            };
            match random_number(min, max) {
                Some(n) => {
                    let text = string_of(&crate::text::decimal_chars(n as u128));
                    assert(text@ == crate::text::decimal(n as nat));
                    Some(text)
                },
                None => None,
            }
        },
        HelperKind::OrderedNumber => Some(ordered_number(counter)),
        HelperKind::RandomString => {
            let given = match first {
                Some(v) => value_text(v),
                None => None,
            };
            match &given {
                Some(p) => Some(random_string(Some(p.as_str()))),
                None => Some(random_string(None)),
            }
        },
    }
}

/// The helpers `helpers` with the four helpers of this library added, each
/// under its name, in place of what ran under that name.
pub open spec fn with_own_helpers(helpers: Map<Seq<char>, HelperKind>) -> Map<
    Seq<char>,
    HelperKind,
> {
    helpers.insert("current_datetime"@, HelperKind::CurrentDatetime).insert(
        "random_number"@,
        HelperKind::RandomNumber,
    ).insert("ordered_number"@, HelperKind::OrderedNumber).insert(
        "random_string"@,
        HelperKind::RandomString,
    )
}

/// The four helpers of this library, each under its name.
pub open spec fn own_helpers() -> Map<Seq<char>, HelperKind> {
    with_own_helpers(Map::empty())
}

/// Makes the engine run the four helpers of this library, each under its
/// name: `current_datetime`, `random_number`, `ordered_number` and
/// `random_string`. The running number starts at one. The templates of the
/// engine stay as they are, and so do its other helpers.
pub fn register_helpers(engine: &mut TemplateEngine)
    ensures
        final(engine)@ == old(engine)@,
        final(engine).helpers() == with_own_helpers(old(engine).helpers()),
{
    engine.add_helper("current_datetime", HelperKind::CurrentDatetime, OrderedCounter::new());
    engine.add_helper("random_number", HelperKind::RandomNumber, OrderedCounter::new());
    engine.add_helper("ordered_number", HelperKind::OrderedNumber, OrderedCounter::new());
    engine.add_helper("random_string", HelperKind::RandomString, OrderedCounter::new());
}

} // verus!
