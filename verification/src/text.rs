//! Text handling on sequences of characters: searching, replacing, case-blind
//! comparison and decimal numbers.
//!
//! Strings are opaque to the verifier apart from their view, a `Seq<char>`.
//! Every routine here first spreads a string into a `Vec<char>`, works on
//! that, and states its result over the views.

use vstd::prelude::*;

verus! {

/// `String::push` appends one character.
pub assume_specification[ String::push ](s: &mut String, c: char)
    ensures
        final(s)@ == old(s)@.push(c),
;

/// The characters of `s`, in order.
pub fn chars_of(s: &str) -> (r: Vec<char>)
    ensures
        r@ == s@,
{
    let mut out: Vec<char> = Vec::new();
    for c in it: s.chars()
        invariant
            out@ == it.seq().take(it.index()),
            it.seq() == s@,
    {
        out.push(c);
    }
    out
}

/// The string made of `chars`, in order.
pub fn string_of(chars: &Vec<char>) -> (r: String)
    ensures
        r@ == chars@,
{
    let mut out = String::new();
    let mut i: usize = 0;
    while i < chars.len()
        invariant
            i <= chars.len(),
            out@ == chars@.take(i as int),
        decreases chars.len() - i,
    {
        out.push(chars[i]);
        i += 1;
    }
    out
}

/// Appends all of `tail` to `out`.
pub fn append_chars(out: &mut Vec<char>, tail: &Vec<char>)
    ensures
        final(out)@ == old(out)@ + tail@,
{
    let mut i: usize = 0;
    while i < tail.len()
        invariant
            i <= tail.len(),
            out@ == old(out)@ + tail@.take(i as int),
        decreases tail.len() - i,
    {
        out.push(tail[i]);
        i += 1;
    }
    assert(tail@.take(tail.len() as int) == tail@);
}

/// Whether two strings hold the same characters.
pub fn same_text(a: &str, b: &str) -> (r: bool)
    ensures
        r == (a@ == b@),
{
    let x = chars_of(a);
    let y = chars_of(b);
    if x.len() != y.len() {
        return false;
    }
    let mut i: usize = 0;
    while i < x.len()
        invariant
            i <= x.len(),
            x.len() == y.len(),
            x@ == a@,
            y@ == b@,
            forall|k: int| 0 <= k < i ==> x@[k] == y@[k],
        decreases x.len() - i,
    {
        if x[i] != y[i] {
            return false;
        }
        i += 1;
    }
    assert(x@ =~= y@);
    true
}

/// `pat` occurs in `text` starting at position `at`.
pub open spec fn occurs_at(text: Seq<char>, at: int, pat: Seq<char>) -> bool {
    &&& 0 <= at
    &&& at + pat.len() <= text.len()
    &&& text.subrange(at, at + pat.len()) == pat
}

/// `pat` occurs somewhere in `text`.
pub open spec fn occurs_in(text: Seq<char>, pat: Seq<char>) -> bool {
    exists|at: int| occurs_at(text, at, pat)
}

/// Tests whether `pat` occurs in `text` at position `at`.
pub fn matches_at(text: &Vec<char>, at: usize, pat: &Vec<char>) -> (r: bool)
    ensures
        r == occurs_at(text@, at as int, pat@),
{
    if at > text.len() || pat.len() > text.len() - at {
        return false;
    }
    let mut k: usize = 0;
    while k < pat.len()
        invariant
            k <= pat.len(),
            at + pat.len() <= text.len(),
            forall|j: int| 0 <= j < k ==> text@[at + j] == pat@[j],
        decreases pat.len() - k,
    {
        if text[at + k] != pat[k] {
            assert(text@.subrange(at as int, at + pat.len())[k as int] == text@[at + k]);
            return false;
        }
        k += 1;
    }
    assert(text@.subrange(at as int, at + pat.len()) =~= pat@);
    true
}

/// Tests whether `pat` occurs anywhere in `text`. The empty pattern occurs in
/// every text.
pub fn contains_chars(text: &Vec<char>, pat: &Vec<char>) -> (r: bool)
    ensures
        r == occurs_in(text@, pat@),
{
    let mut at: usize = 0;
    while at < text.len()
        invariant
            at <= text.len(),
            forall|j: int| 0 <= j < at ==> !occurs_at(text@, j, pat@),
        decreases text.len() - at,
    {
        if matches_at(text, at, pat) {
            return true;
        }
        at += 1;
    }
    if matches_at(text, at, pat) {
        return true;
    }
    assert forall|j: int| !occurs_at(text@, j, pat@) by {
        if occurs_at(text@, j, pat@) {
            assert(j <= text.len());
        }
    }
    false
}

/// `text` with every occurrence of `pat` replaced by `with`, scanning from
/// the left and resuming after each replaced occurrence. An empty `pat`
/// replaces nothing.
pub open spec fn replaced(text: Seq<char>, pat: Seq<char>, with: Seq<char>) -> Seq<char>
    decreases text.len(),
{
    if pat.len() == 0 || text.len() < pat.len() {
        text
    } else if text.subrange(0, pat.len() as int) == pat {
        with + replaced(text.skip(pat.len() as int), pat, with)
    } else {
        seq![text[0]] + replaced(text.skip(1), pat, with)
    }
}

/// A text in which the pattern does not occur is left as it is.
pub proof fn replaced_without_occurrence(text: Seq<char>, pat: Seq<char>, with: Seq<char>)
    requires
        !occurs_in(text, pat),
    ensures
        replaced(text, pat, with) == text,
    decreases text.len(),
{
    if pat.len() > 0 && text.len() >= pat.len() {
        assert(!occurs_at(text, 0, pat));
        let rest = text.skip(1);
        assert forall|at: int| !occurs_at(rest, at, pat) by {
            if occurs_at(rest, at, pat) {
                assert(rest.subrange(at, at + pat.len()) =~= text.subrange(
                    at + 1,
                    at + 1 + pat.len(),
                ));
                assert(occurs_at(text, at + 1, pat));
            }
        }
        replaced_without_occurrence(rest, pat, with);
        assert(seq![text[0]] + rest =~= text);
    }
}

/// Replaces every occurrence of `pat` in `text` by `with`.
pub fn replace_all(text: &Vec<char>, pat: &Vec<char>, with: &Vec<char>) -> (r: Vec<char>)
    ensures
        r@ == replaced(text@, pat@, with@),
{
    let mut out: Vec<char> = Vec::new();
    if pat.len() == 0 {
        append_chars(&mut out, text);
        return out;
    }
    let mut i: usize = 0;
    assert(text@.skip(0) =~= text@);
    assert(out@ + replaced(text@, pat@, with@) =~= replaced(text@, pat@, with@));
    while i < text.len()
        invariant
            i <= text.len(),
            pat.len() > 0,
            out@ + replaced(text@.skip(i as int), pat@, with@) == replaced(text@, pat@, with@),
        decreases text.len() - i,
    {
        let ghost rest = text@.skip(i as int);
        let ghost before = out@;
        if matches_at(text, i, pat) {
            proof {
                assert(rest.subrange(0, pat.len() as int) =~= text@.subrange(
                    i as int,
                    i + pat.len(),
                ));
                assert(rest.skip(pat.len() as int) =~= text@.skip(i + pat.len()));
            }
            append_chars(&mut out, with);
            i += pat.len();
            assert(out@ + replaced(text@.skip(i as int), pat@, with@) =~= before + replaced(
                rest,
                pat@,
                with@,
            ));
        } else {
            proof {
                if rest.len() >= pat.len() {
                    assert(rest.subrange(0, pat.len() as int) =~= text@.subrange(
                        i as int,
                        i + pat.len(),
                    ));
                }
                assert(rest.skip(1) =~= text@.skip(i + 1));
                assert(rest[0] == text@[i as int]);
            }
            if text.len() - i < pat.len() {
                // What is left is shorter than the pattern: it is copied as it is.
                let mut k: usize = i;
                while k < text.len()
                    invariant
                        i <= k <= text.len(),
                        out@ == before + text@.subrange(i as int, k as int),
                    decreases text.len() - k,
                {
                    out.push(text[k]);
                    k += 1;
                }
                assert(text@.subrange(i as int, text.len() as int) =~= rest);
                i = text.len();
                assert(text@.skip(i as int) =~= Seq::<char>::empty());
                assert(out@ + replaced(text@.skip(i as int), pat@, with@) =~= before + rest);
            } else {
                out.push(text[i]);
                i += 1;
                assert(out@ + replaced(text@.skip(i as int), pat@, with@) =~= before + replaced(
                    rest,
                    pat@,
                    with@,
                ));
            }
        }
    }
    assert(text@.skip(text.len() as int) =~= Seq::<char>::empty());
    assert(out@ + Seq::<char>::empty() =~= out@);
    out
}

/// The lower-case form of an ASCII capital letter; any other character is
/// returned unchanged.
pub open spec fn lower(c: char) -> char {
    if 'A' <= c && c <= 'Z' {
        ((c as u8) + 32) as char
    } else {
        c
    }
}

/// Two texts are equal when ASCII letters are compared without regard to case.
pub open spec fn same_ignoring_case(a: Seq<char>, b: Seq<char>) -> bool {
    &&& a.len() == b.len()
    &&& forall|i: int| 0 <= i < a.len() ==> lower(a[i]) == lower(b[i])
}

/// Lower-cases one ASCII capital letter.
pub fn to_lower(c: char) -> (r: char)
    ensures
        r == lower(c),
{
    if 'A' <= c && c <= 'Z' {
        ((c as u8) + 32) as char
    } else {
        c
    }
}

/// Compares two strings without regard to the case of ASCII letters.
pub fn eq_ignore_case(a: &str, b: &str) -> (r: bool)
    ensures
        r == same_ignoring_case(a@, b@),
{
    let x = chars_of(a);
    let y = chars_of(b);
    if x.len() != y.len() {
        return false;
    }
    let mut i: usize = 0;
    while i < x.len()
        invariant
            i <= x.len(),
            x.len() == y.len(),
            x@ == a@,
            y@ == b@,
            forall|k: int| 0 <= k < i ==> lower(x@[k]) == lower(y@[k]),
        decreases x.len() - i,
    {
        if to_lower(x[i]) != to_lower(y[i]) {
            return false;
        }
        i += 1;
    }
    true
}

/// The character of one decimal digit.
pub open spec fn digit_char(d: nat) -> char
    recommends
        d < 10,
{
    ((48 + d) as u8) as char
}

/// The decimal numeral of `n`, without leading zeros.
pub open spec fn decimal(n: nat) -> Seq<char>
    decreases n,
{
    if n < 10 {
        seq![digit_char(n)]
    } else {
        decimal(n / 10).push(digit_char(n % 10))
    }
}

/// A numeral has a digit, and two of them from ten on.
pub proof fn decimal_len(n: nat)
    ensures
        decimal(n).len() >= 1,
        n >= 10 ==> decimal(n).len() >= 2,
    decreases n,
{
    if n >= 10 {
        decimal_len(n / 10);
    }
}

/// Two different numbers have two different numerals.
pub proof fn decimal_injective(a: nat, b: nat)
    requires
        decimal(a) == decimal(b),
    ensures
        a == b,
    decreases a,
{
    decimal_len(a);
    decimal_len(b);
    if a < 10 && b < 10 {
        assert(decimal(a)[0] == digit_char(a));
        assert(decimal(b)[0] == digit_char(b));
        assert(digit_char(a) as u32 == digit_char(b) as u32);
    } else if a >= 10 && b >= 10 {
        let x = decimal(a / 10).push(digit_char(a % 10));
        let y = decimal(b / 10).push(digit_char(b % 10));
        assert(x.last() == y.last());
        assert(digit_char(a % 10) as u32 == digit_char(b % 10) as u32);
        assert(x.drop_last() =~= decimal(a / 10));
        assert(y.drop_last() =~= decimal(b / 10));
        decimal_injective(a / 10, b / 10);
    }
}

/// A numeral is made of digits only.
pub proof fn decimal_is_digits(n: nat, i: int)
    requires
        0 <= i < decimal(n).len(),
    ensures
        '0' <= decimal(n)[i] <= '9',
    decreases n,
{
    if n >= 10 {
        if i < decimal(n / 10).len() {
            decimal_is_digits(n / 10, i);
        }
    }
}

/// Writes `n` as a decimal numeral.
pub fn decimal_chars(n: u128) -> (r: Vec<char>)
    ensures
        r@ == decimal(n as nat),
{
    // Digits are produced from the least significant one, then reversed.
    let mut rev: Vec<char> = Vec::new();
    let mut m: u128 = n;
    while m >= 10
        invariant
            decimal(n as nat) == decimal(m as nat) + rev@.reverse(),
        decreases m,
    {
        let d: u8 = (m % 10) as u8;
        let ghost before = rev@;
        rev.push((48 + d) as char);
        assert(rev@.reverse() =~= seq![digit_char((m % 10) as nat)] + before.reverse());
        assert(decimal(m as nat) == decimal((m / 10) as nat).push(digit_char((m % 10) as nat)));
        assert(decimal(m as nat) + before.reverse() =~= decimal((m / 10) as nat) + rev@.reverse());
        m = m / 10;
    }
    let d: u8 = m as u8;
    let mut out: Vec<char> = Vec::new();
    out.push((48 + d) as char);
    assert(out@ =~= decimal(m as nat));
    let mut k: usize = rev.len();
    while k > 0
        invariant
            k <= rev.len(),
            out@ == decimal(m as nat) + rev@.reverse().take(rev.len() - k),
        decreases k,
    {
        k -= 1;
        out.push(rev[k]);
        assert(rev@.reverse()[rev.len() - 1 - k] == rev@[k as int]);
        assert(rev@.reverse().take(rev.len() - k) =~= rev@.reverse().take(rev.len() - 1 - k).push(
            rev@[k as int],
        ));
    }
    assert(rev@.reverse().take(rev.len() as int) =~= rev@.reverse());
    out
}

} // verus!
