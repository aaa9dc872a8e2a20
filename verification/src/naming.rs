//! The names under which the templates of a definition are compiled.
//!
//! A body template is named by the identifier of its definition, written as
//! 32 hexadecimal digits in five hyphenated groups, and the position of its
//! variant; the template of a response header adds the header's name.

use crate::text::{
    append_chars, chars_of, decimal, decimal_chars, decimal_injective, decimal_is_digits,
    string_of,
};
use vstd::prelude::*;

verus! {

/// The character of one hexadecimal digit.
pub open spec fn hex_digit(n: nat) -> char
    recommends
        n < 16,
{
    if n < 10 {
        ((48 + n) as u8) as char
    } else {
        ((87 + n) as u8) as char
    }
}

/// The `k`-th hexadecimal digit of `id`, counted from the most significant.
pub open spec fn nibble(id: u128, k: nat) -> nat
    recommends
        k < 32,
{
    ((id >> ((4 * (31 - k)) as u128)) & 0xf) as nat
}

/// The 32 hexadecimal digits of `id` from position `from` on.
pub open spec fn hex_digits(id: u128, from: nat, count: nat) -> Seq<char> {
    Seq::new(count, |i: int| hex_digit(nibble(id, (from + i) as nat)))
}

/// The identifier as text: groups of 8, 4, 4, 4 and 12 lower-case
/// hexadecimal digits with a hyphen between them.
pub open spec fn id_text(id: u128) -> Seq<char> {
    hex_digits(id, 0, 8) + seq!['-'] + hex_digits(id, 8, 4) + seq!['-'] + hex_digits(id, 12, 4)
        + seq!['-'] + hex_digits(id, 16, 4) + seq!['-'] + hex_digits(id, 20, 12)
}

/// The name of the body template of variant `index` of definition `id`.
pub open spec fn template_name(id: u128, index: nat) -> Seq<char> {
    id_text(id) + seq!['_'] + decimal(index)
}

/// The name of the template of the response header `header` of variant
/// `index` of definition `id`.
pub open spec fn header_template_name(id: u128, index: nat, header: Seq<char>) -> Seq<char> {
    template_name(id, index) + "_header_"@ + header
}

/// The `k`-th hexadecimal digit of `id` as a character.
fn hex_char(id: u128, k: u8) -> (c: char)
    requires
        k < 32,
    ensures
        c == hex_digit(nibble(id, k as nat)),
{
    let shift: u128 = 4 * (31 - k as u128);
    let d: u128 = (id >> shift) & 0xf;
    assert(d < 16) by (bit_vector)
        requires
            d == (id >> shift) & 0xf,
    ;
    if d < 10 {
        (48 + d as u8) as char
    } else {
        (87 + d as u8) as char
    }
}

/// Appends the digits `from .. from + count` of `id` to `out`.
fn push_hex(out: &mut Vec<char>, id: u128, from: u8, count: u8)
    requires
        from + count <= 32,
    ensures
        final(out)@ == old(out)@ + hex_digits(id, from as nat, count as nat),
{
    let mut i: u8 = 0;
    while i < count
        invariant
            i <= count,
            from + count <= 32,
            out@ == old(out)@ + hex_digits(id, from as nat, i as nat),
        decreases count - i,
    {
        out.push(hex_char(id, from + i));
        assert(out@ =~= old(out)@ + hex_digits(id, from as nat, (i + 1) as nat));
        i += 1;
    }
}

/// Writes the identifier as text.
pub fn id_chars(id: u128) -> (r: Vec<char>)
    ensures
        r@ == id_text(id),
{
    let mut out: Vec<char> = Vec::new();
    assert(out@ + hex_digits(id, 0, 8) =~= hex_digits(id, 0, 8));
    push_hex(&mut out, id, 0, 8);
    out.push('-');
    push_hex(&mut out, id, 8, 4);
    out.push('-');
    push_hex(&mut out, id, 12, 4);
    out.push('-');
    push_hex(&mut out, id, 16, 4);
    out.push('-');
    push_hex(&mut out, id, 20, 12);
    assert(out@ =~= id_text(id));
    out
}

/// The identifier as a string.
pub fn id_string(id: u128) -> (r: String)
    ensures
        r@ == id_text(id),
{
    string_of(&id_chars(id))
}

/// The name of the body template of variant `index` of definition `id`.
pub fn body_template_name(id: u128, index: usize) -> (r: String)
    ensures
        r@ == template_name(id, index as nat),
{
    let mut out = id_chars(id);
    out.push('_');
    let digits = decimal_chars(index as u128);
    append_chars(&mut out, &digits);
    string_of(&out)
}

/// The name of the template of the response header `header` of variant
/// `index` of definition `id`.
pub fn header_name(id: u128, index: usize, header: &str) -> (r: String)
    ensures
        r@ == header_template_name(id, index as nat, header@),
{
    let mut out = id_chars(id);
    out.push('_');
    let digits = decimal_chars(index as u128);
    append_chars(&mut out, &digits);
    let middle = chars_of("_header_");
    append_chars(&mut out, &middle);
    let tail = chars_of(header);
    append_chars(&mut out, &tail);
    string_of(&out)
}

/// Where the `k`-th hexadecimal digit stands in the text of an identifier.
pub open spec fn digit_position(k: nat) -> nat {
    if k < 8 {
        k
    } else if k < 12 {
        k + 1
    } else if k < 16 {
        k + 2
    } else if k < 20 {
        k + 3
    } else {
        k + 4
    }
}

/// The text of an identifier has 36 characters, and its `k`-th digit
/// stands at its position.
pub proof fn id_text_shape(id: u128, k: nat)
    requires
        k < 32,
    ensures
        id_text(id).len() == 36,
        id_text(id)[digit_position(k) as int] == hex_digit(nibble(id, k)),
{
}

/// Two different digits are written as two different characters.
pub proof fn hex_digit_injective(a: nat, b: nat)
    requires
        a < 16,
        b < 16,
        hex_digit(a) == hex_digit(b),
    ensures
        a == b,
{
    assert(hex_digit(a) as u32 == hex_digit(b) as u32);
}

/// A number is determined by its 32 hexadecimal digits.
proof fn digits_determine(a: u128, b: u128)
    requires
        forall|k: nat| k < 32 ==> nibble(a, k) == nibble(b, k),
    ensures
        a == b,
{
    assert(nibble(a, 0) == nibble(b, 0) && nibble(a, 1) == nibble(b, 1) && nibble(a, 2) == nibble(
        b,
        2,
    ) && nibble(a, 3) == nibble(b, 3));
    assert(nibble(a, 4) == nibble(b, 4) && nibble(a, 5) == nibble(b, 5) && nibble(a, 6) == nibble(
        b,
        6,
    ) && nibble(a, 7) == nibble(b, 7));
    assert(nibble(a, 8) == nibble(b, 8) && nibble(a, 9) == nibble(b, 9) && nibble(a, 10)
        == nibble(b, 10) && nibble(a, 11) == nibble(b, 11));
    assert(nibble(a, 12) == nibble(b, 12) && nibble(a, 13) == nibble(b, 13) && nibble(a, 14)
        == nibble(b, 14) && nibble(a, 15) == nibble(b, 15));
    assert(nibble(a, 16) == nibble(b, 16) && nibble(a, 17) == nibble(b, 17) && nibble(a, 18)
        == nibble(b, 18) && nibble(a, 19) == nibble(b, 19));
    assert(nibble(a, 20) == nibble(b, 20) && nibble(a, 21) == nibble(b, 21) && nibble(a, 22)
        == nibble(b, 22) && nibble(a, 23) == nibble(b, 23));
    assert(nibble(a, 24) == nibble(b, 24) && nibble(a, 25) == nibble(b, 25) && nibble(a, 26)
        == nibble(b, 26) && nibble(a, 27) == nibble(b, 27));
    assert(nibble(a, 28) == nibble(b, 28) && nibble(a, 29) == nibble(b, 29) && nibble(a, 30)
        == nibble(b, 30) && nibble(a, 31) == nibble(b, 31));
    assert(a == b) by (bit_vector)
        requires
            (a >> 124u128) & 0xf == (b >> 124u128) & 0xf,
            (a >> 120u128) & 0xf == (b >> 120u128) & 0xf,
            (a >> 116u128) & 0xf == (b >> 116u128) & 0xf,
            (a >> 112u128) & 0xf == (b >> 112u128) & 0xf,
            (a >> 108u128) & 0xf == (b >> 108u128) & 0xf,
            (a >> 104u128) & 0xf == (b >> 104u128) & 0xf,
            (a >> 100u128) & 0xf == (b >> 100u128) & 0xf,
            (a >> 96u128) & 0xf == (b >> 96u128) & 0xf,
            (a >> 92u128) & 0xf == (b >> 92u128) & 0xf,
            (a >> 88u128) & 0xf == (b >> 88u128) & 0xf,
            (a >> 84u128) & 0xf == (b >> 84u128) & 0xf,
            (a >> 80u128) & 0xf == (b >> 80u128) & 0xf,
            (a >> 76u128) & 0xf == (b >> 76u128) & 0xf,
            (a >> 72u128) & 0xf == (b >> 72u128) & 0xf,
            (a >> 68u128) & 0xf == (b >> 68u128) & 0xf,
            (a >> 64u128) & 0xf == (b >> 64u128) & 0xf,
            (a >> 60u128) & 0xf == (b >> 60u128) & 0xf,
            (a >> 56u128) & 0xf == (b >> 56u128) & 0xf,
            (a >> 52u128) & 0xf == (b >> 52u128) & 0xf,
            (a >> 48u128) & 0xf == (b >> 48u128) & 0xf,
            (a >> 44u128) & 0xf == (b >> 44u128) & 0xf,
            (a >> 40u128) & 0xf == (b >> 40u128) & 0xf,
            (a >> 36u128) & 0xf == (b >> 36u128) & 0xf,
            (a >> 32u128) & 0xf == (b >> 32u128) & 0xf,
            (a >> 28u128) & 0xf == (b >> 28u128) & 0xf,
            (a >> 24u128) & 0xf == (b >> 24u128) & 0xf,
            (a >> 20u128) & 0xf == (b >> 20u128) & 0xf,
            (a >> 16u128) & 0xf == (b >> 16u128) & 0xf,
            (a >> 12u128) & 0xf == (b >> 12u128) & 0xf,
            (a >> 8u128) & 0xf == (b >> 8u128) & 0xf,
            (a >> 4u128) & 0xf == (b >> 4u128) & 0xf,
            (a >> 0u128) & 0xf == (b >> 0u128) & 0xf,
    ;
}

/// A digit is below sixteen.
proof fn nibble_small(id: u128, k: nat)
    requires
        k < 32,
    ensures
        nibble(id, k) < 16,
{
    let shift = (4 * (31 - k)) as u128;
    assert((id >> shift) & 0xf < 16) by (bit_vector);
}

/// Two different identifiers are written as two different texts.
pub proof fn id_text_injective(a: u128, b: u128)
    requires
        id_text(a) == id_text(b),
    ensures
        a == b,
{
    assert forall|k: nat| k < 32 implies nibble(a, k) == nibble(b, k) by {
        id_text_shape(a, k);
        id_text_shape(b, k);
        nibble_small(a, k);
        nibble_small(b, k);
        hex_digit_injective(nibble(a, k), nibble(b, k));
    }
    digits_determine(a, b);
}

/// Every template name of a definition begins with the text of its
/// identifier, so that the names of two definitions never meet.
pub proof fn names_begin_with_id(id: u128, index: nat, header: Seq<char>)
    ensures
        template_name(id, index).len() >= 36,
        template_name(id, index).subrange(0, 36) == id_text(id),
        header_template_name(id, index, header).len() >= 36,
        header_template_name(id, index, header).subrange(0, 36) == id_text(id),
{
    id_text_shape(id, 0);
    assert(template_name(id, index).subrange(0, 36) =~= id_text(id));
    assert(header_template_name(id, index, header).subrange(0, 36) =~= id_text(id));
}

/// The name of a body template belongs to one definition and one variant
/// position only.
pub proof fn template_name_unique(a: u128, i: nat, b: u128, j: nat)
    requires
        template_name(a, i) == template_name(b, j),
    ensures
        a == b,
        i == j,
{
    names_begin_with_id(a, i, Seq::empty());
    names_begin_with_id(b, j, Seq::empty());
    id_text_injective(a, b);
    id_text_shape(a, 0);
    assert(template_name(a, i).subrange(37, template_name(a, i).len() as int) =~= decimal(i));
    assert(template_name(b, j).subrange(37, template_name(b, j).len() as int) =~= decimal(j));
    decimal_injective(i, j);
}

/// The name of a header template is never the name of a body template.
pub proof fn header_name_is_no_body_name(a: u128, i: nat, header: Seq<char>, b: u128, j: nat)
    ensures
        header_template_name(a, i, header) != template_name(b, j),
{
    reveal_strlit("_header_");
    let h = header_template_name(a, i, header);
    let t = template_name(b, j);
    id_text_shape(a, 0);
    id_text_shape(b, 0);
    if h == t {
        // In the header name an underscore follows the numeral; in the body
        // name that place holds a digit, or the name has ended.
        let at = 37 + decimal(i).len();
        assert(h[at as int] == '_');
        if at < t.len() {
            assert(t[at as int] == decimal(j)[at - 37]);
            decimal_is_digits(j, at - 37);
        }
    }
}

/// Under one identifier and one variant position, two header names share
/// the name of their template only if they are the same.
pub proof fn header_name_fixes_header(id: u128, i: nat, h: Seq<char>, other: Seq<char>)
    requires
        header_template_name(id, i, h) == header_template_name(id, i, other),
    ensures
        h == other,
{
    let stem = template_name(id, i) + "_header_"@;
    assert(h =~= header_template_name(id, i, h).skip(stem.len() as int));
    assert(other =~= header_template_name(id, i, other).skip(stem.len() as int));
}

/// Under one identifier, the templates of the headers of two variants
/// never share a name.
pub proof fn header_name_fixes_variant(
    id: u128,
    i: nat,
    h: Seq<char>,
    j: nat,
    other: Seq<char>,
)
    requires
        header_template_name(id, i, h) == header_template_name(id, j, other),
    ensures
        i == j,
{
    reveal_strlit("_header_");
    id_text_shape(id, 0);
    let x = header_template_name(id, i, h);
    let y = header_template_name(id, j, other);
    let a = decimal(i);
    let b = decimal(j);
    crate::text::decimal_len(i);
    crate::text::decimal_len(j);
    if a.len() == b.len() {
        assert(a =~= x.subrange(37, 37 + a.len() as int));
        assert(b =~= y.subrange(37, 37 + b.len() as int));
        decimal_injective(i, j);
    } else if a.len() < b.len() {
        // Behind the shorter numeral stands an underscore, where the longer
        // one has a digit.
        assert(x[37 + a.len() as int] == '_');
        assert(y[37 + a.len() as int] == b[a.len() as int]);
        decimal_is_digits(j, a.len() as int);
    } else {
        assert(y[37 + b.len() as int] == '_');
        assert(x[37 + b.len() as int] == a[b.len() as int]);
        decimal_is_digits(i, b.len() as int);
    }
}

} // verus!
