//! The request context: the named values that templates and conditions read.
//!
//! The context is a `serde_json::Map` from names to JSON values, which is
//! what the template engine takes. JSON values are opaque here; what the
//! library reads of one it reads through the trusted items of this file.

use crate::text::{chars_of, contains_chars, eq_ignore_case, same_ignoring_case, occurs_in};
use vstd::prelude::*;

verus! {

/// `serde_json::Value`, a JSON value, as an opaque type.
#[verifier::external_type_specification]
#[verifier::external_body]
pub struct ExJsonValue(serde_json::Value);

/// `serde_json::Map`, the map of a JSON object, as an opaque type.
#[verifier::external_type_specification]
#[verifier::external_body]
#[verifier::reject_recursive_types(K)]
#[verifier::reject_recursive_types(V)]
pub struct ExJsonMap<K, V>(serde_json::Map<K, V>);

/// What a context holds: the value stored under each name in it.
pub uninterp spec fn context_fields(ctx: serde_json::Map<String, serde_json::Value>) -> Map<
    Seq<char>,
    serde_json::Value,
>;

/// The text `a` comes before the text `b`: at the first place where they
/// differ `a` has the lesser character, or `a` ends there and `b` goes on.
pub open spec fn text_before(a: Seq<char>, b: Seq<char>) -> bool
    decreases a.len(),
{
    if b.len() == 0 {
        false
    } else if a.len() == 0 {
        true
    } else if a[0] != b[0] {
        (a[0] as u32) < (b[0] as u32)
    } else {
        text_before(a.skip(1), b.skip(1))
    }
}

/// No text comes before itself, so that a list in ascending order holds no
/// text twice.
pub proof fn text_before_is_strict(a: Seq<char>)
    ensures
        !text_before(a, a),
    decreases a.len(),
{
    if a.len() > 0 {
        text_before_is_strict(a.skip(1));
    }
}

/// The list `order` holds each name of `names` once, in ascending order.
pub open spec fn lists_ascending(order: Seq<Seq<char>>, names: Set<Seq<char>>) -> bool {
    &&& forall|i: int| 0 <= i < order.len() ==> names.contains(#[trigger] order[i])
    &&& forall|name: Seq<char>|
        names.contains(name) ==> exists|i: int| 0 <= i < order.len() && order[i] == name
    &&& forall|i: int, j: int|
        0 <= i < j < order.len() ==> text_before(#[trigger] order[i], #[trigger] order[j])
}

/// The names `names` in ascending order, each once. There is one such list
/// for the names of a context, and it is the order in which the context
/// hands them out.
pub open spec fn name_order(names: Set<Seq<char>>) -> Seq<Seq<char>> {
    choose|order: Seq<Seq<char>>| lists_ascending(order, names)
}

/// Of two texts, not each comes before the other.
pub proof fn text_before_is_one_way(a: Seq<char>, b: Seq<char>)
    ensures
        !(text_before(a, b) && text_before(b, a)),
    decreases a.len(),
{
    if a.len() > 0 && b.len() > 0 && a[0] == b[0] {
        text_before_is_one_way(a.skip(1), b.skip(1));
    }
}

/// Two lists that hold the same names in ascending order, each once, are
/// the same list.
pub proof fn ascending_list_is_unique(
    s: Seq<Seq<char>>,
    t: Seq<Seq<char>>,
    names: Set<Seq<char>>,
)
    requires
        lists_ascending(s, names),
        lists_ascending(t, names),
    ensures
        s == t,
    decreases s.len(),
{
    if s.len() == 0 {
        if t.len() > 0 {
            assert(names.contains(t[0]));
        }
        assert(s =~= t);
    } else {
        let least = s[0];
        assert(names.contains(least));
        let j = choose|j: int| 0 <= j < t.len() && t[j] == least;
        if j > 0 {
            assert(text_before(t[0], t[j]));
            assert(names.contains(t[0]));
            let i = choose|i: int| 0 <= i < s.len() && s[i] == t[0];
            if i == 0 {
                text_before_is_strict(least);
            } else {
                assert(text_before(s[0], s[i]));
                text_before_is_one_way(least, t[0]);
            }
        }
        assert(t[0] == least);
        let rest = names.remove(least);
        let s1 = s.skip(1);
        let t1 = t.skip(1);
        text_before_is_strict(least);
        assert forall|i: int| 0 <= i < s1.len() implies rest.contains(#[trigger] s1[i]) by {
            assert(s1[i] == s[i + 1]);
            assert(names.contains(s[i + 1]));
            assert(text_before(s[0], s[i + 1]));
        }
        assert forall|i: int| 0 <= i < t1.len() implies rest.contains(#[trigger] t1[i]) by {
            assert(t1[i] == t[i + 1]);
            assert(names.contains(t[i + 1]));
            assert(text_before(t[0], t[i + 1]));
        }
        assert forall|name: Seq<char>| rest.contains(name) implies (exists|i: int|
            0 <= i < s1.len() && s1[i] == name) && (exists|i: int|
            0 <= i < t1.len() && t1[i] == name) by {
            let i = choose|i: int| 0 <= i < s.len() && s[i] == name;
            assert(s1[i - 1] == name);
            let k = choose|k: int| 0 <= k < t.len() && t[k] == name;
            assert(t1[k - 1] == name);
        }
        assert forall|i: int, k: int| 0 <= i < k < s1.len() implies text_before(
            #[trigger] s1[i],
            #[trigger] s1[k],
        ) by {
            assert(text_before(s[i + 1], s[k + 1]));
        }
        assert forall|i: int, k: int| 0 <= i < k < t1.len() implies text_before(
            #[trigger] t1[i],
            #[trigger] t1[k],
        ) by {
            assert(text_before(t[i + 1], t[k + 1]));
        }
        ascending_list_is_unique(s1, t1, rest);
        assert(s =~= seq![least] + s1);
        assert(t =~= seq![least] + t1);
    }
}

/// A list that holds the names in ascending order, each once, is their
/// order.
pub proof fn ascending_list_is_the_order(order: Seq<Seq<char>>, names: Set<Seq<char>>)
    requires
        lists_ascending(order, names),
    ensures
        order == name_order(names),
{
    ascending_list_is_unique(order, name_order(names), names);
}

/// The JSON string value that holds the text `s`.
pub uninterp spec fn text_json(s: Seq<char>) -> serde_json::Value;

/// The text of a JSON string value; nothing for a value of another kind.
pub uninterp spec fn json_text(v: serde_json::Value) -> Option<Seq<char>>;

/// The decimal text of a JSON number, as its 64-bit floating-point value
/// prints; nothing for a value of another kind.
pub uninterp spec fn json_number(v: serde_json::Value) -> Option<Seq<char>>;

/// The value of a JSON number that is a whole number from zero up to the
/// largest that 64 bits hold; nothing for any other value.
pub uninterp spec fn json_u64(v: serde_json::Value) -> Option<u64>;

/// What a request body parses to: nothing where the bytes are not
/// well-formed JSON; else the top-level fields in the order of the parsed
/// object, or nothing where the body is well-formed but not an object.
pub uninterp spec fn parsed_body(bytes: Seq<u8>) -> Option<
    Option<Seq<(Seq<char>, serde_json::Value)>>,
>;

/// The views of a list of named JSON values.
pub open spec fn fields_view(fields: Seq<(String, serde_json::Value)>) -> Seq<
    (Seq<char>, serde_json::Value),
> {
    Seq::new(fields.len(), |i: int| (fields[i].0@, fields[i].1))
}

/// The views of a list of pairs of strings.
pub open spec fn pairs_view(pairs: Seq<(String, String)>) -> Seq<(Seq<char>, Seq<char>)> {
    Seq::new(pairs.len(), |i: int| (pairs[i].0@, pairs[i].1@))
}

/// `Clone` for `serde_json::Value`: the copy is the same JSON value.
pub assume_specification[ <serde_json::Value as Clone>::clone ](v: &serde_json::Value) -> (r:
    serde_json::Value)
    ensures
        r == *v,
;

/// `serde_json::Map::new`: a context that holds nothing.
#[verifier::external_body]
pub(crate) fn context_new() -> (ctx: serde_json::Map<String, serde_json::Value>)
    ensures
        context_fields(ctx) == (Map::<Seq<char>, serde_json::Value>::empty()),
{
    serde_json::Map::new()
}

/// `serde_json::Map::insert`: afterwards the context holds `value` under
/// `name`, in place of what it held there, and everything else as before.
#[verifier::external_body]
pub(crate) fn context_insert(
    ctx: &mut serde_json::Map<String, serde_json::Value>,
    name: String,
    value: serde_json::Value,
)
    ensures
        context_fields(*final(ctx)) == context_fields(*old(ctx)).insert(name@, value),
{
    ctx.insert(name, value);
}

/// `serde_json::Map::keys`: every name of the context once, in ascending
/// order. The map keeps its entries sorted by name.
#[verifier::external_body]
pub(crate) fn context_names(ctx: &serde_json::Map<String, serde_json::Value>) -> (r: Vec<String>)
    ensures
        lists_ascending(Seq::new(r.len() as nat, |i: int| r[i]@), context_fields(*ctx).dom()),
{
    ctx.keys().map(|name| name.clone()).collect()
}

/// `serde_json::Map::get`: a copy of the value stored under `name`, or
/// nothing where the context holds none.
#[verifier::external_body]
pub(crate) fn context_get(ctx: &serde_json::Map<String, serde_json::Value>, name: &str) -> (r:
    Option<serde_json::Value>)
    ensures
        r is Some <==> context_fields(*ctx).dom().contains(name@),
        r is Some ==> r.unwrap() == context_fields(*ctx)[name@],
{
    ctx.get(name).map(|value| value.clone())
}

/// `serde_json::Value::String`: the JSON string value that holds `s`. It
/// reads back as that text and is no number.
#[verifier::external_body]
pub(crate) fn text_value(s: String) -> (r: serde_json::Value)
    ensures
        r == text_json(s@),
        json_text(r) == Some(s@),
        json_number(r) is None,
{
    serde_json::Value::String(s)
}

/// `serde_json::Value::as_str`: the text of a JSON string value.
#[verifier::external_body]
pub(crate) fn value_text(v: &serde_json::Value) -> (r: Option<String>)
    ensures
        r is Some <==> json_text(*v) is Some,
        r is Some ==> r.unwrap()@ == json_text(*v).unwrap(),
{
    v.as_str().map(|s| s.to_string())
}

/// `serde_json::Value::as_f64`, printed: the decimal text of a JSON number.
#[verifier::external_body]
pub(crate) fn value_number(v: &serde_json::Value) -> (r: Option<String>)
    ensures
        r is Some <==> json_number(*v) is Some,
        r is Some ==> r.unwrap()@ == json_number(*v).unwrap(),
{
    v.as_f64().map(|n| n.to_string())
}

/// `serde_json::Value::as_u64`: the value of a JSON number that is a whole
/// number which 64 bits hold without a sign.
#[verifier::external_body]
pub(crate) fn value_u64(v: &serde_json::Value) -> (r: Option<u64>)
    ensures
        r == json_u64(*v),
{
    v.as_u64()
}

/// `serde_json::from_slice` into a `serde_json::Value`: nothing for bytes
/// that are not well-formed JSON; else the top-level fields of a body that
/// is a JSON object, or nothing for well-formed JSON of another kind.
#[verifier::external_body]
pub(crate) fn parse_body(bytes: &Vec<u8>) -> (r: Option<Option<Vec<(String, serde_json::Value)>>>)
    ensures
        r is Some <==> parsed_body(bytes@) is Some,
        r is Some ==> (r.unwrap() is Some <==> parsed_body(bytes@).unwrap() is Some),
        r is Some && r.unwrap() is Some ==> fields_view(r.unwrap().unwrap()@) == parsed_body(
            bytes@,
        ).unwrap().unwrap(),
{
    match serde_json::from_slice::<serde_json::Value>(bytes) {
        Ok(serde_json::Value::Object(fields)) => Some(Some(fields.into_iter().collect())),
        Ok(_) => Some(None),
        Err(_) => None,
    }
}

/// The context `m` with each pair of `pairs` stored as a JSON string, in
/// order: a later pair replaces an earlier one of the same name.
pub open spec fn with_pairs(
    m: Map<Seq<char>, serde_json::Value>,
    pairs: Seq<(Seq<char>, Seq<char>)>,
) -> Map<Seq<char>, serde_json::Value>
    decreases pairs.len(),
{
    if pairs.len() == 0 {
        m
    } else {
        with_pairs(m, pairs.drop_last()).insert(pairs.last().0, text_json(pairs.last().1))
    }
}

/// The context `m` with each field of `fields` stored, in order: a later
/// field replaces an earlier one of the same name.
pub open spec fn with_fields(
    m: Map<Seq<char>, serde_json::Value>,
    fields: Seq<(Seq<char>, serde_json::Value)>,
) -> Map<Seq<char>, serde_json::Value>
    decreases fields.len(),
{
    if fields.len() == 0 {
        m
    } else {
        with_fields(m, fields.drop_last()).insert(fields.last().0, fields.last().1)
    }
}

/// The name under which the context holds the target name of the request.
pub open spec fn target_key() -> Seq<char> {
    "api_name"@
}

/// The context of a request: the target name under its reserved key, then
/// every header, then every query parameter, then every top-level field of
/// the body, each replacing an earlier entry of the same name.
pub open spec fn request_context(
    api_name: Seq<char>,
    headers: Seq<(Seq<char>, Seq<char>)>,
    query: Seq<(Seq<char>, Seq<char>)>,
    fields: Seq<(Seq<char>, serde_json::Value)>,
) -> Map<Seq<char>, serde_json::Value> {
    with_fields(
        with_pairs(
            with_pairs(
                Map::<Seq<char>, serde_json::Value>::empty().insert(
                    target_key(),
                    text_json(api_name),
                ),
                headers,
            ),
            query,
        ),
        fields,
    )
}

/// Stores each pair of `pairs` in the context as a JSON string.
pub fn insert_pairs(
    ctx: &mut serde_json::Map<String, serde_json::Value>,
    pairs: &Vec<(String, String)>,
)
    ensures
        context_fields(*final(ctx)) == with_pairs(context_fields(*old(ctx)), pairs_view(pairs@)),
{
    let ghost all = pairs_view(pairs@);
    let ghost start = context_fields(*ctx);
    let mut i: usize = 0;
    while i < pairs.len()
        invariant
            i <= pairs.len(),
            all == pairs_view(pairs@),
            context_fields(*ctx) == with_pairs(start, all.take(i as int)),
        decreases pairs.len() - i,
    {
        let name = pairs[i].0.clone();
        let value = text_value(pairs[i].1.clone());
        context_insert(ctx, name, value);
        proof {
            assert(all.take(i + 1).drop_last() =~= all.take(i as int));
            assert(all.take(i + 1).last() == all[i as int]);
        }
        i += 1;
    }
    assert(all.take(pairs.len() as int) =~= all);
}

/// Merges the top-level fields of a body into the context: each is stored
/// under its name, in place of what the context held there.
pub fn merge_json(
    ctx: &mut serde_json::Map<String, serde_json::Value>,
    fields: &Vec<(String, serde_json::Value)>,
)
    ensures
        context_fields(*final(ctx)) == with_fields(
            context_fields(*old(ctx)),
            fields_view(fields@),
        ),
{
    let ghost all = fields_view(fields@);
    let ghost start = context_fields(*ctx);
    let mut i: usize = 0;
    while i < fields.len()
        invariant
            i <= fields.len(),
            all == fields_view(fields@),
            context_fields(*ctx) == with_fields(start, all.take(i as int)),
        decreases fields.len() - i,
    {
        let name = fields[i].0.clone();
        let value = fields[i].1.clone();
        context_insert(ctx, name, value);
        proof {
            assert(all.take(i + 1).drop_last() =~= all.take(i as int));
            assert(all.take(i + 1).last() == all[i as int]);
        }
        i += 1;
    }
    assert(all.take(fields.len() as int) =~= all);
}

/// Builds the context of a request from its parts.
pub fn build_context(
    api_name: &str,
    headers: &Vec<(String, String)>,
    query: &Vec<(String, String)>,
    fields: &Vec<(String, serde_json::Value)>,
) -> (ctx: serde_json::Map<String, serde_json::Value>)
    ensures
        context_fields(ctx) == request_context(
            api_name@,
            pairs_view(headers@),
            pairs_view(query@),
            fields_view(fields@),
        ),
{
    let mut ctx = context_new();
    let key = "api_name".to_string();
    context_insert(&mut ctx, key, text_value(api_name.to_string()));
    insert_pairs(&mut ctx, headers);
    insert_pairs(&mut ctx, query);
    merge_json(&mut ctx, fields);
    ctx
}

/// The value of the first header whose name is `name` without regard to the
/// case of ASCII letters.
pub open spec fn header_value(headers: Seq<(Seq<char>, Seq<char>)>, name: Seq<char>) -> Option<
    Seq<char>,
>
    decreases headers.len(),
{
    if headers.len() == 0 {
        None
    } else if same_ignoring_case(headers[0].0, name) {
        Some(headers[0].1)
    } else {
        header_value(headers.skip(1), name)
    }
}

/// Finds the value of the first header named `name`, in any case.
pub fn find_header(headers: &Vec<(String, String)>, name: &str) -> (r: Option<String>)
    ensures
        r is Some <==> header_value(pairs_view(headers@), name@) is Some,
        r is Some ==> r.unwrap()@ == header_value(pairs_view(headers@), name@).unwrap(),
{
    let ghost all = pairs_view(headers@);
    let mut i: usize = 0;
    assert(all.skip(0) =~= all);
    while i < headers.len()
        invariant
            i <= headers.len(),
            all == pairs_view(headers@),
            header_value(all, name@) == header_value(all.skip(i as int), name@),
        decreases headers.len() - i,
    {
        proof {
            assert(all.skip(i as int)[0] == all[i as int]);
            assert(all.skip(i as int).skip(1) =~= all.skip(i + 1));
        }
        if eq_ignore_case(headers[i].0.as_str(), name) {
            return Some(headers[i].1.clone());
        }
        i += 1;
    }
    None
}

/// The headers announce a body of structured data.
pub open spec fn announces_json(headers: Seq<(Seq<char>, Seq<char>)>) -> bool {
    match header_value(headers, "content-type"@) {
        Some(kind) => occurs_in(kind, "application/json"@),
        None => false,
    }
}

/// Tests whether the headers announce a body of structured data: the
/// content type names `application/json`.
pub fn has_json_content_type(headers: &Vec<(String, String)>) -> (r: bool)
    ensures
        r == announces_json(pairs_view(headers@)),
{
    match find_header(headers, "content-type") {
        Some(kind) => {
            let k = chars_of(kind.as_str());
            let p = chars_of("application/json");
            contains_chars(&k, &p)
        },
        None => false,
    }
}

} // verus!
