//! The templates of a definition: which sources it brings, under which
//! names, and how they enter and leave the engine together.

use crate::context::pairs_view;
use crate::engine::{accepted, free_of_inclusions, template_source, TemplateEngine};
use crate::errors::MockError;
use crate::models::{
    headers_distinct, headers_view, variant_headers_distinct, variants_view, MockAPI, MockView,
    ResponseVariant, VariantView,
};
use crate::naming::{
    body_template_name, header_name, header_template_name, id_text, id_text_injective,
    names_begin_with_id, template_name,
};
use handlebars::Template;
use vstd::prelude::*;

verus! {

/// The header templates of one variant, each with its name.
pub open spec fn header_sources(id: u128, index: nat, headers: Seq<(Seq<char>, Seq<char>)>) -> Seq<
    (Seq<char>, Seq<char>),
> {
    Seq::new(
        headers.len(),
        |j: int| (header_template_name(id, index, headers[j].0), headers[j].1),
    )
}

/// The templates of one variant, each with its name: the body, then the
/// headers in their order.
pub open spec fn variant_sources(id: u128, index: nat, v: VariantView) -> Seq<
    (Seq<char>, Seq<char>),
> {
    seq![(template_name(id, index), v.response)] + match v.response_headers {
        Some(h) => header_sources(id, index, h),
        None => Seq::empty(),
    }
}

/// The templates of the first `n` variants.
pub open spec fn sources_upto(id: u128, variants: Seq<VariantView>, n: nat) -> Seq<
    (Seq<char>, Seq<char>),
>
    decreases n,
{
    if n == 0 {
        Seq::empty()
    } else {
        sources_upto(id, variants, (n - 1) as nat) + variant_sources(
            id,
            (n - 1) as nat,
            variants[n - 1],
        )
    }
}

/// All templates of a definition stored under `id`, each with its name.
pub open spec fn sources_of(id: u128, def: MockView) -> Seq<(Seq<char>, Seq<char>)> {
    sources_upto(id, def.response_variants, def.response_variants.len())
}

/// Every source of the list is accepted as a template: it compiles and
/// includes no other template.
pub open spec fn all_accepted(sources: Seq<(Seq<char>, Seq<char>)>) -> bool {
    forall|k: int| 0 <= k < sources.len() ==> accepted(#[trigger] sources[k].1)
}

/// The definition is accepted: each of its templates compiles and includes
/// no other template, and none of its variants names a header twice.
pub open spec fn mock_accepted(def: MockView) -> bool {
    all_accepted(sources_of(0, def)) && headers_distinct(def.response_variants)
}

/// What an engine holds once the templates of a list have been compiled
/// and held one after the other, starting from nothing: each source under
/// its name, and of two under one name the later one.
pub open spec fn source_map(sources: Seq<(Seq<char>, Seq<char>)>) -> Map<Seq<char>, Seq<char>>
    decreases sources.len(),
{
    if sources.len() == 0 {
        Map::empty()
    } else {
        source_map(sources.drop_last()).insert(sources.last().0, sources.last().1)
    }
}

/// The templates of a definition stored under `id`, each source under its
/// name.
pub open spec fn template_map(id: u128, def: MockView) -> Map<Seq<char>, Seq<char>> {
    source_map(sources_of(id, def))
}

/// The names of a map of sources are the names of the list, and each
/// source of the map is a source of the list under that name.
pub proof fn source_map_is_of_list(sources: Seq<(Seq<char>, Seq<char>)>)
    ensures
        source_map(sources).dom() =~= name_set(sources),
        forall|name: Seq<char>| #[trigger]
            source_map(sources).dom().contains(name) ==> exists|k: int|
                0 <= k < sources.len() && sources[k].0 == name && sources[k].1 == source_map(
                    sources,
                )[name],
    decreases sources.len(),
{
    if sources.len() > 0 {
        let before = sources.drop_last();
        let last = sources.last();
        source_map_is_of_list(before);
        assert forall|name: Seq<char>| #[trigger]
            source_map(sources).dom().contains(name) implies name_set(sources).contains(name)
            && exists|k: int|
                0 <= k < sources.len() && sources[k].0 == name && sources[k].1 == source_map(
                    sources,
                )[name] by {
            if name == last.0 {
                let k = sources.len() - 1;
                assert(sources[k].0 == name && sources[k].1 == source_map(sources)[name]);
            } else {
                assert(source_map(before).dom().contains(name));
                let k = choose|k: int|
                    0 <= k < before.len() && before[k].0 == name && before[k].1 == source_map(
                        before,
                    )[name];
                assert(sources[k] == before[k]);
            }
        }
        assert forall|name: Seq<char>| name_set(sources).contains(name) implies source_map(
            sources,
        ).dom().contains(name) by {
            let k = choose|k: int| 0 <= k < sources.len() && sources[k].0 == name;
            if k < before.len() {
                assert(before[k].0 == name);
                assert(name_set(before).contains(name));
            }
        }
    }
}

/// Sources that are all accepted give a map with no inclusion.
pub proof fn accepted_sources_are_free(sources: Seq<(Seq<char>, Seq<char>)>)
    requires
        all_accepted(sources),
    ensures
        free_of_inclusions(source_map(sources)),
{
    source_map_is_of_list(sources);
}

/// The names of a list of templates.
pub open spec fn name_set(sources: Seq<(Seq<char>, Seq<char>)>) -> Set<Seq<char>> {
    Set::new(|name: Seq<char>| exists|k: int| 0 <= k < sources.len() && sources[k].0 == name)
}

/// The template names of a definition stored under `id`.
pub open spec fn template_names(id: u128, def: MockView) -> Set<Seq<char>> {
    name_set(sources_of(id, def))
}

/// Whether the templates of a definition are accepted does not depend on
/// the identifier under which it is stored.
pub proof fn accepted_whatever_id(a: u128, b: u128, def: MockView)
    ensures
        all_accepted(sources_of(a, def)) == all_accepted(sources_of(b, def)),
{
    same_sources(a, b, def.response_variants, def.response_variants.len());
    let x = sources_of(a, def);
    let y = sources_of(b, def);
    if all_accepted(x) {
        assert forall|k: int| 0 <= k < y.len() implies accepted(#[trigger] y[k].1) by {
            assert(x[k].1 == y[k].1);
        }
    }
    if all_accepted(y) {
        assert forall|k: int| 0 <= k < x.len() implies accepted(#[trigger] x[k].1) by {
            assert(x[k].1 == y[k].1);
        }
    }
}

/// Two identifiers give lists of the same length with the same sources.
proof fn same_sources(a: u128, b: u128, variants: Seq<VariantView>, n: nat)
    ensures
        sources_upto(a, variants, n).len() == sources_upto(b, variants, n).len(),
        forall|k: int|
            0 <= k < sources_upto(a, variants, n).len() ==> (#[trigger] sources_upto(
                a,
                variants,
                n,
            )[k]).1 == sources_upto(b, variants, n)[k].1,
    decreases n,
{
    if n > 0 {
        same_sources(a, b, variants, (n - 1) as nat);
    }
}

/// Every name in the list of the first `n` variants begins with the text of
/// the identifier.
proof fn sources_begin_with_id(id: u128, variants: Seq<VariantView>, n: nat, k: int)
    requires
        0 <= k < sources_upto(id, variants, n).len(),
    ensures
        sources_upto(id, variants, n)[k].0.len() >= 36,
        sources_upto(id, variants, n)[k].0.subrange(0, 36) == id_text(id),
    decreases n,
{
    if n > 0 {
        let before = sources_upto(id, variants, (n - 1) as nat);
        if k < before.len() {
            sources_begin_with_id(id, variants, (n - 1) as nat, k);
        } else {
            let v = variants[n - 1];
            let j = k - before.len();
            if j == 0 {
                names_begin_with_id(id, (n - 1) as nat, Seq::empty());
            } else {
                let headers = v.response_headers.unwrap();
                names_begin_with_id(id, (n - 1) as nat, headers[j - 1].0);
            }
        }
    }
}

/// The template names of two definitions under different identifiers never
/// meet.
pub proof fn names_of_different_ids_differ(a: u128, da: MockView, b: u128, db: MockView)
    requires
        a != b,
    ensures
        template_names(a, da).disjoint(template_names(b, db)),
{
    assert forall|name: Seq<char>|
        !(template_names(a, da).contains(name) && template_names(b, db).contains(name)) by {
        if template_names(a, da).contains(name) && template_names(b, db).contains(name) {
            let x = sources_of(a, da);
            let y = sources_of(b, db);
            let i = choose|i: int| 0 <= i < x.len() && x[i].0 == name;
            let j = choose|j: int| 0 <= j < y.len() && y[j].0 == name;
            sources_begin_with_id(a, da.response_variants, da.response_variants.len(), i);
            sources_begin_with_id(b, db.response_variants, db.response_variants.len(), j);
            id_text_injective(a, b);
        }
    }
}

/// Where the body template of variant `j` stands in the list of a
/// definition's templates.
pub open spec fn body_position(id: u128, variants: Seq<VariantView>, j: nat) -> int {
    sources_upto(id, variants, j).len() as int
}

/// The entry at position `k` is the body template of one of the first `n`
/// variants.
pub open spec fn is_body_entry(id: u128, variants: Seq<VariantView>, n: nat, k: int) -> bool {
    exists|j: nat| j < n && k == #[trigger] body_position(id, variants, j)
}

/// The header templates of variant `i`; none where the variant has no
/// headers.
pub open spec fn headers_of(variants: Seq<VariantView>, i: int) -> Seq<(Seq<char>, Seq<char>)> {
    match variants[i].response_headers {
        Some(h) => h,
        None => Seq::empty(),
    }
}

/// Where the template of header `j` of variant `i` stands in the list of a
/// definition's templates.
pub open spec fn header_position(id: u128, variants: Seq<VariantView>, i: nat, j: nat) -> int {
    body_position(id, variants, i) + 1 + j
}

/// The entry at position `k` is the template of a header of one of the
/// first `n` variants.
pub open spec fn is_header_entry(id: u128, variants: Seq<VariantView>, n: nat, k: int) -> bool {
    exists|i: nat, j: nat|
        i < n && j < headers_of(variants, i as int).len() && k == #[trigger] header_position(
            id,
            variants,
            i,
            j,
        )
}

/// The list of the first `m` variants begins the list of the first `n`.
proof fn sources_grow(id: u128, variants: Seq<VariantView>, m: nat, n: nat)
    requires
        m <= n,
    ensures
        sources_upto(id, variants, m).len() <= sources_upto(id, variants, n).len(),
        forall|k: int|
            0 <= k < sources_upto(id, variants, m).len() ==> #[trigger] sources_upto(
                id,
                variants,
                n,
            )[k] == sources_upto(id, variants, m)[k],
    decreases n - m,
{
    if m < n {
        sources_grow(id, variants, m, (n - 1) as nat);
    }
}

/// The body template of variant `j` stands at its position, under its name
/// and with the variant's response as its source.
proof fn body_stands_at(id: u128, variants: Seq<VariantView>, n: nat, j: nat)
    requires
        j < n,
    ensures
        0 <= body_position(id, variants, j) < sources_upto(id, variants, n).len(),
        sources_upto(id, variants, n)[body_position(id, variants, j)] == (
            template_name(id, j),
            variants[j as int].response,
        ),
{
    let here = sources_upto(id, variants, j + 1);
    assert(here[body_position(id, variants, j)] == variant_sources(id, j, variants[j as int])[0]);
    sources_grow(id, variants, j + 1, n);
}

/// The template of header `j` of variant `i` stands at its position,
/// under its name and with the header's template as its source.
proof fn header_stands_at(id: u128, variants: Seq<VariantView>, n: nat, i: nat, j: nat)
    requires
        i < n,
        j < headers_of(variants, i as int).len(),
    ensures
        0 <= header_position(id, variants, i, j) < sources_upto(id, variants, n).len(),
        sources_upto(id, variants, n)[header_position(id, variants, i, j)] == (
            header_template_name(id, i, headers_of(variants, i as int)[j as int].0),
            headers_of(variants, i as int)[j as int].1,
        ),
{
    let here = sources_upto(id, variants, i + 1);
    assert(here[header_position(id, variants, i, j)] == variant_sources(
        id,
        i,
        variants[i as int],
    )[1 + j as int]);
    sources_grow(id, variants, i + 1, n);
}

/// Every entry of the list is the body template of a variant or the
/// template of one of its headers.
proof fn entry_kind(id: u128, variants: Seq<VariantView>, n: nat, k: int)
    requires
        0 <= k < sources_upto(id, variants, n).len(),
    ensures
        is_body_entry(id, variants, n, k) || is_header_entry(id, variants, n, k),
    decreases n,
{
    if n > 0 {
        let before = sources_upto(id, variants, (n - 1) as nat);
        if k < before.len() {
            entry_kind(id, variants, (n - 1) as nat, k);
            if is_body_entry(id, variants, (n - 1) as nat, k) {
                let j = choose|j: nat| j < n - 1 && k == #[trigger] body_position(id, variants, j);
                assert(j < n && k == body_position(id, variants, j));
            } else {
                let (i, j) = choose|i: nat, j: nat|
                    i < n - 1 && j < headers_of(variants, i as int).len() && k
                        == #[trigger] header_position(id, variants, i, j);
                assert(i < n && j < headers_of(variants, i as int).len() && k == header_position(
                    id,
                    variants,
                    i,
                    j,
                ));
            }
        } else if k == before.len() {
            assert(k == body_position(id, variants, (n - 1) as nat));
        } else {
            let i = (n - 1) as nat;
            let j = (k - before.len() - 1) as nat;
            assert(j < headers_of(variants, i as int).len());
            assert(k == header_position(id, variants, i, j));
        }
    }
}

/// A name that stands once in a list leads to its source in the map of the
/// list.
proof fn source_of_single_name(sources: Seq<(Seq<char>, Seq<char>)>, k: int)
    requires
        0 <= k < sources.len(),
        forall|j: int| 0 <= j < sources.len() && j != k ==> (#[trigger] sources[j]).0 != sources[k].0,
    ensures
        source_map(sources).dom().contains(sources[k].0),
        source_map(sources)[sources[k].0] == sources[k].1,
    decreases sources.len(),
{
    if k < sources.len() - 1 {
        let before = sources.drop_last();
        assert forall|j: int| 0 <= j < before.len() && j != k implies (#[trigger] before[j]).0
            != before[k].0 by {
            assert(before[j] == sources[j]);
        }
        source_of_single_name(before, k);
        assert(sources[sources.len() - 1].0 != sources[k].0);
    }
}

/// The body template of each variant of a definition leads, under its
/// name, to the variant's response in the map of the definition.
pub proof fn body_source_is_response(id: u128, def: MockView, index: int)
    requires
        0 <= index < def.response_variants.len(),
    ensures
        template_map(id, def).dom().contains(template_name(id, index as nat)),
        template_map(id, def)[template_name(id, index as nat)]
            == def.response_variants[index].response,
{
    let variants = def.response_variants;
    let n = variants.len();
    let list = sources_of(id, def);
    let k = body_position(id, variants, index as nat);
    body_stands_at(id, variants, n, index as nat);
    assert forall|j: int| 0 <= j < list.len() && j != k implies (#[trigger] list[j]).0
        != list[k].0 by {
        entry_kind(id, variants, n, j);
        if is_body_entry(id, variants, n, j) {
            let other = choose|other: nat|
                other < n && j == #[trigger] body_position(id, variants, other);
            body_stands_at(id, variants, n, other);
            if list[j].0 == list[k].0 {
                crate::naming::template_name_unique(id, other, id, index as nat);
            }
        } else {
            let (v, w) = choose|v: nat, w: nat|
                v < n && w < headers_of(variants, v as int).len() && j == #[trigger] header_position(
                    id,
                    variants,
                    v,
                    w,
                );
            header_stands_at(id, variants, n, v, w);
            crate::naming::header_name_is_no_body_name(
                id,
                v,
                headers_of(variants, v as int)[w as int].0,
                id,
                index as nat,
            );
        }
    }
    source_of_single_name(list, k);
}

/// The template of each header of each variant of a definition leads,
/// under its name, to the header's template in the map of the definition,
/// provided no variant names a header twice.
pub proof fn header_source_is_template(id: u128, def: MockView, index: int, header: int)
    requires
        0 <= index < def.response_variants.len(),
        0 <= header < headers_of(def.response_variants, index).len(),
        headers_distinct(def.response_variants),
    ensures
        template_map(id, def).dom().contains(
            header_template_name(
                id,
                index as nat,
                headers_of(def.response_variants, index)[header].0,
            ),
        ),
        template_map(id, def)[header_template_name(
            id,
            index as nat,
            headers_of(def.response_variants, index)[header].0,
        )] == headers_of(def.response_variants, index)[header].1,
{
    let variants = def.response_variants;
    let n = variants.len();
    let list = sources_of(id, def);
    let k = header_position(id, variants, index as nat, header as nat);
    let named = headers_of(variants, index)[header].0;
    header_stands_at(id, variants, n, index as nat, header as nat);
    assert forall|j: int| 0 <= j < list.len() && j != k implies (#[trigger] list[j]).0
        != list[k].0 by {
        entry_kind(id, variants, n, j);
        if is_body_entry(id, variants, n, j) {
            let other = choose|other: nat|
                other < n && j == #[trigger] body_position(id, variants, other);
            body_stands_at(id, variants, n, other);
            crate::naming::header_name_is_no_body_name(id, index as nat, named, id, other);
        } else {
            let (v, w) = choose|v: nat, w: nat|
                v < n && w < headers_of(variants, v as int).len() && j == #[trigger] header_position(
                    id,
                    variants,
                    v,
                    w,
                );
            header_stands_at(id, variants, n, v, w);
            let there = headers_of(variants, v as int)[w as int].0;
            if list[j].0 == list[k].0 {
                crate::naming::header_name_fixes_variant(id, v, there, index as nat, named);
                crate::naming::header_name_fixes_header(id, v, there, named);
                assert(variant_headers_distinct(variants[index]));
                assert(w == header);
            }
        }
    }
    source_of_single_name(list, k);
}

/// The templates of one variant, each with its name.
fn sources_of_variant(id: u128, index: usize, v: &ResponseVariant) -> (r: Vec<(String, String)>)
    ensures
        pairs_view(r@) == variant_sources(id, index as nat, v@),
{
    let mut out: Vec<(String, String)> = Vec::new();
    out.push((body_template_name(id, index), v.response.clone()));
    match &v.response_headers {
        Some(headers) => {
            let ghost hs = v@.response_headers.unwrap();
            let mut j: usize = 0;
            while j < headers.len()
                invariant
                    j <= headers.len(),
                    v.response_headers == Some(*headers),
                    hs == v@.response_headers.unwrap(),
                    out.len() == j + 1,
                    out@[0].0@ == template_name(id, index as nat),
                    out@[0].1@ == v.response@,
                    hs == headers_view(headers@),
                    forall|m: int|
                        1 <= m <= j ==> (#[trigger] out@[m]).0@ == header_template_name(
                            id,
                            index as nat,
                            hs[m - 1].0,
                        ) && out@[m].1@ == hs[m - 1].1,
                decreases headers.len() - j,
            {
                out.push((header_name(id, index, headers[j].0.as_str()), headers[j].1.clone()));
                j += 1;
            }
            assert(pairs_view(out@) =~= variant_sources(id, index as nat, v@));
        },
        None => {
            assert(pairs_view(out@) =~= variant_sources(id, index as nat, v@));
        },
    }
    out
}

/// All templates of `mock` as stored under `id`, each with its name.
pub fn template_sources(id: u128, mock: &MockAPI) -> (r: Vec<(String, String)>)
    ensures
        pairs_view(r@) == sources_of(id, mock@),
{
    let ghost vs = variants_view(mock.response_variants@);
    let mut out: Vec<(String, String)> = Vec::new();
    let mut i: usize = 0;
    assert(pairs_view(out@) =~= sources_upto(id, vs, 0));
    while i < mock.response_variants.len()
        invariant
            i <= mock.response_variants.len(),
            vs == variants_view(mock.response_variants@),
            pairs_view(out@) == sources_upto(id, vs, i as nat),
        decreases mock.response_variants.len() - i,
    {
        let mut part = sources_of_variant(id, i, &mock.response_variants[i]);
        let ghost before = out@;
        let ghost added = part@;
        let mut k: usize = 0;
        while k < part.len()
            invariant
                k <= part.len(),
                part@ == added,
                out.len() == before.len() + k,
                forall|m: int| 0 <= m < before.len() ==> out@[m] == before[m],
                forall|m: int|
                    before.len() <= m < before.len() + k ==> (#[trigger] out@[m]).0@ == added[m
                        - before.len()].0@ && out@[m].1@ == added[m - before.len()].1@,
            decreases part.len() - k,
        {
            out.push((part[k].0.clone(), part[k].1.clone()));
            k += 1;
        }
        assert(pairs_view(out@) =~= pairs_view(before) + pairs_view(added));
        i += 1;
    }
    out
}

/// Tests whether a definition is accepted.
pub fn templates_accepted(mock: &MockAPI) -> (r: bool)
    ensures
        r == mock_accepted(mock@),
{
    if !mock.has_distinct_headers() {
        return false;
    }
    let sources = template_sources(0, mock);
    compile_all(&sources).is_ok()
}

/// Compiles every source of the list. The list is accepted as a whole or
/// not at all: one source that does not compile, or that includes another
/// template, fails the call. The compiled templates come back in reverse:
/// the last of them belongs to the first source.
pub(crate) fn compile_all(sources: &Vec<(String, String)>) -> (r: Result<Vec<Template>, MockError>)
    ensures
        r is Ok <==> all_accepted(pairs_view(sources@)),
        r is Ok ==> r.unwrap().len() == sources.len() && forall|k: int|
            0 <= k < sources.len() ==> template_source(#[trigger] r.unwrap()[k]) == sources[
                sources.len() - 1 - k].1@,
        r is Err ==> r == Err::<Vec<Template>, MockError>(MockError::TemplateSyntaxError),
{
    let ghost all = pairs_view(sources@);
    let mut out: Vec<Template> = Vec::new();
    let mut n: usize = sources.len();
    while n > 0
        invariant
            n <= sources.len(),
            all == pairs_view(sources@),
            out.len() == sources.len() - n,
            forall|k: int| n <= k < sources.len() ==> accepted(#[trigger] all[k].1),
            forall|k: int|
                0 <= k < out.len() ==> template_source(#[trigger] out[k]) == sources[sources.len()
                    - 1 - k].1@,
        decreases n,
    {
        n -= 1;
        match TemplateEngine::prepare(sources[n].0.as_str(), sources[n].1.as_str()) {
            Ok(template) => {
                out.push(template);
            },
            Err(_) => {
                assert(!accepted(all[n as int].1));
                return Err(MockError::TemplateSyntaxError);
            },
        }
    }
    Ok(out)
}

/// Holds each compiled template under the name of its source, from the
/// first source to the last. The templates are those that `compile_all`
/// gave for the sources.
pub(crate) fn install_all(
    engine: &mut TemplateEngine,
    sources: &Vec<(String, String)>,
    templates: Vec<Template>,
)
    requires
        old(engine).wf(),
        all_accepted(pairs_view(sources@)),
        templates.len() == sources.len(),
        forall|k: int|
            0 <= k < sources.len() ==> template_source(#[trigger] templates[k]) == sources[
                sources.len() - 1 - k].1@,
    ensures
        final(engine)@ == old(engine)@.union_prefer_right(source_map(pairs_view(sources@))),
        final(engine).helpers() == old(engine).helpers(),
        final(engine).wf(),
{
    let ghost all = pairs_view(sources@);
    let ghost compiled = templates@;
    let mut templates = templates;
    let mut i: usize = 0;
    assert(engine@ =~= old(engine)@.union_prefer_right(source_map(all.take(0))));
    while i < sources.len()
        invariant
            i <= sources.len(),
            all == pairs_view(sources@),
            all_accepted(all),
            compiled.len() == sources.len(),
            templates@ == compiled.take(sources.len() - i),
            forall|k: int|
                0 <= k < sources.len() ==> template_source(#[trigger] compiled[k]) == sources[
                    sources.len() - 1 - k].1@,
            engine.wf(),
            engine.helpers() == old(engine).helpers(),
            engine@ == old(engine)@.union_prefer_right(source_map(all.take(i as int))),
        decreases sources.len() - i,
    {
        let template = templates.pop().unwrap();
        proof {
            assert(template == compiled[sources.len() - 1 - i]);
            assert(template_source(template) == all[i as int].1);
            assert(accepted(all[i as int].1));
            assert(all.take(i + 1).drop_last() =~= all.take(i as int));
            assert(all.take(i + 1).last() == all[i as int]);
        }
        engine.install(sources[i].0.as_str(), template);
        assert(engine@ =~= old(engine)@.union_prefer_right(source_map(all.take(i + 1))));
        assert(templates@ =~= compiled.take(sources.len() - i - 1));
        i += 1;
    }
    assert(all.take(sources.len() as int) =~= all);
}

/// Drops the template held under the name of each source.
pub(crate) fn remove_all(engine: &mut TemplateEngine, sources: &Vec<(String, String)>)
    ensures
        final(engine)@ == old(engine)@.remove_keys(name_set(pairs_view(sources@))),
        final(engine).helpers() == old(engine).helpers(),
        old(engine).wf() ==> final(engine).wf(),
{
    let ghost all = pairs_view(sources@);
    let mut i: usize = 0;
    while i < sources.len()
        invariant
            i <= sources.len(),
            all == pairs_view(sources@),
            engine.helpers() == old(engine).helpers(),
            old(engine).wf() ==> engine.wf(),
            forall|name: Seq<char>|
                engine@.dom().contains(name) <==> old(engine)@.dom().contains(name) && !(exists|
                    k: int,
                | 0 <= k < i && all[k].0 == name),
            forall|name: Seq<char>|
                engine@.dom().contains(name) ==> engine@[name] == old(engine)@[name],
        decreases sources.len() - i,
    {
        engine.unregister(sources[i].0.as_str());
        i += 1;
        assert forall|name: Seq<char>|
            engine@.dom().contains(name) <==> old(engine)@.dom().contains(name) && !(exists|
                k: int,
            | 0 <= k < i && all[k].0 == name) by {
            if name == all[i - 1].0 {
                assert(0 <= i - 1 < i && all[i - 1].0 == name);
            }
        }
    }
    assert(engine@ =~= old(engine)@.remove_keys(name_set(all)));
}

} // verus!
