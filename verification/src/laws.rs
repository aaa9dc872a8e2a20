//! Laws that relate the operations of the library to each other.

use crate::models::MockView;
use crate::registry::{lemma_remove_consistent, RegistryView};
use crate::state::AppStateView;
use crate::templates::mock_accepted;
use vstd::prelude::*;

verus! {

/// Last write wins. Against a stored definition, a copy from a peer that is
/// not strictly newer leaves the state as it is; one that is strictly newer,
/// and that is accepted as a definition, takes its place under the same
/// identifier.
pub proof fn last_write_wins(s: AppStateView, id: u128, remote: MockView)
    requires
        s.registry.mocks.dom().contains(id),
    ensures
        !remote.timestamp.later_than(s.registry.mocks[id].timestamp) ==> s.merged(id, remote)
            == s,
        remote.timestamp.later_than(s.registry.mocks[id].timestamp) && mock_accepted(remote)
            ==> s.merged(id, remote).registry.mocks[id] == (MockView { id: Some(id), ..remote }),
{
}

/// The timestamp of a stored definition never moves back under the merge
/// rule: after a merge it is the one before, or a strictly later one.
pub proof fn merge_moves_forward(s: AppStateView, id: u128, remote: MockView)
    requires
        s.registry.mocks.dom().contains(id),
    ensures
        s.merged(id, remote).registry.mocks.dom().contains(id),
        s.merged(id, remote).registry.mocks[id].timestamp == s.registry.mocks[id].timestamp
            || s.merged(id, remote).registry.mocks[id].timestamp.later_than(
            s.registry.mocks[id].timestamp,
        ),
{
}

/// Merging the same copy a second time changes nothing.
pub proof fn merge_is_idempotent(s: AppStateView, id: u128, remote: MockView)
    ensures
        s.merged(id, remote).merged(id, remote) == s.merged(id, remote),
{
}

/// Of two copies of one definition with different timestamps, both with
/// accepted as definitions, the later one is stored whichever comes first.
pub proof fn merge_order_does_not_matter(s: AppStateView, id: u128, a: MockView, b: MockView)
    requires
        mock_accepted(a),
        mock_accepted(b),
        b.timestamp.later_than(a.timestamp),
    ensures
        s.merged(id, a).merged(id, b).registry.mocks[id].timestamp == s.merged(id, b).merged(
            id,
            a,
        ).registry.mocks[id].timestamp,
        s.merged(id, a).merged(id, b).registry.mocks.dom().contains(id),
        !s.registry.mocks.dom().contains(id) ==> s.merged(id, a).merged(id, b).registry.mocks[id]
            == (MockView { id: Some(id), ..b }) && s.merged(id, b).merged(id, a).registry.mocks[id]
            == (MockView { id: Some(id), ..b }),
{
}

/// A merge touches no definition but the one under its identifier.
pub proof fn merge_is_local(s: AppStateView, id: u128, remote: MockView, other: u128)
    requires
        other != id,
    ensures
        s.merged(id, remote).registry.mocks.dom().contains(other)
            == s.registry.mocks.dom().contains(other),
        s.registry.mocks.dom().contains(other) ==> s.merged(id, remote).registry.mocks[other]
            == s.registry.mocks[other],
{
}

/// Deleting twice. After a definition has been deleted, nothing is stored
/// under its identifier and no name leads to it; the registry is still
/// consistent; and deleting under the same identifier again changes nothing.
pub proof fn delete_is_idempotent(s: AppStateView, id: u128)
    requires
        s.registry.consistent(),
    ensures
        !s.deleted(id).registry.mocks.dom().contains(id),
        forall|name: Seq<char>| #[trigger]
            s.deleted(id).registry.names.dom().contains(name) ==> s.deleted(id).registry.names[name]
                != id,
        s.deleted(id).registry.consistent(),
        s.deleted(id).deleted(id) == s.deleted(id),
{
    lemma_remove_consistent(s.registry, id);
    crate::routes::deleting_nothing(s.deleted(id), id);
}

/// A name leads to the definition that was stored under it last.
pub proof fn name_leads_to_last_upsert(r: RegistryView, id: u128, def: MockView)
    ensures
        r.upserted(id, def).by_name(def.api_name) == Some(MockView { id: Some(id), ..def }),
{
}

/// In a sound state the body template of every variant of every stored
/// definition is held under its name, compiled from the variant's
/// response: a definition that replaces another brings its own templates.
pub proof fn body_templates_are_held(s: AppStateView, id: u128, index: int)
    requires
        s.sound(),
        s.registry.mocks.dom().contains(id),
        0 <= index < s.registry.mocks[id].response_variants.len(),
    ensures
        s.templates.dom().contains(crate::naming::template_name(id, index as nat)),
        s.templates[crate::naming::template_name(id, index as nat)]
            == s.registry.mocks[id].response_variants[index].response,
{
    crate::templates::body_source_is_response(id, s.registry.mocks[id], index);
}

/// In a sound state the template of every header of every variant of every
/// stored definition is held under its name, compiled from the header's
/// template.
pub proof fn header_templates_are_held(s: AppStateView, id: u128, index: int, header: int)
    requires
        s.sound(),
        s.registry.mocks.dom().contains(id),
        0 <= index < s.registry.mocks[id].response_variants.len(),
        0 <= header < crate::templates::headers_of(
            s.registry.mocks[id].response_variants,
            index,
        ).len(),
    ensures
        s.templates.dom().contains(
            crate::naming::header_template_name(
                id,
                index as nat,
                crate::templates::headers_of(s.registry.mocks[id].response_variants, index)[header].0,
            ),
        ),
        s.templates[crate::naming::header_template_name(
            id,
            index as nat,
            crate::templates::headers_of(s.registry.mocks[id].response_variants, index)[header].0,
        )] == crate::templates::headers_of(s.registry.mocks[id].response_variants, index)[header].1,
{
    crate::templates::header_source_is_template(id, s.registry.mocks[id], index, header);
}

/// Condition filtering. A variant whose condition still holds an opening
/// brace, once the entries of the context have been put in, takes no part
/// in the draw: no number selects it.
pub proof fn unresolved_variant_is_never_selected(
    variants: Seq<crate::models::VariantView>,
    fields: Map<Seq<char>, serde_json::Value>,
    i: int,
)
    requires
        0 <= i < variants.len(),
        variants[i].condition is Some,
        crate::condition::expression_of(variants[i].condition.unwrap(), fields).contains('{'),
    ensures
        !crate::condition::passes_of(variants, fields)[i],
        !crate::selector::may_select(variants, crate::condition::passes_of(variants, fields), i),
{
    crate::condition::unresolved_condition_does_not_hold(variants[i].condition.unwrap(), fields);
    crate::selector::may_select_means_weight(
        variants,
        crate::condition::passes_of(variants, fields),
        i,
    );
}

} // verus!
