//! The variant selector: among the variants whose condition holds, one is
//! picked with a probability proportional to its weight.

use crate::chance::random_between;
use crate::condition::{passes_of, passing_variants};
use crate::context::context_fields;
use crate::errors::MockError;
use crate::models::{variants_view, ResponseVariant, VariantView};
use vstd::prelude::*;

verus! {

/// The weight that variant `i` brings to the draw: its own weight when it
/// passed its condition, nothing otherwise.
pub open spec fn share(variants: Seq<VariantView>, passes: Seq<bool>, i: int) -> nat {
    if 0 <= i < variants.len() && i < passes.len() && passes[i] {
        variants[i].weight as nat
    } else {
        0
    }
}

/// The summed shares of the first `n` variants.
pub open spec fn weight_before(variants: Seq<VariantView>, passes: Seq<bool>, n: int) -> nat
    decreases n,
{
    if n <= 0 {
        0
    } else {
        weight_before(variants, passes, n - 1) + share(variants, passes, n - 1)
    }
}

/// The summed shares of all variants.
pub open spec fn total_weight(variants: Seq<VariantView>, passes: Seq<bool>) -> nat {
    weight_before(variants, passes, variants.len() as int)
}

/// Variant `i` is the one that the number `draw` selects: it passed, and
/// `draw` falls into the stretch of numbers that belongs to it when the
/// shares are laid end to end in declaration order.
pub open spec fn selects(variants: Seq<VariantView>, passes: Seq<bool>, draw: nat, i: int) -> bool {
    &&& 0 <= i < variants.len()
    &&& i < passes.len()
    &&& passes[i]
    &&& weight_before(variants, passes, i) <= draw < weight_before(variants, passes, i + 1)
}

/// Some number below the total weight selects variant `i`.
pub open spec fn may_select(variants: Seq<VariantView>, passes: Seq<bool>, i: int) -> bool {
    exists|draw: nat|
        draw < total_weight(variants, passes) && #[trigger] selects(variants, passes, draw, i)
}

/// The summed shares never decrease along the list.
pub proof fn weight_before_grows(variants: Seq<VariantView>, passes: Seq<bool>, m: int, n: int)
    requires
        m <= n,
    ensures
        weight_before(variants, passes, m) <= weight_before(variants, passes, n),
    decreases n - m,
{
    if m < n {
        weight_before_grows(variants, passes, m, n - 1);
    }
}

/// The summed shares of `n` variants stay under `n` times the largest weight.
pub proof fn weight_before_bounded(variants: Seq<VariantView>, passes: Seq<bool>, n: int)
    requires
        0 <= n,
    ensures
        weight_before(variants, passes, n) <= n * 0xffff_ffff,
    decreases n,
{
    if n > 0 {
        weight_before_bounded(variants, passes, n - 1);
    }
}

/// The variants that can be selected are those that passed their condition
/// and have weight; each owns as many numbers of the draw as its weight.
pub proof fn may_select_means_weight(variants: Seq<VariantView>, passes: Seq<bool>, i: int)
    requires
        passes.len() == variants.len(),
    ensures
        may_select(variants, passes, i) <==> (0 <= i < variants.len() && passes[i]
            && variants[i].weight > 0),
        0 <= i < variants.len() ==> weight_before(variants, passes, i + 1) - weight_before(
            variants,
            passes,
            i,
        ) == share(variants, passes, i),
{
    if 0 <= i < variants.len() && passes[i] && variants[i].weight > 0 {
        let draw = weight_before(variants, passes, i);
        weight_before_grows(variants, passes, i + 1, variants.len() as int);
        assert(selects(variants, passes, draw, i));
    }
}

/// A number selects at most one variant.
pub proof fn selection_is_unique(
    variants: Seq<VariantView>,
    passes: Seq<bool>,
    draw: nat,
    i: int,
    j: int,
)
    requires
        selects(variants, passes, draw, i),
        selects(variants, passes, draw, j),
    ensures
        i == j,
{
    if i < j {
        weight_before_grows(variants, passes, i + 1, j);
    } else if j < i {
        weight_before_grows(variants, passes, j + 1, i);
    }
}

/// Every number below the total weight selects a variant, and no other
/// number does: each passing variant owns as many numbers as its weight.
pub proof fn selection_exists(variants: Seq<VariantView>, passes: Seq<bool>, draw: nat)
    requires
        passes.len() == variants.len(),
    ensures
        draw < total_weight(variants, passes) <==> exists|i: int|
            selects(variants, passes, draw, i),
{
    if draw < total_weight(variants, passes) {
        let i = first_beyond(variants, passes, draw, variants.len() as int);
        assert(selects(variants, passes, draw, i));
    } else {
        assert forall|i: int| !selects(variants, passes, draw, i) by {
            if selects(variants, passes, draw, i) {
                weight_before_grows(variants, passes, i + 1, variants.len() as int);
            }
        }
    }
}

/// The first index whose cumulative weight goes beyond `draw`.
proof fn first_beyond(variants: Seq<VariantView>, passes: Seq<bool>, draw: nat, n: int) -> (i:
    int)
    requires
        0 <= n <= variants.len(),
        passes.len() == variants.len(),
        draw < weight_before(variants, passes, n),
    ensures
        selects(variants, passes, draw, i),
        i < n,
    decreases n,
{
    if draw < weight_before(variants, passes, n - 1) {
        first_beyond(variants, passes, draw, n - 1)
    } else {
        n - 1
    }
}

/// The summed weight of the variants that passed.
pub fn passing_weight(variants: &Vec<ResponseVariant>, passes: &Vec<bool>) -> (total: u128)
    requires
        passes.len() == variants.len(),
    ensures
        total == total_weight(variants_view(variants@), passes@),
{
    let ghost vs = variants_view(variants@);
    let mut total: u128 = 0;
    let mut i: usize = 0;
    while i < variants.len()
        invariant
            i <= variants.len(),
            passes.len() == variants.len(),
            vs == variants_view(variants@),
            total == weight_before(vs, passes@, i as int),
        decreases variants.len() - i,
    {
        proof {
            weight_before_bounded(vs, passes@, i as int);
            assert(i * 0xffff_ffff <= 0xffff_ffff_ffff_ffff * 0xffff_ffff) by (nonlinear_arith)
                requires
                    i <= 0xffff_ffff_ffff_ffff,
            ;
        }
        if passes[i] {
            total = total + variants[i].weight as u128;
        }
        i += 1;
    }
    total
}

/// Picks the variant that `draw` selects: walking the passing variants in
/// declaration order, the first one whose cumulative weight exceeds `draw`.
/// There is one exactly when `draw` is below the total passing weight.
pub fn choose_by_draw(variants: &Vec<ResponseVariant>, passes: &Vec<bool>, draw: u128) -> (r:
    Option<usize>)
    requires
        passes.len() == variants.len(),
    ensures
        r is Some <==> draw < total_weight(variants_view(variants@), passes@),
        r is Some ==> selects(variants_view(variants@), passes@, draw as nat, r.unwrap() as int),
{
    let ghost vs = variants_view(variants@);
    let mut cumulative: u128 = 0;
    let mut i: usize = 0;
    while i < variants.len()
        invariant
            i <= variants.len(),
            passes.len() == variants.len(),
            vs == variants_view(variants@),
            cumulative == weight_before(vs, passes@, i as int),
            cumulative <= draw,
        decreases variants.len() - i,
    {
        proof {
            weight_before_bounded(vs, passes@, i as int);
            assert(i * 0xffff_ffff <= 0xffff_ffff_ffff_ffff * 0xffff_ffff) by (nonlinear_arith)
                requires
                    i <= 0xffff_ffff_ffff_ffff,
            ;
        }
        if passes[i] {
            cumulative = cumulative + variants[i].weight as u128;
            if draw < cumulative {
                proof {
                    weight_before_grows(vs, passes@, i + 1, variants.len() as int);
                }
                return Some(i);
            }
        }
        i += 1;
    }
    None
}

/// Draws a number below the total passing weight and picks the variant it
/// selects. Nothing is picked exactly when no passing variant has weight.
pub fn choose_at_random(variants: &Vec<ResponseVariant>, passes: &Vec<bool>) -> (r: Option<usize>)
    requires
        passes.len() == variants.len(),
    ensures
        r is Some <==> total_weight(variants_view(variants@), passes@) > 0,
        r is Some ==> may_select(variants_view(variants@), passes@, r.unwrap() as int),
{
    let total = passing_weight(variants, passes);
    if total == 0 {
        return None;
    }
    let draw = random_between(0, total - 1);
    let r = choose_by_draw(variants, passes, draw);
    assert(r is Some ==> selects(variants_view(variants@), passes@, draw as nat, r.unwrap() as int));
    r
}

/// Selects the response variant for a request: the variants whose condition
/// holds in the context take part, each with its weight, and one of them is
/// drawn. The selection fails exactly when no variant that takes part has
/// weight.
pub fn select_response_variant(
    variants: &Vec<ResponseVariant>,
    data: &serde_json::Map<String, serde_json::Value>,
) -> (r: Result<usize, MockError>)
    ensures
        r is Ok <==> total_weight(
            variants_view(variants@),
            passes_of(variants_view(variants@), context_fields(*data)),
        ) > 0,
        r is Ok ==> may_select(
            variants_view(variants@),
            passes_of(variants_view(variants@), context_fields(*data)),
            r.unwrap() as int,
        ),
        r is Err ==> r == Err::<usize, MockError>(MockError::NoMatchingVariant),
{
    let passes = passing_variants(variants, data);
    match choose_at_random(variants, &passes) {
        Some(i) => Ok(i),
        None => Err(MockError::NoMatchingVariant),
    }
}

} // verus!
