//! Conditions of response variants: an arithmetic expression with
//! placeholders, which holds when it evaluates to a number other than zero.
//!
//! A placeholder is the name of a context entry between double braces. Each
//! entry that is a string or a number is put in the place of its placeholder,
//! entry after entry in the order of the context; what results is evaluated
//! by `meval`. An expression that is blank or does not evaluate does not
//! hold.

use crate::context::{
    ascending_list_is_the_order, context_fields, context_get, context_names, json_number,
    json_text, name_order,
    value_number, value_text,
};
use crate::models::{variants_view, ResponseVariant, VariantView};
use crate::text::{
    append_chars, chars_of, occurs_in, replace_all, replaced, replaced_without_occurrence,
    string_of,
};
use vstd::prelude::*;

verus! {

/// The bits of the 64-bit floating-point number that the expression `expr`
/// evaluates to, or nothing where it does not evaluate.
pub uninterp spec fn expression_bits(expr: Seq<char>) -> Option<u64>;

/// The character is one of the four that the evaluator takes for white
/// space: blank, tab, carriage return and line feed.
pub open spec fn is_space(c: char) -> bool {
    c == ' ' || c == '\t' || c == '\r' || c == '\n'
}

/// The text is not empty and holds white space only.
pub open spec fn is_blank(text: Seq<char>) -> bool {
    text.len() > 0 && forall|i: int| 0 <= i < text.len() ==> is_space(#[trigger] text[i])
}

/// What the evaluation of the text `expr` gives: nothing for a blank text,
/// which is not handed to the evaluator, and nothing for a text that holds
/// an opening brace, which no expression does; else what the evaluator
/// gives.
pub open spec fn evaluation(expr: Seq<char>) -> Option<u64> {
    if is_blank(expr) || expr.contains('{') {
        None
    } else {
        expression_bits(expr)
    }
}

/// `meval::eval_str`: evaluates `expr` with the built-in constants and
/// functions, and hands the number back as its bits. The number depends on
/// the text alone. A text that holds an opening brace does not evaluate:
/// no token of an expression begins with one. The tokenizer of `meval`
/// panics on a text that is made of white space only, which `requires`
/// leaves out.
#[verifier::external_body]
pub(crate) fn evaluate_expression(expr: &str) -> (r: Option<u64>)
    requires
        !is_blank(expr@),
    ensures
        r == expression_bits(expr@),
        expr@.contains('{') ==> r is None,
{
    meval::eval_str(expr).ok().map(|number| number.to_bits())
}

/// The placeholder that stands for the context entry `name`.
pub open spec fn placeholder(name: Seq<char>) -> Seq<char> {
    seq!['{', '{'] + name + seq!['}', '}']
}

/// The text that stands for a JSON value in an expression: the content of a
/// string, the decimal text of a number, nothing for any other value.
pub open spec fn scalar_of(v: serde_json::Value) -> Option<Seq<char>> {
    if json_text(v) is Some {
        json_text(v)
    } else {
        json_number(v)
    }
}

/// `text` after the entries named by `names` have been put in the place of
/// their placeholders, one entry after the other.
pub open spec fn substituted(
    text: Seq<char>,
    names: Seq<Seq<char>>,
    fields: Map<Seq<char>, serde_json::Value>,
) -> Seq<char>
    decreases names.len(),
{
    if names.len() == 0 {
        text
    } else {
        let before = substituted(text, names.drop_last(), fields);
        let name = names.last();
        if fields.dom().contains(name) && scalar_of(fields[name]) is Some {
            replaced(before, placeholder(name), scalar_of(fields[name]).unwrap())
        } else {
            before
        }
    }
}

/// Where the placeholder of none of the names occurs in a text, putting the
/// entries in leaves the text as it is.
pub proof fn substituted_without_placeholders(
    text: Seq<char>,
    names: Seq<Seq<char>>,
    fields: Map<Seq<char>, serde_json::Value>,
)
    requires
        forall|i: int| 0 <= i < names.len() ==> !occurs_in(text, placeholder(#[trigger] names[i])),
    ensures
        substituted(text, names, fields) == text,
    decreases names.len(),
{
    if names.len() > 0 {
        let before = names.drop_last();
        assert forall|i: int| 0 <= i < before.len() implies !occurs_in(
            text,
            placeholder(#[trigger] before[i]),
        ) by {
            assert(before[i] == names[i]);
        }
        substituted_without_placeholders(text, before, fields);
        let name = names.last();
        assert(name == names[names.len() - 1]);
        if fields.dom().contains(name) && scalar_of(fields[name]) is Some {
            replaced_without_occurrence(
                text,
                placeholder(name),
                scalar_of(fields[name]).unwrap(),
            );
        }
    }
}

/// A condition that still holds an opening brace once the entries of the
/// context have been put in does not hold. So it is with a condition that
/// holds a placeholder while no entry of the context has its placeholder in
/// it: a condition that refers only to fields that the request does not
/// bring.
pub proof fn unresolved_condition_does_not_hold(
    condition: Seq<char>,
    fields: Map<Seq<char>, serde_json::Value>,
)
    ensures
        expression_of(condition, fields).contains('{') ==> !condition_holds(condition, fields),
        condition.contains('{') && (forall|i: int|
            0 <= i < name_order(fields.dom()).len() ==> !occurs_in(
                condition,
                placeholder(#[trigger] name_order(fields.dom())[i]),
            )) ==> !condition_holds(condition, fields),
{
    if condition.contains('{') && (forall|i: int|
        0 <= i < name_order(fields.dom()).len() ==> !occurs_in(
            condition,
            placeholder(#[trigger] name_order(fields.dom())[i]),
        )) {
        substituted_without_placeholders(condition, name_order(fields.dom()), fields);
    }
}

/// A floating-point number with these bits is not zero: some bit other than
/// the sign is set.
pub open spec fn bits_nonzero(bits: u64) -> bool {
    bits & 0x7fff_ffff_ffff_ffff != 0
}

/// What an evaluation says of a condition: it holds when a number came back
/// that is not zero.
pub open spec fn verdict(evaluated: Option<u64>) -> bool {
    match evaluated {
        Some(bits) => bits_nonzero(bits),
        None => false,
    }
}

/// The expression that `condition` becomes in a context that holds
/// `fields`.
pub open spec fn expression_of(
    condition: Seq<char>,
    fields: Map<Seq<char>, serde_json::Value>,
) -> Seq<char> {
    substituted(condition, name_order(fields.dom()), fields)
}

/// The condition holds in the context.
pub open spec fn condition_holds(
    condition: Seq<char>,
    fields: Map<Seq<char>, serde_json::Value>,
) -> bool {
    verdict(evaluation(expression_of(condition, fields)))
}

/// The variant takes part in the draw: it has no condition, or its
/// condition holds.
pub open spec fn variant_passes(v: VariantView, fields: Map<Seq<char>, serde_json::Value>) -> bool {
    match v.condition {
        Some(c) => condition_holds(c, fields),
        None => true,
    }
}

/// For each variant, whether it takes part in the draw.
pub open spec fn passes_of(
    variants: Seq<VariantView>,
    fields: Map<Seq<char>, serde_json::Value>,
) -> Seq<bool> {
    Seq::new(variants.len(), |i: int| variant_passes(variants[i], fields))
}

/// Reads an evaluation: the condition holds when a number came back that is
/// not zero.
pub fn holds(evaluated: Option<u64>) -> (r: bool)
    ensures
        r == verdict(evaluated),
{
    match evaluated {
        Some(bits) => bits & 0x7fff_ffff_ffff_ffff != 0,
        None => false,
    }
}

/// The text that stands for a JSON value in an expression.
fn scalar_text(v: &serde_json::Value) -> (r: Option<Vec<char>>)
    ensures
        r is Some <==> scalar_of(*v) is Some,
        r is Some ==> r.unwrap()@ == scalar_of(*v).unwrap(),
{
    match value_text(v) {
        Some(t) => Some(chars_of(t.as_str())),
        None => match value_number(v) {
            Some(n) => Some(chars_of(n.as_str())),
            None => None,
        },
    }
}

/// Puts the entries of the context in the place of their placeholders.
pub fn condition_expression(
    condition: &str,
    ctx: &serde_json::Map<String, serde_json::Value>,
) -> (r: String)
    ensures
        r@ == expression_of(condition@, context_fields(*ctx)),
{
    let names = context_names(ctx);
    let ghost order = name_order(context_fields(*ctx).dom());
    proof {
        let listed = Seq::new(names.len() as nat, |i: int| names[i]@);
        ascending_list_is_the_order(listed, context_fields(*ctx).dom());
        assert forall|k: int| 0 <= k < names.len() implies (#[trigger] names[k])@ == order[k] by {
            assert(listed[k] == names[k]@);
        }
    }
    let ghost fields = context_fields(*ctx);
    let mut text = chars_of(condition);
    let mut i: usize = 0;
    while i < names.len()
        invariant
            i <= names.len(),
            names.len() == order.len(),
            order == name_order(context_fields(*ctx).dom()),
            fields == context_fields(*ctx),
            forall|k: int| 0 <= k < names.len() ==> (#[trigger] names[k])@ == order[k],
            text@ == substituted(condition@, order.take(i as int), fields),
        decreases names.len() - i,
    {
        proof {
            assert(order.take(i + 1).drop_last() =~= order.take(i as int));
            assert(order.take(i + 1).last() == order[i as int]);
        }
        match context_get(ctx, names[i].as_str()) {
            Some(value) => {
                match scalar_text(&value) {
                    Some(with) => {
                        let mut pat: Vec<char> = Vec::new();
                        pat.push('{');
                        pat.push('{');
                        let name = chars_of(names[i].as_str());
                        append_chars(&mut pat, &name);
                        pat.push('}');
                        pat.push('}');
                        assert(pat@ =~= placeholder(order[i as int]));
                        text = replace_all(&text, &pat, &with);
                    },
                    None => {},
                }
            },
            None => {},
        }
        i += 1;
    }
    assert(order.take(names.len() as int) =~= order);
    string_of(&text)
}

/// Tests whether a text is not empty and holds white space only.
pub fn blank(text: &Vec<char>) -> (r: bool)
    ensures
        r == is_blank(text@),
{
    if text.len() == 0 {
        return false;
    }
    let mut i: usize = 0;
    while i < text.len()
        invariant
            i <= text.len(),
            forall|k: int| 0 <= k < i ==> is_space(#[trigger] text@[k]),
        decreases text.len() - i,
    {
        let c = text[i];
        if !(c == ' ' || c == '\t' || c == '\r' || c == '\n') {
            return false;
        }
        i += 1;
    }
    true
}

/// Evaluates the text of an expression: the bits of its number, or nothing
/// where it is blank or does not evaluate.
pub fn evaluate(expr: &str) -> (r: Option<u64>)
    ensures
        r == evaluation(expr@),
{
    let text = chars_of(expr);
    if blank(&text) {
        None
    } else {
        evaluate_expression(expr)
    }
}

/// Evaluates a condition in a context: whether it holds, or nothing where
/// the expression is blank or does not evaluate.
pub fn evaluate_condition(
    condition: &str,
    data: &serde_json::Map<String, serde_json::Value>,
) -> (r: Option<bool>)
    ensures
        r is Some <==> evaluation(expression_of(condition@, context_fields(*data))) is Some,
        r is Some ==> r.unwrap() == condition_holds(condition@, context_fields(*data)),
{
    let expr = condition_expression(condition, data);
    let evaluated = evaluate(expr.as_str());
    match evaluated {
        Some(_) => Some(holds(evaluated)),
        None => None,
    }
}

/// Tests each variant's condition in the context. A condition that does not
/// evaluate counts as one that does not hold.
pub fn passing_variants(
    variants: &Vec<ResponseVariant>,
    ctx: &serde_json::Map<String, serde_json::Value>,
) -> (r: Vec<bool>)
    ensures
        r@ == passes_of(variants_view(variants@), context_fields(*ctx)),
{
    let ghost vs = variants_view(variants@);
    let mut out: Vec<bool> = Vec::new();
    let mut i: usize = 0;
    while i < variants.len()
        invariant
            i <= variants.len(),
            vs == variants_view(variants@),
            out.len() == i,
            forall|k: int| 0 <= k < i ==> out@[k] == variant_passes(vs[k], context_fields(*ctx)),
        decreases variants.len() - i,
    {
        let pass = match &variants[i].condition {
            Some(c) => match evaluate_condition(c.as_str(), ctx) {
                Some(b) => b,
                None => false,
            },
            None => true,
        };
        out.push(pass);
        i += 1;
    }
    assert(out@ =~= passes_of(vs, context_fields(*ctx)));
    out
}

} // verus!
