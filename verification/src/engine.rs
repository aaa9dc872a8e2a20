//! The template engine: templates are compiled once under a name and
//! rendered against the context of each request.
//!
//! The engine is a `handlebars::Handlebars` registry behind the trusted
//! items of this file. Its model is the source of each compiled template
//! that it holds, by the name under which it holds it, and the helpers of
//! this library that it runs, each under its name.
//!
//! A template that includes another one is not accepted: two templates that
//! include each other would render without end.

use crate::errors::MockError;
use crate::text::chars_of;
use crate::utils::{helper_output, HelperKind, OrderedCounter};
use handlebars::{
    Context, Handlebars, Helper, HelperResult, Output, RenderContext, RenderError, Template,
};
use vstd::prelude::*;

verus! {

/// `handlebars::Handlebars`, the registry of templates and helpers, as an
/// opaque type.
#[verifier::external_type_specification]
#[verifier::external_body]
pub struct ExHandlebars<'reg>(Handlebars<'reg>);

/// `handlebars::Template`, a compiled template, as an opaque type.
#[verifier::external_type_specification]
#[verifier::external_body]
pub struct ExTemplate(Template);

/// What a registry holds of templates: for each name under which it holds
/// a compiled template, the source from which that template was compiled.
pub uninterp spec fn registered_templates(hb: Handlebars<'static>) -> Map<Seq<char>, Seq<char>>;

/// The source from which a template was compiled.
pub uninterp spec fn template_source(template: Template) -> Seq<char>;

/// The character may stand between the opening braces of a tag and the
/// mark of an inclusion: white space, the mark that trims white space, and
/// the mark of a block.
pub open spec fn may_precede_mark(c: char) -> bool {
    c == ' ' || c == '\t' || c == '\r' || c == '\n' || c == '~' || c == '#'
}

/// From position `at` on, the mark of an inclusion follows, with nothing
/// before it but what may stand there.
pub open spec fn mark_follows(source: Seq<char>, at: int) -> bool
    decreases source.len() - at,
{
    if at < 0 || at >= source.len() {
        false
    } else if source[at] == '>' {
        true
    } else if may_precede_mark(source[at]) {
        mark_follows(source, at + 1)
    } else {
        false
    }
}

/// A tag that reads as the inclusion of another template opens at position
/// `at`: two opening braces, and then the mark of an inclusion.
pub open spec fn inclusion_at(source: Seq<char>, at: int) -> bool {
    0 <= at && at + 1 < source.len() && source[at] == '{' && source[at + 1] == '{'
        && mark_follows(source, at + 2)
}

/// The source holds a tag that reads as the inclusion of another template.
pub open spec fn includes_partial(source: Seq<char>) -> bool {
    exists|at: int| inclusion_at(source, at)
}

/// The source is accepted as a template: it compiles and includes no other
/// template.
pub open spec fn accepted(source: Seq<char>) -> bool {
    template_compiles(source) && !includes_partial(source)
}

/// No source of the map includes another template.
pub open spec fn free_of_inclusions(held: Map<Seq<char>, Seq<char>>) -> bool {
    forall|name: Seq<char>| #[trigger] held.dom().contains(name) ==> !includes_partial(held[name])
}

/// The helpers of this library that a registry runs, each under the name
/// by which templates call it. Helpers of another make are not among them.
pub uninterp spec fn library_helpers(hb: Handlebars<'static>) -> Map<Seq<char>, HelperKind>;

/// The template source `source` is well-formed: it compiles.
pub uninterp spec fn template_compiles(source: Seq<char>) -> bool;

/// `Handlebars::new`: a registry with the built-in helpers of handlebars,
/// none of this library, and no template.
#[verifier::external_body]
pub(crate) fn registry_new() -> (hb: Handlebars<'static>)
    ensures
        registered_templates(hb) == (Map::<Seq<char>, Seq<char>>::empty()),
        library_helpers(hb) == (Map::<Seq<char>, HelperKind>::empty()),
{
    Handlebars::new()
}

/// `Template::compile_with_name`: compiles `source` for the name `name`;
/// nothing comes back for a source that does not compile. Whether the
/// source compiles depends on the source alone. The template that comes
/// back is compiled from `source`. The parser sets no limit to how deeply
/// the blocks of a source are nested, and neither does this item.
#[verifier::external_body]
pub(crate) fn compile_source(name: &str, source: &str) -> (r: Option<Template>)
    ensures
        r is Some <==> template_compiles(source@),
        r is Some ==> template_source(r.unwrap()) == source@,
{
    Template::compile_with_name(source, name.to_string()).ok()
}

/// `Handlebars::register_template`: afterwards the registry holds
/// `template` under `name`, in place of what it held there, and every other
/// template as before. The helpers stay as they are.
#[verifier::external_body]
pub(crate) fn registry_insert(hb: &mut Handlebars<'static>, name: &str, template: Template)
    ensures
        registered_templates(*final(hb)) == registered_templates(*old(hb)).insert(
            name@,
            template_source(template),
        ),
        library_helpers(*final(hb)) == library_helpers(*old(hb)),
{
    hb.register_template(name, template);
}

/// `Handlebars::unregister_template`: afterwards the registry holds no
/// template under `name`; the others stay, and so do the helpers.
#[verifier::external_body]
pub(crate) fn registry_remove(hb: &mut Handlebars<'static>, name: &str)
    ensures
        registered_templates(*final(hb)) == registered_templates(*old(hb)).remove(name@),
        library_helpers(*final(hb)) == library_helpers(*old(hb)),
{
    hb.unregister_template(name);
}

/// `Handlebars::clear_templates`: afterwards the registry holds no template.
/// The helpers stay as they are.
#[verifier::external_body]
pub(crate) fn registry_clear(hb: &mut Handlebars<'static>)
    ensures
        registered_templates(*final(hb)) == (Map::<Seq<char>, Seq<char>>::empty()),
        library_helpers(*final(hb)) == library_helpers(*old(hb)),
{
    hb.clear_templates();
}

/// `Handlebars::has_template`: whether the registry holds a template under
/// `name`.
#[verifier::external_body]
pub(crate) fn registry_has(hb: &Handlebars<'static>, name: &str) -> (r: bool)
    ensures
        r == registered_templates(*hb).dom().contains(name@),
{
    hb.has_template(name)
}

/// `Handlebars::register_helper`: afterwards the registry runs the helper
/// `kind` under `name`, in place of the helper that it ran under that name,
/// and every other helper as before. What the helper writes for a call in a
/// template is what `helper_output` gives for the first two parameters of
/// the call; where that is nothing, the rendering fails. The templates stay
/// as they are.
#[verifier::external_body]
pub(crate) fn registry_add_helper(
    hb: &mut Handlebars<'static>,
    name: &str,
    kind: HelperKind,
    counter: OrderedCounter,
)
    ensures
        registered_templates(*final(hb)) == registered_templates(*old(hb)),
        library_helpers(*final(hb)) == library_helpers(*old(hb)).insert(name@, kind),
{
    let shared = std::sync::Mutex::new(counter);
    hb.register_helper(name, Box::new(
        move |h: &Helper, _: &Handlebars, _: &Context, _: &mut RenderContext, out: &mut dyn Output| -> HelperResult {
            let first = h.param(0).map(|p| p.value());
            let second = h.param(1).map(|p| p.value());
            let text = helper_output(kind, &mut shared.lock().unwrap(), first, second);
            out.write(&text.ok_or_else(|| RenderError::new("helper failed"))?)?;
            Ok(())
        },
    ));
}

/// `Handlebars::render`: renders the template held under `name` against the
/// context. Where the registry holds none under that name the rendering
/// fails; what a rendering gives otherwise is left open, since helpers may
/// read the clock or draw random numbers. Nothing comes back from a
/// rendering that fails.
///
/// Two templates that include each other render without end, so `requires`
/// leaves out a registry that holds a template with an inclusion. The
/// renderer sets no limit to how deeply the blocks of a template are
/// nested, and neither does this item.
#[verifier::external_body]
pub(crate) fn registry_render(
    hb: &Handlebars<'static>,
    name: &str,
    ctx: &serde_json::Map<String, serde_json::Value>,
) -> (r: Option<String>)
    requires
        free_of_inclusions(registered_templates(*hb)),
    ensures
        !registered_templates(*hb).dom().contains(name@) ==> r is None,
{
    hb.render(name, ctx).ok()
}

/// The store of compiled templates.
pub struct TemplateEngine {
    handlebars: Handlebars<'static>,
}

impl View for TemplateEngine {
    type V = Map<Seq<char>, Seq<char>>;

    closed spec fn view(&self) -> Map<Seq<char>, Seq<char>> {
        registered_templates(self.handlebars)
    }
}

/// Tests whether from position `at` on the mark of an inclusion follows.
fn mark_after(source: &Vec<char>, at: usize) -> (r: bool)
    ensures
        r == mark_follows(source@, at as int),
{
    let mut i: usize = at;
    while i < source.len()
        invariant
            at <= i,
            mark_follows(source@, at as int) == mark_follows(source@, i as int),
        decreases source.len() - i,
    {
        let c = source[i];
        if c == '>' {
            return true;
        }
        if !(c == ' ' || c == '\t' || c == '\r' || c == '\n' || c == '~' || c == '#') {
            return false;
        }
        i += 1;
    }
    false
}

/// Tests whether a source holds a tag that reads as the inclusion of
/// another template.
pub fn has_inclusion(source: &str) -> (r: bool)
    ensures
        r == includes_partial(source@),
{
    let text = chars_of(source);
    let mut at: usize = 0;
    while at < text.len()
        invariant
            text@ == source@,
            forall|k: int| 0 <= k < at ==> !inclusion_at(text@, k),
        decreases text.len() - at,
    {
        if text[at] == '{' && text.len() - at > 1 && text[at + 1] == '{' && mark_after(
            &text,
            at + 2,
        ) {
            assert(inclusion_at(text@, at as int));
            return true;
        }
        at += 1;
    }
    false
}

impl TemplateEngine {
    /// The helpers of this library that the engine runs, each under the
    /// name by which templates call it.
    pub closed spec fn helpers(&self) -> Map<Seq<char>, HelperKind> {
        library_helpers(self.handlebars)
    }

    /// No template that the engine holds includes another template.
    pub open spec fn wf(&self) -> bool {
        free_of_inclusions(self@)
    }

    /// An engine that runs the four helpers of this library, each under its
    /// name, and holds no template.
    pub fn new() -> (r: TemplateEngine)
        ensures
            r@ == Map::<Seq<char>, Seq<char>>::empty(),
            r.helpers() == crate::utils::own_helpers(),
            r.wf(),
    {
        let mut engine = TemplateEngine { handlebars: registry_new() };
        crate::utils::register_helpers(&mut engine);
        engine
    }

    /// Makes the engine run the helper `kind` under `name`, in place of the
    /// helper that it ran under that name. The templates stay as they are.
    pub(crate) fn add_helper(&mut self, name: &str, kind: HelperKind, counter: OrderedCounter)
        ensures
            final(self)@ == old(self)@,
            final(self).helpers() == old(self).helpers().insert(name@, kind),
    {
        registry_add_helper(&mut self.handlebars, name, kind, counter);
    }

    /// An engine around a registry that the caller has prepared, for one
    /// that brings helpers of its own. The engine runs the helpers that the
    /// registry ran; the templates that the registry held are dropped.
    ///
    /// The library does not answer for helpers of another make: a helper
    /// that fails to return, or that panics, does so within the rendering
    /// that calls it.
    pub fn with_registry(handlebars: Handlebars<'static>) -> (r: TemplateEngine)
        ensures
            r@ == Map::<Seq<char>, Seq<char>>::empty(),
            r.helpers() == library_helpers(handlebars),
            r.wf(),
    {
        let mut handlebars = handlebars;
        registry_clear(&mut handlebars);
        TemplateEngine { handlebars }
    }

    /// Compiles `source` and holds it under `name`, in place of the template
    /// that was held there. A source that does not compile, or that includes
    /// another template, is refused and leaves the engine as it was.
    pub fn compile(&mut self, name: &str, source: &str) -> (r: Result<(), MockError>)
        requires
            old(self).wf(),
        ensures
            r is Ok <==> accepted(source@),
            r is Ok ==> final(self)@ == old(self)@.insert(name@, source@),
            r is Err ==> final(self)@ == old(self)@ && r == Err::<(), MockError>(
                MockError::TemplateSyntaxError,
            ),
            final(self).helpers() == old(self).helpers(),
            final(self).wf(),
    {
        match TemplateEngine::prepare(name, source) {
            Ok(template) => {
                self.install(name, template);
                Ok(())
            },
            Err(e) => Err(e),
        }
    }

    /// Compiles `source` for the name `name` without holding it. A source
    /// that does not compile, or that includes another template, is refused.
    pub(crate) fn prepare(name: &str, source: &str) -> (r: Result<Template, MockError>)
        ensures
            r is Ok <==> accepted(source@),
            r is Ok ==> template_source(r.unwrap()) == source@,
            r is Err ==> r == Err::<Template, MockError>(MockError::TemplateSyntaxError),
    {
        if has_inclusion(source) {
            return Err(MockError::TemplateSyntaxError);
        }
        match compile_source(name, source) {
            Some(template) => Ok(template),
            None => Err(MockError::TemplateSyntaxError),
        }
    }

    /// Holds a compiled template under `name`, in place of the one that was
    /// held there.
    pub(crate) fn install(&mut self, name: &str, template: Template)
        requires
            old(self).wf(),
            !includes_partial(template_source(template)),
        ensures
            final(self)@ == old(self)@.insert(name@, template_source(template)),
            final(self).helpers() == old(self).helpers(),
            final(self).wf(),
    {
        registry_insert(&mut self.handlebars, name, template);
    }

    /// Whether a template is held under `name`.
    pub fn has_template(&self, name: &str) -> (r: bool)
        ensures
            r == self@.dom().contains(name@),
    {
        registry_has(&self.handlebars, name)
    }

    /// Renders the template held under `name` against `ctx`. Where none is
    /// held under that name the rendering fails.
    pub fn render(&self, name: &str, ctx: &serde_json::Map<String, serde_json::Value>) -> (r:
        Result<String, MockError>)
        requires
            self.wf(),
        ensures
            !self@.dom().contains(name@) ==> r is Err,
            r is Err ==> r == Err::<String, MockError>(MockError::RenderError),
    {
        match registry_render(&self.handlebars, name, ctx) {
            Some(text) => Ok(text),
            None => Err(MockError::RenderError),
        }
    }

    /// Drops the template held under `name`.
    pub fn unregister(&mut self, name: &str)
        ensures
            final(self)@ == old(self)@.remove(name@),
            final(self).helpers() == old(self).helpers(),
            old(self).wf() ==> final(self).wf(),
    {
        registry_remove(&mut self.handlebars, name);
    }

    /// Drops every template. The helpers stay.
    pub fn clear_all(&mut self)
        ensures
            final(self)@ == Map::<Seq<char>, Seq<char>>::empty(),
            final(self).helpers() == old(self).helpers(),
            final(self).wf(),
    {
        registry_clear(&mut self.handlebars);
    }
}

} // verus!
