//! The request dispatcher: one inbound call is matched to a definition, a
//! variant is selected and rendered, and the response is put together.
//!
//! The dispatcher does not wait: a delay that the selected variant asks for
//! is part of the response, for the caller to honour.

use crate::condition::passes_of;
use crate::context::{
    announces_json, build_context, context_fields, fields_view, has_json_content_type,
    pairs_view, parse_body, parsed_body, request_context,
};
use crate::errors::MockError;
use crate::models::{headers_view, variants_view, MockView, ResponseVariant, VariantView};
use crate::naming::{body_template_name, header_name};
use crate::registry::RegistryView;
use crate::selector::{may_select, select_response_variant, total_weight};
use crate::state::AppState;
use crate::text::{chars_of, contains_chars, eq_ignore_case, occurs_in, same_ignoring_case};
use vstd::prelude::*;

verus! {

/// One inbound call to a mock endpoint.
#[derive(Clone, Debug, PartialEq, Eq)]
pub struct MockRequest {
    /// The HTTP method of the call.
    pub method: String,
    /// The target name: what follows the mock prefix in the path.
    pub api_name: String,
    /// The request headers, each name with its value.
    pub headers: Vec<(String, String)>,
    /// The query parameters, each name with its value.
    pub query: Vec<(String, String)>,
    /// The bytes of the body.
    pub body: Vec<u8>,
}

/// The response to one call.
#[derive(Clone, Debug, PartialEq, Eq)]
pub struct MockResponse {
    /// The HTTP status.
    pub status: u16,
    /// The response headers, the content type first.
    pub headers: Vec<(String, String)>,
    /// The body.
    pub body: String,
    /// Milliseconds to wait before the response is sent.
    pub delay: Option<u64>,
}

/// Some variant's body template holds a placeholder.
pub open spec fn uses_placeholders(variants: Seq<VariantView>) -> bool {
    exists|i: int| 0 <= i < variants.len() && occurs_in(#[trigger] variants[i].response, "{{"@)
}

/// The body of the request is read: the headers announce structured data,
/// the body is not empty, and some variant's template holds a placeholder.
pub open spec fn reads_body(
    headers: Seq<(Seq<char>, Seq<char>)>,
    body: Seq<u8>,
    variants: Seq<VariantView>,
) -> bool {
    announces_json(headers) && body.len() > 0 && uses_placeholders(variants)
}

/// The fields that the body adds to the context, or nothing where the body
/// is to be read and is malformed. A body that is not read, or is no
/// object, adds no field.
pub open spec fn body_fields(
    headers: Seq<(Seq<char>, Seq<char>)>,
    body: Seq<u8>,
    variants: Seq<VariantView>,
) -> Option<Seq<(Seq<char>, serde_json::Value)>> {
    if reads_body(headers, body, variants) {
        match parsed_body(body) {
            None => None,
            Some(None) => Some(Seq::empty()),
            Some(Some(fields)) => Some(fields),
        }
    } else {
        Some(Seq::empty())
    }
}

/// The status that goes out for a variant: its own where that is an HTTP
/// status, and 500 otherwise.
pub open spec fn effective_status(status: u16) -> u16 {
    if 100 <= status <= 599 {
        status
    } else {
        500
    }
}

/// The fields of the context that the request gives against the definition
/// `def`. It is called only where the body is well-formed.
pub open spec fn context_of(req: MockRequest, def: MockView) -> Map<
    Seq<char>,
    serde_json::Value,
> {
    request_context(
        req.api_name@,
        pairs_view(req.headers@),
        pairs_view(req.query@),
        body_fields(pairs_view(req.headers@), req.body@, def.response_variants).unwrap(),
    )
}

/// Why the request is refused before a variant is drawn, if it is: no
/// definition has the name; the definition answers another method; the body
/// is malformed; no variant that passes its condition has weight.
pub open spec fn refusal(registry: RegistryView, req: MockRequest) -> Option<MockError> {
    match registry.by_name(req.api_name@) {
        None => Some(MockError::NotFound),
        Some(def) => {
            if !same_ignoring_case(req.method@, def.method) {
                Some(MockError::MethodNotAllowed)
            } else if body_fields(pairs_view(req.headers@), req.body@, def.response_variants)
                is None {
                Some(MockError::BadRequest)
            } else if total_weight(
                def.response_variants,
                passes_of(def.response_variants, context_of(req, def)),
            ) == 0 {
                Some(MockError::NoMatchingVariant)
            } else {
                None
            }
        },
    }
}

/// The response `resp` answers with variant `v`: it has the variant's
/// status and delay, the content type first among its headers, and then one
/// header for each header template of the variant, under its name.
pub open spec fn answers_with(resp: MockResponse, v: VariantView) -> bool {
    let named = match v.response_headers {
        Some(h) => h,
        None => Seq::empty(),
    };
    &&& resp.status == effective_status(v.status)
    &&& resp.delay == v.delay
    &&& resp.headers.len() == named.len() + 1
    &&& resp.headers[0].0@ == "Content-Type"@
    &&& resp.headers[0].1@ == "application/json"@
    &&& forall|j: int| 0 <= j < named.len() ==> (#[trigger] resp.headers[j + 1]).0@ == named[j].0
}

/// The response answers with a variant of `def` that the draw can select in
/// the context of the request.
pub open spec fn answers(resp: MockResponse, req: MockRequest, def: MockView) -> bool {
    exists|i: int|
        #![trigger def.response_variants[i]]
        may_select(
            def.response_variants,
            passes_of(def.response_variants, context_of(req, def)),
            i,
        ) && answers_with(resp, def.response_variants[i])
}

/// Tests whether some variant's body template holds a placeholder.
pub fn has_placeholder(variants: &Vec<ResponseVariant>) -> (r: bool)
    ensures
        r == uses_placeholders(variants_view(variants@)),
{
    let ghost vs = variants_view(variants@);
    let open = chars_of("{{");
    let mut i: usize = 0;
    while i < variants.len()
        invariant
            i <= variants.len(),
            vs == variants_view(variants@),
            open@ == "{{"@,
            forall|k: int| 0 <= k < i ==> !occurs_in(#[trigger] vs[k].response, "{{"@),
        decreases variants.len() - i,
    {
        let body = chars_of(variants[i].response.as_str());
        if contains_chars(&body, &open) {
            assert(occurs_in(vs[i as int].response, "{{"@));
            return true;
        }
        i += 1;
    }
    false
}

/// The status that goes out for a variant.
pub fn outgoing_status(status: u16) -> (r: u16)
    ensures
        r == effective_status(status),
{
    if 100 <= status && status <= 599 {
        status
    } else {
        500
    }
}

/// Puts the response together from the selected variant, its rendered body
/// and the rendered values of its headers.
pub fn compose_response(variant: &ResponseVariant, body: String, values: Vec<
    (String, String),
>) -> (r: MockResponse)
    ensures
        r.status == effective_status(variant.status),
        r.delay == variant.delay,
        r.body == body,
        r.headers.len() == values.len() + 1,
        r.headers[0].0@ == "Content-Type"@,
        r.headers[0].1@ == "application/json"@,
        forall|j: int| 0 <= j < values.len() ==> (#[trigger] r.headers[j + 1]) == values[j],
{
    let mut headers: Vec<(String, String)> = Vec::new();
    headers.push(("Content-Type".to_string(), "application/json".to_string()));
    let mut values = values;
    let ghost all = values@;
    headers.append(&mut values);
    assert forall|j: int| 0 <= j < all.len() implies (#[trigger] headers[j + 1]) == all[j] by {}
    MockResponse { status: outgoing_status(variant.status), headers, body, delay: variant.delay }
}

/// Renders the header templates of variant `index` of definition `id`
/// against the context: each header name with its rendered value.
fn render_headers(
    state: &AppState,
    id: u128,
    index: usize,
    variant: &ResponseVariant,
    ctx: &serde_json::Map<String, serde_json::Value>,
) -> (r: Result<Vec<(String, String)>, MockError>)
    requires
        state.wf(),
    ensures
        r is Ok ==> {
            let named = match variant@.response_headers {
                Some(h) => h,
                None => Seq::empty(),
            };
            &&& r.unwrap().len() == named.len()
            &&& forall|j: int| 0 <= j < named.len() ==> (#[trigger] r.unwrap()[j]).0@ == named[j].0
        },
        r is Err ==> r == Err::<Vec<(String, String)>, MockError>(MockError::RenderError),
{
    let mut out: Vec<(String, String)> = Vec::new();
    match &variant.response_headers {
        Some(headers) => {
            let ghost named = headers_view(headers@);
            let mut j: usize = 0;
            while j < headers.len()
                invariant
                    j <= headers.len(),
                    state.wf(),
                    named == headers_view(headers@),
                    out.len() == j,
                    forall|k: int| 0 <= k < j ==> (#[trigger] out[k]).0@ == named[k].0,
                decreases headers.len() - j,
            {
                let name = header_name(id, index, headers[j].0.as_str());
                match state.engine().render(name.as_str(), ctx) {
                    Ok(value) => {
                        out.push((headers[j].0.clone(), value));
                    },
                    Err(e) => {
                        return Err(e);
                    },
                }
                j += 1;
            }
        },
        None => {},
    }
    Ok(out)
}

/// Answers one call from the state: the definition is found by the target
/// name, its method is checked, the context is built, a variant is drawn
/// and its templates are rendered.
///
/// The call is refused, with the reason that `refusal` gives, exactly where
/// that names one. Otherwise a variant is drawn; the call then fails only
/// where a template does not render, and a response that comes back answers
/// with a variant that the draw can select.
pub fn dispatch(state: &AppState, req: &MockRequest) -> (r: Result<MockResponse, MockError>)
    requires
        state.wf(),
    ensures
        refusal(state@.registry, *req) is Some ==> r == Err::<MockResponse, MockError>(
            refusal(state@.registry, *req).unwrap(),
        ),
        refusal(state@.registry, *req) is None ==> (r is Err ==> r == Err::<
            MockResponse,
            MockError,
        >(MockError::RenderError)),
        refusal(state@.registry, *req) is None && r is Ok ==> answers(
            r.unwrap(),
            *req,
            state@.registry.by_name(req.api_name@).unwrap(),
        ),
{
    let mock = match state.registry().get_by_name(req.api_name.as_str()) {
        Ok(found) => found,
        Err(e) => {
            return Err(e);
        },
    };
    if !eq_ignore_case(req.method.as_str(), mock.method.as_str()) {
        return Err(MockError::MethodNotAllowed);
    }
    let ghost def = mock@;
    let mut fields: Vec<(String, serde_json::Value)> = Vec::new();
    assert(fields_view(fields@) =~= Seq::empty());
    if has_json_content_type(&req.headers) && req.body.len() > 0 && has_placeholder(
        &mock.response_variants,
    ) {
        match parse_body(&req.body) {
            Some(Some(parsed)) => {
                fields = parsed;
            },
            Some(None) => {},
            None => {
                return Err(MockError::BadRequest);
            },
        }
    }
    let ctx = build_context(req.api_name.as_str(), &req.headers, &req.query, &fields);
    assert(context_fields(ctx) == context_of(*req, def));
    let index = match select_response_variant(&mock.response_variants, &ctx) {
        Ok(i) => i,
        Err(e) => {
            return Err(e);
        },
    };
    let variant = &mock.response_variants[index];
    let id = match state.registry().id_of(req.api_name.as_str()) {
        Some(id) => id,
        None => {
            return Err(MockError::NotFound);
        },
    };
    let body = match state.engine().render(body_template_name(id, index).as_str(), &ctx) {
        Ok(text) => text,
        Err(e) => {
            return Err(e);
        },
    };
    let values = match render_headers(state, id, index, variant, &ctx) {
        Ok(v) => v,
        Err(e) => {
            return Err(e);
        },
    };
    let response = compose_response(variant, body, values);
    proof {
        assert(variant@ == def.response_variants[index as int]);
        assert(answers_with(response, def.response_variants[index as int]));
    }
    Ok(response)
}

/// The response reports the failure `error`: it has the status and the
/// diagnostic of the failure, no header of its own, and no delay.
pub open spec fn reports(r: MockResponse, error: MockError) -> bool {
    &&& r.status == error.status_of()
    &&& r.body@ == error.message_of()
    &&& r.headers.len() == 0
    &&& r.delay is None
}

/// The response that reports a failure.
pub fn failure_response(error: MockError) -> (r: MockResponse)
    ensures
        reports(r, error),
{
    MockResponse { status: error.status(), headers: Vec::new(), body: error.message(), delay: None }
}

/// Handles one call to a mock endpoint: the call is counted and answered;
/// a failure is answered by its status and diagnostic.
pub fn handle_mock(state: &mut AppState, req: &MockRequest) -> (r: MockResponse)
    requires
        old(state).wf(),
    ensures
        final(state)@.registry == old(state)@.registry,
        final(state)@.templates == old(state)@.templates,
        final(state)@.helpers == old(state)@.helpers,
        final(state)@.synced_peers == old(state)@.synced_peers,
        final(state)@.request_count == (if old(state)@.request_count == usize::MAX {
            0
        } else {
            old(state)@.request_count + 1
        }),
        refusal(old(state)@.registry, *req) is Some ==> reports(
            r,
            refusal(old(state)@.registry, *req).unwrap(),
        ),
        refusal(old(state)@.registry, *req) is None ==> answers(
            r,
            *req,
            old(state)@.registry.by_name(req.api_name@).unwrap(),
        ) || reports(r, MockError::RenderError),
        final(state).wf(),
{
    state.count_request();
    match dispatch(state, req) {
        Ok(response) => response,
        Err(e) => failure_response(e),
    }
}

} // verus!
