//! The data model: a mock definition and its response variants.
//!
//! Each type has a view made of mathematical values only; the contracts of
//! the rest of the library speak of these views.

use vstd::prelude::*;

verus! {

/// An instant: whole seconds since the Unix epoch and the nanoseconds past
/// that second. Instants are ordered by seconds first, then by nanoseconds.
#[derive(Clone, Copy, Debug, PartialEq, Eq, Structural)]
pub struct Timestamp {
    pub seconds: i64,
    pub nanos: u32,
}

impl Timestamp {
    /// `self` is strictly later than `other`.
    pub open spec fn later_than(self, other: Timestamp) -> bool {
        self.seconds > other.seconds || (self.seconds == other.seconds && self.nanos > other.nanos)
    }

    /// Tests whether `self` is strictly later than `other`.
    pub fn is_later_than(&self, other: &Timestamp) -> (r: bool)
        ensures
            r == self.later_than(*other),
    {
        self.seconds > other.seconds || (self.seconds == other.seconds && self.nanos > other.nanos)
    }
}

/// One candidate response of a mock definition.
#[derive(Clone, Debug, PartialEq, Eq)]
pub struct ResponseVariant {
    /// The body template; it may hold placeholders.
    pub response: String,
    /// The share of this variant among the variants that pass their condition.
    pub weight: u32,
    /// The HTTP status of the response.
    pub status: u16,
    /// Header names with the template of each value. A definition is
    /// accepted only where no name occurs twice among them.
    pub response_headers: Option<Vec<(String, String)>>,
    /// A boolean expression with placeholders; absent means always true.
    pub condition: Option<String>,
    /// Milliseconds to wait before the response is sent.
    pub delay: Option<u64>,
}

/// The mathematical value of a `ResponseVariant`.
#[verifier::ext_equal]
pub struct VariantView {
    pub response: Seq<char>,
    pub weight: u32,
    pub status: u16,
    pub response_headers: Option<Seq<(Seq<char>, Seq<char>)>>,
    pub condition: Option<Seq<char>>,
    pub delay: Option<u64>,
}

/// The views of a list of header templates.
pub open spec fn headers_view(headers: Seq<(String, String)>) -> Seq<(Seq<char>, Seq<char>)> {
    Seq::new(headers.len(), |i: int| (headers[i].0@, headers[i].1@))
}

impl View for ResponseVariant {
    type V = VariantView;

    open spec fn view(&self) -> VariantView {
        VariantView {
            response: self.response@,
            weight: self.weight,
            status: self.status,
            response_headers: match self.response_headers {
                Some(h) => Some(headers_view(h@)),
                None => None,
            },
            condition: match self.condition {
                Some(c) => Some(c@),
                None => None,
            },
            delay: self.delay,
        }
    }
}

/// No name occurs twice in the list of headers.
pub open spec fn distinct_names(headers: Seq<(Seq<char>, Seq<char>)>) -> bool {
    forall|j: int, k: int| 0 <= j < k < headers.len() ==> headers[j].0 != headers[k].0
}

/// The variant names no header twice.
pub open spec fn variant_headers_distinct(v: VariantView) -> bool {
    match v.response_headers {
        Some(h) => distinct_names(h),
        None => true,
    }
}

/// No variant of the list names a header twice.
pub open spec fn headers_distinct(variants: Seq<VariantView>) -> bool {
    forall|i: int| 0 <= i < variants.len() ==> variant_headers_distinct(#[trigger] variants[i])
}

/// The views of a list of variants.
pub open spec fn variants_view(variants: Seq<ResponseVariant>) -> Seq<VariantView> {
    Seq::new(variants.len(), |i: int| variants[i]@)
}

/// A copy of a list of header templates.
pub fn copy_headers(headers: &Vec<(String, String)>) -> (r: Vec<(String, String)>)
    ensures
        headers_view(r@) == headers_view(headers@),
{
    let mut out: Vec<(String, String)> = Vec::new();
    let mut i: usize = 0;
    while i < headers.len()
        invariant
            i <= headers.len(),
            out.len() == i,
            forall|k: int| 0 <= k < i ==> out@[k].0@ == headers@[k].0@ && out@[k].1@ == headers@[k].1@,
        decreases headers.len() - i,
    {
        let name = headers[i].0.clone();
        let value = headers[i].1.clone();
        out.push((name, value));
        i += 1;
    }
    assert(headers_view(out@) =~= headers_view(headers@));
    out
}

/// Tests whether no name occurs twice in a list of headers.
pub fn names_are_distinct(headers: &Vec<(String, String)>) -> (r: bool)
    ensures
        r == distinct_names(headers_view(headers@)),
{
    let ghost hs = headers_view(headers@);
    let mut k: usize = 0;
    while k < headers.len()
        invariant
            k <= headers.len(),
            hs == headers_view(headers@),
            forall|a: int, b: int| 0 <= a < b < k ==> hs[a].0 != hs[b].0,
        decreases headers.len() - k,
    {
        let mut j: usize = 0;
        while j < k
            invariant
                j <= k < headers.len(),
                hs == headers_view(headers@),
                forall|a: int| 0 <= a < j ==> hs[a].0 != hs[k as int].0,
            decreases k - j,
        {
            if headers[j].0 == headers[k].0 {
                assert(hs[j as int].0 == hs[k as int].0);
                return false;
            }
            j += 1;
        }
        k += 1;
    }
    true
}

impl ResponseVariant {
    /// Tests whether the variant names no header twice.
    pub fn has_distinct_headers(&self) -> (r: bool)
        ensures
            r == variant_headers_distinct(self@),
    {
        match &self.response_headers {
            Some(h) => names_are_distinct(h),
            None => true,
        }
    }

    /// A copy with the same view.
    pub fn duplicate(&self) -> (r: ResponseVariant)
        ensures
            r@ == self@,
    {
        let response_headers = match &self.response_headers {
            Some(h) => Some(copy_headers(h)),
            None => None,
        };
        let condition = match &self.condition {
            Some(c) => Some(c.clone()),
            None => None,
        };
        ResponseVariant {
            response: self.response.clone(),
            weight: self.weight,
            status: self.status,
            response_headers,
            condition,
            delay: self.delay,
        }
    }
}

/// A copy of a list of variants.
pub fn copy_variants(variants: &Vec<ResponseVariant>) -> (r: Vec<ResponseVariant>)
    ensures
        variants_view(r@) == variants_view(variants@),
{
    let mut out: Vec<ResponseVariant> = Vec::new();
    let mut i: usize = 0;
    while i < variants.len()
        invariant
            i <= variants.len(),
            out.len() == i,
            forall|k: int| 0 <= k < i ==> out@[k]@ == variants@[k]@,
        decreases variants.len() - i,
    {
        out.push(variants[i].duplicate());
        i += 1;
    }
    assert(variants_view(out@) =~= variants_view(variants@));
    out
}

/// A mock definition: a named HTTP stub with its response variants.
#[derive(Clone, Debug, PartialEq, Eq)]
pub struct MockAPI {
    /// The 128-bit identifier, absent until one is assigned.
    pub id: Option<u128>,
    /// The name under which requests find the definition.
    pub api_name: String,
    /// The HTTP method that the definition answers.
    pub method: String,
    /// The instant of the last modification.
    pub timestamp: Timestamp,
    /// The candidate responses, in declaration order.
    pub response_variants: Vec<ResponseVariant>,
}

/// The mathematical value of a `MockAPI`.
#[verifier::ext_equal]
pub struct MockView {
    pub id: Option<u128>,
    pub api_name: Seq<char>,
    pub method: Seq<char>,
    pub timestamp: Timestamp,
    pub response_variants: Seq<VariantView>,
}

impl View for MockAPI {
    type V = MockView;

    open spec fn view(&self) -> MockView {
        MockView {
            id: self.id,
            api_name: self.api_name@,
            method: self.method@,
            timestamp: self.timestamp,
            response_variants: variants_view(self.response_variants@),
        }
    }
}

impl MockAPI {
    /// Tests whether no variant of the definition names a header twice.
    pub fn has_distinct_headers(&self) -> (r: bool)
        ensures
            r == headers_distinct(self@.response_variants),
    {
        let ghost vs = variants_view(self.response_variants@);
        let mut i: usize = 0;
        while i < self.response_variants.len()
            invariant
                i <= self.response_variants.len(),
                vs == variants_view(self.response_variants@),
                forall|k: int| 0 <= k < i ==> variant_headers_distinct(#[trigger] vs[k]),
            decreases self.response_variants.len() - i,
        {
            if !self.response_variants[i].has_distinct_headers() {
                assert(!variant_headers_distinct(vs[i as int]));
                return false;
            }
            i += 1;
        }
        true
    }

    /// A copy with the same view.
    pub fn duplicate(&self) -> (r: MockAPI)
        ensures
            r@ == self@,
    {
        MockAPI {
            id: self.id,
            api_name: self.api_name.clone(),
            method: self.method.clone(),
            timestamp: self.timestamp,
            response_variants: copy_variants(&self.response_variants),
        }
    }

    /// A copy that carries the identifier `id`.
    pub fn with_id(&self, id: u128) -> (r: MockAPI)
        ensures
            r@ == (MockView { id: Some(id), ..self@ }),
    {
        let mut copy = self.duplicate();
        copy.id = Some(id);
        copy
    }
}

} // verus!
