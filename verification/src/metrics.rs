//! The labels under which a served request is counted.

use crate::text::{chars_of, decimal, decimal_chars, matches_at, occurs_at, string_of};
use vstd::prelude::*;

verus! {

/// The factory of the metrics layer: it wraps a service.
#[derive(Clone, Copy, Debug)]
pub struct MetricsMiddleware;

/// A service wrapped by the metrics layer.
#[derive(Debug)]
pub struct MetricsMiddlewareService<S> {
    service: S,
}

/// The labels of one served request.
#[derive(Clone, Debug, PartialEq, Eq)]
pub struct RequestLabels {
    /// The HTTP method.
    pub method: String,
    /// The endpoint, with the paths of mocks and of static files folded
    /// into one label each.
    pub endpoint: String,
    /// The status as a decimal number.
    pub status: String,
    /// The request counts as failed: its status is not one of success.
    pub failed: bool,
}

/// The endpoint label of a path: every mock path counts as `/mock`, every
/// static file as `/static`, any other path as itself.
pub open spec fn endpoint_label(path: Seq<char>) -> Seq<char> {
    if occurs_at(path, 0, "/mock/"@) {
        "/mock"@
    } else if occurs_at(path, 0, "/static/"@) {
        "/static"@
    } else {
        path
    }
}

/// The status is one of success: 200 to 299.
pub open spec fn is_success(status: u16) -> bool {
    200 <= status <= 299
}

/// The endpoint label of a path.
pub fn endpoint_of(path: &str) -> (r: String)
    ensures
        r@ == endpoint_label(path@),
{
    let p = chars_of(path);
    let mock = chars_of("/mock/");
    let fixed = chars_of("/static/");
    if matches_at(&p, 0, &mock) {
        "/mock".to_string()
    } else if matches_at(&p, 0, &fixed) {
        "/static".to_string()
    } else {
        path.to_string()
    }
}

impl MetricsMiddleware {
    /// Wraps `service`.
    pub fn new_transform<S>(&self, service: S) -> (r: MetricsMiddlewareService<S>)
        ensures
            r.inner() == service,
    {
        MetricsMiddlewareService { service }
    }
}

impl<S> MetricsMiddlewareService<S> {
    /// The wrapped service.
    pub closed spec fn inner(&self) -> S {
        self.service
    }

    /// The wrapped service.
    pub fn service(&self) -> (r: &S)
        ensures
            *r == self.inner(),
    {
        &self.service
    }

    /// The labels under which a request is counted once it has been served
    /// with `status`.
    pub fn labels(&self, method: &str, path: &str, status: u16) -> (r: RequestLabels)
        ensures
            r.method@ == method@,
            r.endpoint@ == endpoint_label(path@),
            r.status@ == decimal(status as nat),
            r.failed == !is_success(status),
    {
        RequestLabels {
            method: method.to_string(),
            endpoint: endpoint_of(path),
            status: string_of(&decimal_chars(status as u128)),
            failed: !(200 <= status && status <= 299),
        }
    }
}

} // verus!
