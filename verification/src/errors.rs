//! The kinds of failure that the library reports.

use vstd::prelude::*;

verus! {

/// Why an operation failed.
#[derive(Clone, Copy, Debug, PartialEq, Eq, Structural)]
pub enum MockError {
    /// No definition has the identifier or the name.
    NotFound,
    /// The definition answers another HTTP method.
    MethodNotAllowed,
    /// The shared secret is missing or wrong.
    Unauthorized,
    /// The request body is not well-formed structured data.
    BadRequest,
    /// A template does not compile.
    TemplateSyntaxError,
    /// A template could not be rendered.
    RenderError,
    /// The request could not be answered.
    InternalError,
    /// No variant passed its condition with a weight to draw from.
    NoMatchingVariant,
    /// A peer could not be reached within the allowed attempts.
    PeerUnreachable,
}

impl MockError {
    /// The HTTP status that stands for the failure.
    pub open spec fn status_of(self) -> u16 {
        match self {
            MockError::NotFound => 404,
            MockError::MethodNotAllowed => 405,
            MockError::Unauthorized => 401,
            MockError::BadRequest => 400,
            MockError::TemplateSyntaxError => 400,
            MockError::RenderError => 500,
            MockError::InternalError => 500,
            MockError::NoMatchingVariant => 500,
            MockError::PeerUnreachable => 502,
        }
    }

    /// The short diagnostic that goes with the failure.
    pub open spec fn message_of(self) -> Seq<char> {
        match self {
            MockError::NotFound => "Mock not found"@,
            MockError::MethodNotAllowed => "Method not allowed for this mock"@,
            MockError::Unauthorized => "Unauthorized"@,
            MockError::BadRequest => "Failed to parse JSON body"@,
            MockError::TemplateSyntaxError => "Template syntax error"@,
            MockError::RenderError => "Template rendering error"@,
            MockError::InternalError => "Internal error"@,
            MockError::NoMatchingVariant => "No matching response variant found"@,
            MockError::PeerUnreachable => "Peer unreachable"@,
        }
    }

    /// The short diagnostic that goes with the failure.
    pub fn message(&self) -> (r: String)
        ensures
            r@ == self.message_of(),
    {
        match self {
            MockError::NotFound => "Mock not found".to_string(),
            MockError::MethodNotAllowed => "Method not allowed for this mock".to_string(),
            MockError::Unauthorized => "Unauthorized".to_string(),
            MockError::BadRequest => "Failed to parse JSON body".to_string(),
            MockError::TemplateSyntaxError => "Template syntax error".to_string(),
            MockError::RenderError => "Template rendering error".to_string(),
            MockError::InternalError => "Internal error".to_string(),
            MockError::NoMatchingVariant => "No matching response variant found".to_string(),
            MockError::PeerUnreachable => "Peer unreachable".to_string(),
        }
    }

    /// The HTTP status that stands for the failure.
    pub fn status(&self) -> (r: u16)
        ensures
            r == self.status_of(),
    {
        match self {
            MockError::NotFound => 404,
            MockError::MethodNotAllowed => 405,
            MockError::Unauthorized => 401,
            MockError::BadRequest => 400,
            MockError::TemplateSyntaxError => 400,
            MockError::RenderError => 500,
            MockError::InternalError => 500,
            MockError::NoMatchingVariant => 500,
            MockError::PeerUnreachable => 502,
        }
    }
}

} // verus!
