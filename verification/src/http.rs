//! What a handler answers: a status, the kind of content and the body.

use vstd::prelude::*;

verus! {

/// The request went through.
pub const STATUS_OK: u16 = 200;

/// The body of the request is missing or is not what the endpoint reads.
pub const STATUS_BAD_REQUEST: u16 = 400;

/// No handler is registered for the path.
pub const STATUS_NOT_FOUND: u16 = 404;

/// The endpoint does not serve the request's method.
pub const STATUS_METHOD_NOT_ALLOWED: u16 = 405;

/// The kind of content that a response carries.
#[derive(Clone, Copy, Debug, PartialEq, Eq, Structural)]
pub enum ContentType {
    /// No body.
    Empty,
    /// Plain text.
    Plain,
    /// A page.
    Html,
    /// A JSON document.
    Json,
}

/// The model of a response.
pub struct ResponseView {
    pub status: u16,
    pub content_type: ContentType,
    pub body: Seq<char>,
}

impl ResponseView {
    /// A response that has a status and nothing else.
    pub open spec fn bare(status: u16) -> ResponseView {
        ResponseView { status, content_type: ContentType::Empty, body: Seq::empty() }
    }

    /// A response with status 200 and the given content.
    pub open spec fn ok(content_type: ContentType, body: Seq<char>) -> ResponseView {
        ResponseView { status: STATUS_OK, content_type, body }
    }
}

/// A response.
pub struct Response {
    pub status: u16,
    pub content_type: ContentType,
    pub body: String,
}

impl View for Response {
    type V = ResponseView;

    open spec fn view(&self) -> ResponseView {
        ResponseView { status: self.status, content_type: self.content_type, body: self.body@ }
    }
}

/// The model of an answer that a handler may fail to give.
pub open spec fn view_of(response: Option<Response>) -> Option<ResponseView> {
    match response {
        Some(response) => Some(response@),
        None => None,
    }
}

impl Response {
    /// A response that has a status and nothing else.
    pub fn bare(status: u16) -> (response: Response)
        ensures
            response@ == ResponseView::bare(status),
    {
        Response { status, content_type: ContentType::Empty, body: String::new() }
    }

    /// A response with status 200 and the given content.
    pub fn ok(content_type: ContentType, body: String) -> (response: Response)
        ensures
            response@ == ResponseView::ok(content_type, body@),
    {
        Response { status: STATUS_OK, content_type, body }
    }

    /// The answer to a path that no handler is registered for.
    pub fn not_found() -> (response: Response)
        ensures
            response@ == ResponseView::bare(STATUS_NOT_FOUND),
    {
        Response::bare(STATUS_NOT_FOUND)
    }
}

} // verus!
