//! The HTTP surface the service speaks of: request methods and responses.

use vstd::prelude::*;

verus! {

/// An HTTP request method. Routing is method-sensitive, so the method is part
/// of every dispatch decision; methods the service never registers a route
/// for are still representable and fall through to the fallback handler.
#[derive(Clone, Copy, PartialEq, Eq, Structural, Debug)]
pub enum Method {
    Get,
    Head,
    Post,
    Put,
    Delete,
    Patch,
    Options,
    Trace,
    Connect,
}

/// Status code of a successful response.
pub const STATUS_OK: u16 = 200;

/// Status code returned when no route matches.
pub const STATUS_NOT_FOUND: u16 = 404;

/// Status code returned when the health-check template cannot be rendered.
pub const STATUS_INTERNAL_ERROR: u16 = 500;

/// The content types this service ever attaches to a response.
#[derive(Clone, Copy, PartialEq, Eq, Structural, Debug)]
pub enum ContentType {
    Html,
    PlainText,
}

/// One HTTP response: a status code, a content type, and a text body.
pub struct Response {
    pub status: u16,
    pub content_type: ContentType,
    pub body: String,
}

impl View for Response {
    type V = (u16, ContentType, Seq<char>);

    /// What a response is, mathematically: the triple of its fields, with the
    /// body as a sequence of characters.
    open spec fn view(&self) -> (u16, ContentType, Seq<char>) {
        (self.status, self.content_type, self.body@)
    }
}

} // verus!
