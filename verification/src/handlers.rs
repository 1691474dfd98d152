//! The two request handlers: the template-backed health check and the fixed
//! not-found fallback.
//!
//! Rendering itself happens elsewhere; the health-check handler here is the
//! pure half of that work. It takes the outcome of the render — the text, or
//! the fault — and turns it into exactly one HTTP response, so the mapping
//! from render outcome to response is fixed for every possible outcome.

use vstd::prelude::*;

use crate::http::{ContentType, Response, STATUS_INTERNAL_ERROR, STATUS_NOT_FOUND, STATUS_OK};

verus! {

/// Why a render request produced no text: either the template name did not
/// resolve, or the template was found but could not be rendered (a syntax
/// error, or a placeholder the context does not fill).
#[derive(Clone, Copy, PartialEq, Eq, Structural, Debug)]
pub enum RenderFault {
    TemplateNotFound,
    RenderFailed,
}

/// The body of every not-found response.
pub open spec fn not_found_body() -> Seq<char> {
    "ohnoes"@
}

/// The body of the internal-error response when the template is missing.
pub open spec fn missing_template_body() -> Seq<char> {
    "internal error: template not found"@
}

/// The body of the internal-error response when rendering fails.
pub open spec fn render_failure_body() -> Seq<char> {
    "internal error: template rendering failed"@
}

/// The one response the not-found handler ever produces.
pub open spec fn not_found_view() -> (u16, ContentType, Seq<char>) {
    (STATUS_NOT_FOUND, ContentType::PlainText, not_found_body())
}

/// The response the health-check handler produces for a given render
/// outcome: the rendered text as an HTML page on success, and a fixed
/// internal-error response for each fault. A total function of the outcome,
/// so equal outcomes always give equal responses.
pub open spec fn health_view(outcome: Result<Seq<char>, RenderFault>) -> (u16, ContentType, Seq<
    char,
>) {
    match outcome {
        Ok(text) => (STATUS_OK, ContentType::Html, text),
        Err(RenderFault::TemplateNotFound) => (
            STATUS_INTERNAL_ERROR,
            ContentType::PlainText,
            missing_template_body(),
        ),
        Err(RenderFault::RenderFailed) => (
            STATUS_INTERNAL_ERROR,
            ContentType::PlainText,
            render_failure_body(),
        ),
    }
}

/// What a render outcome is mathematically: the text as a character
/// sequence, or the fault unchanged.
pub open spec fn outcome_view(outcome: Result<String, RenderFault>) -> Result<
    Seq<char>,
    RenderFault,
> {
    match outcome {
        Ok(text) => Ok(text@),
        Err(fault) => Err(fault),
    }
}

/// The not-found handler: a fixed status and a fixed short text body.
pub fn not_found_response() -> (r: Response)
    ensures
        r@ == not_found_view(),
{
    Response {
        status: STATUS_NOT_FOUND,
        content_type: ContentType::PlainText,
        body: "ohnoes".to_owned(),
    }
}

/// The pure half of the health-check handler: turn a render outcome into the
/// response the client sees. Success becomes an HTML page holding the
/// rendered text; each fault becomes a deliberate internal-error response
/// instead of an abandoned request.
pub fn health_response(outcome: Result<String, RenderFault>) -> (r: Response)
    ensures
        r@ == health_view(outcome_view(outcome)),
{
    match outcome {
        Ok(text) => Response { status: STATUS_OK, content_type: ContentType::Html, body: text },
        Err(RenderFault::TemplateNotFound) => Response {
            status: STATUS_INTERNAL_ERROR,
            content_type: ContentType::PlainText,
            body: "internal error: template not found".to_owned(),
        },
        Err(RenderFault::RenderFailed) => Response {
            status: STATUS_INTERNAL_ERROR,
            content_type: ContentType::PlainText,
            body: "internal error: template rendering failed".to_owned(),
        },
    }
}

} // verus!
