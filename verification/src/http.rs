//! The small slice of HTTP this service speaks: request methods and the
//! responses the service hands back.

use vstd::prelude::*;

verus! {

/// An HTTP request method. The service answers `GET` on the health route;
/// every other method, on any route, falls through to the not-found
/// response.
#[derive(Clone, Copy, Debug, PartialEq, Eq, Structural)]
pub enum Method {
    Get,
    Head,
    Post,
    Put,
    Delete,
    Connect,
    Options,
    Trace,
    Patch,
}

/// An HTTP response as this service produces it: a status code, an optional
/// content type, and a body. `content_type` is `None` where the response
/// carries no content-type header (the not-found response).
#[derive(Debug)]
pub struct Response {
    pub status: u16,
    pub content_type: Option<String>,
    pub body: String,
}

/// The mathematical shape of a response: what the contracts speak of.
pub ghost struct SpecResponse {
    pub status: int,
    pub content_type: Option<Seq<char>>,
    pub body: Seq<char>,
}

impl View for Response {
    type V = SpecResponse;

    open spec fn view(&self) -> SpecResponse {
        SpecResponse {
            status: self.status as int,
            content_type: match self.content_type {
                Some(ct) => Some(ct@),
                None => None,
            },
            body: self.body@,
        }
    }
}

/// The response to a health request: status 200 with body `OK`, served as
/// plain text.
pub open spec fn spec_health_response() -> SpecResponse {
    SpecResponse {
        status: 200,
        content_type: Some("text/plain; charset=utf-8"@),
        body: "OK"@,
    }
}

/// The response to every unmatched request: status 404 with an empty body
/// and no content-type header.
pub open spec fn spec_not_found_response() -> SpecResponse {
    SpecResponse { status: 404, content_type: None, body: Seq::empty() }
}

/// Builds the health response.
pub fn health_response() -> (r: Response)
    ensures
        r@ == spec_health_response(),
{
    Response {
        status: 200,
        content_type: Some("text/plain; charset=utf-8".to_owned()),
        body: "OK".to_owned(),
    }
}

/// Builds the not-found response.
pub fn not_found_response() -> (r: Response)
    ensures
        r@ == spec_not_found_response(),
{
    Response { status: 404, content_type: None, body: String::new() }
}

} // verus!
