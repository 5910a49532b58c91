//! The service's one routing decision: `GET /health` gets the health
//! response, everything else gets the not-found response.
//!
//! A method mismatch on `/health` is not distinguished from an unknown path:
//! both are answered with status 404, never 405.

use vstd::prelude::*;

use crate::http::Method;
use crate::http::Response;
use crate::http::SpecResponse;
use crate::http::health_response;
use crate::http::not_found_response;
use crate::http::spec_health_response;
use crate::http::spec_not_found_response;

verus! {

/// The path of the one route the service serves.
pub open spec fn spec_health_path() -> Seq<char> {
    "/health"@
}

/// A request matches the health route exactly when its method is `GET` and
/// its path is `/health`.
pub open spec fn is_health_request(method: Method, path: Seq<char>) -> bool {
    method == Method::Get && path == spec_health_path()
}

/// The response to a request: the health response on a health request, the
/// not-found response on everything else.
pub open spec fn spec_handle(method: Method, path: Seq<char>) -> SpecResponse {
    if is_health_request(method, path) {
        spec_health_response()
    } else {
        spec_not_found_response()
    }
}

/// How a method name on the wire reads as a [`Method`]. Method names are
/// case-sensitive, as HTTP defines them.
pub open spec fn spec_parse_method(name: Seq<char>) -> Option<Method> {
    if name == "GET"@ {
        Some(Method::Get)
    } else if name == "HEAD"@ {
        Some(Method::Head)
    } else if name == "POST"@ {
        Some(Method::Post)
    } else if name == "PUT"@ {
        Some(Method::Put)
    } else if name == "DELETE"@ {
        Some(Method::Delete)
    } else if name == "CONNECT"@ {
        Some(Method::Connect)
    } else if name == "OPTIONS"@ {
        Some(Method::Options)
    } else if name == "TRACE"@ {
        Some(Method::Trace)
    } else if name == "PATCH"@ {
        Some(Method::Patch)
    } else {
        None
    }
}

/// The response to a request given as it comes off the wire: the method
/// name is parsed first, and a name that is no HTTP method is answered like
/// any unmatched request, with the not-found response.
pub open spec fn spec_respond(name: Seq<char>, path: Seq<char>) -> SpecResponse {
    match spec_parse_method(name) {
        Some(method) => spec_handle(method, path),
        None => spec_not_found_response(),
    }
}

/// String equality, stated over the views.
fn str_eq(a: &str, b: &str) -> (r: bool)
    ensures
        r == (a@ == b@),
{
    let left: String = a.to_owned();
    let right: String = b.to_owned();
    left == right
}

/// Parses a method name. Returns `None` exactly on names that are no HTTP
/// method (names are case-sensitive).
pub fn parse_method(name: &str) -> (r: Option<Method>)
    ensures
        r == spec_parse_method(name@),
{
    if str_eq(name, "GET") {
        Some(Method::Get)
    } else if str_eq(name, "HEAD") {
        Some(Method::Head)
    } else if str_eq(name, "POST") {
        Some(Method::Post)
    } else if str_eq(name, "PUT") {
        Some(Method::Put)
    } else if str_eq(name, "DELETE") {
        Some(Method::Delete)
    } else if str_eq(name, "CONNECT") {
        Some(Method::Connect)
    } else if str_eq(name, "OPTIONS") {
        Some(Method::Options)
    } else if str_eq(name, "TRACE") {
        Some(Method::Trace)
    } else if str_eq(name, "PATCH") {
        Some(Method::Patch)
    } else {
        None
    }
}

/// Answers a request: the health response on `GET /health`, the not-found
/// response on every other method or path.
pub fn handle(method: Method, path: &str) -> (r: Response)
    ensures
        r@ == spec_handle(method, path@),
{
    if method == Method::Get && str_eq(path, "/health") {
        health_response()
    } else {
        not_found_response()
    }
}

/// Answers a request as it comes off the wire, method given by name.
pub fn respond(method_name: &str, path: &str) -> (r: Response)
    ensures
        r@ == spec_respond(method_name@, path@),
{
    match parse_method(method_name) {
        Some(method) => handle(method, path),
        None => not_found_response(),
    }
}

/// Every request that does not match the health route — another path, or
/// another method on `/health` — is answered with the not-found response:
/// status 404 and an empty body.
pub proof fn law_unmatched_is_not_found(method: Method, path: Seq<char>)
    requires
        !is_health_request(method, path),
    ensures
        spec_handle(method, path) == spec_not_found_response(),
        spec_handle(method, path).status == 404,
        spec_handle(method, path).body.len() == 0,
{
}

/// The responses to a sequence of requests, each decided independently.
pub open spec fn responses_of(requests: Seq<(Method, Seq<char>)>) -> Seq<SpecResponse> {
    Seq::new(requests.len(), |i: int| spec_handle(requests[i].0, requests[i].1))
}

/// Serving is stateless and idempotent: in any sequence of requests, the
/// response at each position depends on that request alone, so equal
/// requests are answered equally however many come and in whatever order.
pub proof fn law_responses_idempotent(requests: Seq<(Method, Seq<char>)>, i: int, j: int)
    requires
        0 <= i < requests.len(),
        0 <= j < requests.len(),
        requests[i] == requests[j],
    ensures
        responses_of(requests)[i] == spec_handle(requests[i].0, requests[i].1),
        responses_of(requests)[i] == responses_of(requests)[j],
{
}

} // verus!
