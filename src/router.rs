//! Choosing the handler for a request from its subdomain, and the responses they give.
use vstd::prelude::*;
use crate::error::ParseError;
use crate::host::{IncomingRequest, extract_subdomain, subdomain_of, host_view, decision_view};

verus! {

/// The handler that a subdomain decision selects.
#[derive(Debug, Clone, Copy, PartialEq, Eq, Structural)]
pub enum Route {
    /// The root site, for no subdomain or `www`.
    Default,
    /// The API, for `api`.
    Api,
    /// Any other subdomain: answered with 404 before any handler runs.
    NotFound,
}

/// A response: its HTTP status code and its plain-text body.
#[derive(Debug, Clone)]
pub struct OutgoingResponse {
    pub status: u16,
    pub body: String,
}

/// The route for a subdomain decision.
pub open spec fn route_of(d: Option<Seq<char>>) -> Route {
    match d {
        None => Route::Default,
        Some(l) => if l == "www"@ {
            Route::Default
        } else if l == "api"@ {
            Route::Api
        } else {
            Route::NotFound
        },
    }
}

/// The status code that a route answers with.
pub open spec fn route_status(r: Route) -> u16 {
    match r {
        Route::NotFound => 404,
        _ => 200,
    }
}

/// The body that a route answers with.
pub open spec fn route_body(r: Route) -> Seq<char> {
    match r {
        Route::Default => "Default router\n"@,
        Route::Api => "API router\n"@,
        Route::NotFound => "Page not found | Invalid subdomain.\n"@,
    }
}

/// True when `resp` is the response of route `r`.
pub open spec fn answers(resp: OutgoingResponse, r: Route) -> bool {
    resp.status == route_status(r) && resp.body@ == route_body(r)
}

/// The body of the 400 response for a host that could not be read.
pub open spec fn parse_error_body(e: ParseError) -> Seq<char> {
    match e {
        ParseError::MissingHost => "Bad request | Missing Host header.\n"@,
        ParseError::InvalidHeaderEncoding => "Bad request | Host header is not valid text.\n"@,
        ParseError::EmptyHost => "Bad request | Empty Host header.\n"@,
    }
}

/// The route for a subdomain decision: no subdomain and `www` go to the default
/// handler, `api` to the API handler, anything else is not found.
pub fn route(d: &Option<String>) -> (r: Route)
    ensures
        r == route_of(decision_view(*d)),
{
    match d {
        None => Route::Default,
        Some(l) => {
            let www = String::from_str("www");
            let api = String::from_str("api");
            if *l == www {
                Route::Default
            } else if *l == api {
                Route::Api
            } else {
                Route::NotFound
            }
        },
    }
}

/// The handler of the root site.
pub fn default_middleware(_req: &IncomingRequest) -> (r: OutgoingResponse)
    ensures
        answers(r, Route::Default),
{
    OutgoingResponse { status: 200, body: String::from_str("Default router\n") }
}

/// The handler of the API.
pub fn api_middleware(_req: &IncomingRequest) -> (r: OutgoingResponse)
    ensures
        answers(r, Route::Api),
{
    OutgoingResponse { status: 200, body: String::from_str("API router\n") }
}

/// The response for an unknown subdomain.
pub fn not_found() -> (r: OutgoingResponse)
    ensures
        answers(r, Route::NotFound),
{
    OutgoingResponse { status: 404, body: String::from_str("Page not found | Invalid subdomain.\n") }
}

/// The 400 response for a host that could not be read.
pub fn bad_request(e: ParseError) -> (r: OutgoingResponse)
    ensures
        r.status == 400,
        r.body@ == parse_error_body(e),
{
    let body = match e {
        ParseError::MissingHost => String::from_str("Bad request | Missing Host header.\n"),
        ParseError::InvalidHeaderEncoding => String::from_str(
            "Bad request | Host header is not valid text.\n",
        ),
        ParseError::EmptyHost => String::from_str("Bad request | Empty Host header.\n"),
    };
    OutgoingResponse { status: 400, body }
}

/// Answers the request with exactly one handler chosen by its subdomain, or passes
/// on the error that reading its host gave.
pub fn dispatch(req: &IncomingRequest, base_label: &str) -> (r: Result<OutgoingResponse, ParseError>)
    ensures
        match subdomain_of(host_view(req), base_label@) {
            Err(e) => r == Err::<OutgoingResponse, ParseError>(e),
            Ok(d) => r matches Ok(resp) && answers(resp, route_of(d)),
        },
{
    let d = extract_subdomain(req, base_label)?;
    match route(&d) {
        Route::Default => Ok(default_middleware(req)),
        Route::Api => Ok(api_middleware(req)),
        Route::NotFound => Ok(not_found()),
    }
}

/// Answers every request: as `dispatch` does, and with a 400 response where its host
/// could not be read.
pub fn middleware(req: &IncomingRequest, base_label: &str) -> (r: OutgoingResponse)
    ensures
        match subdomain_of(host_view(req), base_label@) {
            Err(e) => r.status == 400 && r.body@ == parse_error_body(e),
            Ok(d) => answers(r, route_of(d)),
        },
{
    match dispatch(req, base_label) {
        Ok(resp) => resp,
        Err(e) => bad_request(e),
    }
}

} // verus!
