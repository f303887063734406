//! Properties that hold of host parsing and routing for every input.
use vstd::prelude::*;
use crate::error::ParseError;
use crate::host::{IncomingRequest, is_header_text, ascii_chars, first_label, subdomain_of, host_view, extracted_view};
use crate::router::{Route, route_of, route_status};

verus! {

/// A readable, non-empty host whose first dot-separated label equals the base label
/// names no subdomain.
pub proof fn lemma_base_label_is_no_subdomain(host: Seq<u8>, base: Seq<char>)
    requires
        is_header_text(host),
        host.len() > 0,
        first_label(ascii_chars(host)) == base,
    ensures
        subdomain_of(Some(host), base) == Ok::<Option<Seq<char>>, ParseError>(None),
{
}

/// A readable, non-empty host whose first dot-separated label differs from the base
/// label names that label as its subdomain.
pub proof fn lemma_other_label_is_subdomain(host: Seq<u8>, base: Seq<char>)
    requires
        is_header_text(host),
        host.len() > 0,
        first_label(ascii_chars(host)) != base,
    ensures
        subdomain_of(Some(host), base) == Ok::<Option<Seq<char>>, ParseError>(
            Some(first_label(ascii_chars(host))),
        ),
{
}

/// Two results of reading the subdomain of the same request with the same base label
/// are the same: the outcome depends on nothing else.
pub proof fn lemma_extract_is_deterministic(
    req: IncomingRequest,
    base: Seq<char>,
    r1: Result<Option<String>, ParseError>,
    r2: Result<Option<String>, ParseError>,
)
    requires
        extracted_view(r1) == subdomain_of(host_view(&req), base),
        extracted_view(r2) == subdomain_of(host_view(&req), base),
    ensures
        extracted_view(r1) == extracted_view(r2),
{
}

/// Every subdomain decision selects exactly one route, and every route answers with
/// a defined status: 200 for the default and API routes, 404 otherwise.
pub proof fn lemma_routing_is_total(d: Option<Seq<char>>)
    ensures
        route_of(d) == Route::Default || route_of(d) == Route::Api || route_of(d)
            == Route::NotFound,
        route_of(d) == Route::Default <==> (d is None || d == Some("www"@)),
        route_of(d) == Route::Api <==> d == Some("api"@),
        route_status(route_of(d)) == (if route_of(d) == Route::NotFound {
            404u16
        } else {
            200u16
        }),
{
    reveal_strlit("www");
    reveal_strlit("api");
    assert("www"@[0] != "api"@[0]);
}

} // verus!
