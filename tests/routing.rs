use subdomain_router::error::ParseError;
use subdomain_router::host::{check_header_text, extract_subdomain, IncomingRequest};
use subdomain_router::router::{
    api_middleware, bad_request, default_middleware, dispatch, middleware, not_found, route, Route,
};

fn request(host: &str) -> IncomingRequest {
    IncomingRequest { host: Some(host.as_bytes().to_vec()) }
}

#[test]
fn root_host_goes_to_default_handler() {
    let req = request("example.com");
    assert_eq!(extract_subdomain(&req, "example"), Ok(None));
    let resp = dispatch(&req, "example").unwrap();
    assert_eq!(resp.status, 200);
    assert_eq!(resp.body, "Default router\n");
}

#[test]
fn www_host_goes_to_default_handler() {
    let req = request("www.example.com");
    assert_eq!(extract_subdomain(&req, "example"), Ok(Some("www".to_string())));
    let resp = dispatch(&req, "example").unwrap();
    assert_eq!(resp.status, 200);
    assert_eq!(resp.body, "Default router\n");
}

#[test]
fn api_host_goes_to_api_handler() {
    let req = request("api.example.com");
    assert_eq!(extract_subdomain(&req, "example"), Ok(Some("api".to_string())));
    let resp = dispatch(&req, "example").unwrap();
    assert_eq!(resp.status, 200);
    assert_eq!(resp.body, "API router\n");
}

#[test]
fn unknown_subdomain_is_not_found() {
    let req = request("blog.example.com");
    assert_eq!(extract_subdomain(&req, "example"), Ok(Some("blog".to_string())));
    let resp = dispatch(&req, "example").unwrap();
    assert_eq!(resp.status, 404);
    assert_eq!(resp.body, "Page not found | Invalid subdomain.\n");
}

#[test]
fn missing_host_is_a_bad_request() {
    let req = IncomingRequest { host: None };
    assert_eq!(extract_subdomain(&req, "example"), Err(ParseError::MissingHost));
    assert_eq!(dispatch(&req, "example").unwrap_err(), ParseError::MissingHost);
    let resp = middleware(&req, "example");
    assert_eq!(resp.status, 400);
    assert_eq!(resp.body, "Bad request | Missing Host header.\n");
}

#[test]
fn empty_host_is_an_error() {
    let req = request("");
    assert_eq!(extract_subdomain(&req, "example"), Err(ParseError::EmptyHost));
    assert_eq!(extract_subdomain(&req, ""), Err(ParseError::EmptyHost));
    let resp = middleware(&req, "example");
    assert_eq!(resp.status, 400);
    assert_eq!(resp.body, "Bad request | Empty Host header.\n");
}

#[test]
fn undecodable_host_is_an_error() {
    let control = IncomingRequest { host: Some(vec![b'a', 0x01, b'b']) };
    assert_eq!(extract_subdomain(&control, "example"), Err(ParseError::InvalidHeaderEncoding));
    let high = IncomingRequest { host: Some("é.example.com".as_bytes().to_vec()) };
    assert_eq!(extract_subdomain(&high, "example"), Err(ParseError::InvalidHeaderEncoding));
    let delete = IncomingRequest { host: Some(vec![b'a', 0x7f]) };
    assert_eq!(dispatch(&delete, "example").unwrap_err(), ParseError::InvalidHeaderEncoding);
    assert_eq!(middleware(&delete, "example").status, 400);
}

#[test]
fn host_without_dots_is_one_label() {
    assert_eq!(extract_subdomain(&request("example"), "example"), Ok(None));
    assert_eq!(extract_subdomain(&request("localhost:3000"), "example"), Ok(Some("localhost:3000".to_string())));
    assert_eq!(extract_subdomain(&request("localhost:3000"), "localhost:3000"), Ok(None));
}

#[test]
fn comparison_is_case_sensitive() {
    assert_eq!(extract_subdomain(&request("Example.com"), "example"), Ok(Some("Example".to_string())));
    let resp = dispatch(&request("WWW.example.com"), "example").unwrap();
    assert_eq!(resp.status, 404);
}

#[test]
fn empty_first_label() {
    assert_eq!(extract_subdomain(&request(".example.com"), "example"), Ok(Some(String::new())));
    assert_eq!(extract_subdomain(&request(".example.com"), ""), Ok(None));
    assert_eq!(dispatch(&request(".example.com"), "").unwrap().status, 200);
}

#[test]
fn base_label_matches_whole_first_label_only() {
    assert_eq!(extract_subdomain(&request("examples.com"), "example"), Ok(Some("examples".to_string())));
    assert_eq!(extract_subdomain(&request("exam.com"), "example"), Ok(Some("exam".to_string())));
}

#[test]
fn extract_twice_gives_the_same() {
    let req = request("shop.example.com");
    assert_eq!(extract_subdomain(&req, "example"), extract_subdomain(&req, "example"));
    let none = IncomingRequest { host: None };
    assert_eq!(extract_subdomain(&none, "example"), extract_subdomain(&none, "example"));
}

#[test]
fn every_decision_has_a_route() {
    assert_eq!(route(&None), Route::Default);
    assert_eq!(route(&Some("www".to_string())), Route::Default);
    assert_eq!(route(&Some("api".to_string())), Route::Api);
    assert_eq!(route(&Some("blog".to_string())), Route::NotFound);
    assert_eq!(route(&Some(String::new())), Route::NotFound);
    assert_eq!(route(&Some("apix".to_string())), Route::NotFound);
}

#[test]
fn handlers_give_fixed_responses() {
    let req = IncomingRequest { host: None };
    let d = default_middleware(&req);
    assert_eq!((d.status, d.body.as_str()), (200, "Default router\n"));
    let a = api_middleware(&req);
    assert_eq!((a.status, a.body.as_str()), (200, "API router\n"));
    let n = not_found();
    assert_eq!((n.status, n.body.as_str()), (404, "Page not found | Invalid subdomain.\n"));
}

#[test]
fn parse_errors_become_bad_requests() {
    assert_eq!(bad_request(ParseError::MissingHost).body, "Bad request | Missing Host header.\n");
    assert_eq!(bad_request(ParseError::InvalidHeaderEncoding).body, "Bad request | Host header is not valid text.\n");
    assert_eq!(bad_request(ParseError::EmptyHost).body, "Bad request | Empty Host header.\n");
    assert_eq!(bad_request(ParseError::EmptyHost).status, 400);
}

#[test]
fn middleware_answers_like_dispatch() {
    let resp = middleware(&request("api.example.com"), "example");
    assert_eq!((resp.status, resp.body.as_str()), (200, "API router\n"));
    let resp = middleware(&request("blog.example.com"), "example");
    assert_eq!(resp.status, 404);
}

#[test]
fn header_text_rule() {
    assert!(check_header_text(b"api.example.com:8080"));
    assert!(check_header_text(b"a\tb c~"));
    assert!(check_header_text(b""));
    assert!(!check_header_text(&[0x1f]));
    assert!(!check_header_text(&[b'a', 0x7f]));
    assert!(!check_header_text(&[0xc3, 0xa9]));
}
