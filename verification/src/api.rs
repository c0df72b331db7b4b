//! What the service clients share: authorized requests and the interpretation of outcomes.
use vstd::prelude::*;
use crate::text::owned;
use crate::http::{Method, Body, BodyView, HttpRequest, RequestView, HttpResponse, ExchangeError,
    ApiError, request_with_header, request_with_headers, header, checked_outcome,
    checked_outcome_spec};

verus! {

/// An authorized request without a body.
pub open spec fn bodyless_spec(method: Method, url: Seq<char>, auth: Seq<char>) -> RequestView {
    RequestView {
        method,
        url,
        headers: seq![("Authorization"@, auth)],
        body: BodyView::Empty,
    }
}

/// An authorized request with a body of the given content type.
pub open spec fn with_body_spec(
    method: Method,
    url: Seq<char>,
    auth: Seq<char>,
    content_type: Seq<char>,
    body: BodyView,
) -> RequestView {
    RequestView {
        method,
        url,
        headers: seq![("Authorization"@, auth), ("Content-Type"@, content_type)],
        body,
    }
}

/// An authorized GET of `url`.
pub fn get_request(url: String, auth: &str) -> (res: HttpRequest)
    ensures
        res@ == bodyless_spec(Method::Get, url@, auth@),
{
    request_with_header(Method::Get, url, "Authorization", auth, Body::Empty)
}

/// An authorized DELETE of `url`.
pub fn delete_request(url: String, auth: &str) -> (res: HttpRequest)
    ensures
        res@ == bodyless_spec(Method::Delete, url@, auth@),
{
    request_with_header(Method::Delete, url, "Authorization", auth, Body::Empty)
}

/// An authorized request with a body.
pub fn body_request(method: Method, url: String, auth: &str, content_type: &str, body: Body) -> (res: HttpRequest)
    ensures
        res@ == with_body_spec(method, url@, auth@, content_type@, body@),
{
    request_with_headers(method, url, header("Authorization", auth), header("Content-Type", content_type), body)
}

/// An authorized request with a JSON body.
pub fn json_request(method: Method, url: String, auth: &str, json: String) -> (res: HttpRequest)
    ensures
        res@ == with_body_spec(method, url@, auth@, "application/json"@, BodyView::Text(json@)),
{
    body_request(method, url, auth, "application/json", Body::Text(json))
}

/// The body of a response of success, or the request failure that the outcome is.
pub fn response_body(outcome: Result<HttpResponse, ExchangeError>) -> (res: Result<Vec<u8>, ApiError>)
    ensures
        checked_outcome_spec(outcome) matches Ok(b) ==> (res matches Ok(v) && v@ == b),
        checked_outcome_spec(outcome) matches Err(e) ==> (res matches Err(ApiError::RequestFailed(m)) && m@ == e),
{
    match checked_outcome(outcome) {
        Ok(b) => Ok(b),
        Err(e) => Err(ApiError::RequestFailed(e)),
    }
}

/// Success, or the request failure that the outcome is; the body of a success is not used.
pub fn response_unit(outcome: Result<HttpResponse, ExchangeError>) -> (res: Result<(), ApiError>)
    ensures
        checked_outcome_spec(outcome) is Ok ==> res is Ok,
        checked_outcome_spec(outcome) matches Err(e) ==> (res matches Err(ApiError::RequestFailed(m)) && m@ == e),
{
    match checked_outcome(outcome) {
        Ok(_) => Ok(()),
        Err(e) => Err(ApiError::RequestFailed(e)),
    }
}

} // verus!
