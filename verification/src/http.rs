//! HTTP requests as values, and the interpretation of HTTP outcomes.
use vstd::prelude::*;
use crate::text::{owned, push_str, push_decimal, decimal};
use crate::external::{utf8_lossy, utf8_lossy_text};
use crate::token::{Token, AuthError};

verus! {

/// HTTP methods.
#[derive(Clone, Copy, PartialEq, Eq, Structural)]
pub enum Method {
    Get,
    Post,
    Put,
    Delete,
}

/// The body of a request.
pub enum Body {
    Empty,
    /// Text, sent as its UTF-8 bytes.
    Text(String),
    Bytes(Vec<u8>),
}

/// The contents of a `Body`.
pub enum BodyView {
    Empty,
    Text(Seq<char>),
    Bytes(Seq<u8>),
}

impl View for Body {
    type V = BodyView;

    open spec fn view(&self) -> BodyView {
        match self {
            Body::Empty => BodyView::Empty,
            Body::Text(t) => BodyView::Text(t@),
            Body::Bytes(b) => BodyView::Bytes(b@),
        }
    }
}

/// A request to send.
pub struct HttpRequest {
    pub method: Method,
    pub url: String,
    /// Header names and values, in the order they are set.
    pub headers: Vec<(String, String)>,
    pub body: Body,
}

/// The contents of an `HttpRequest`.
pub struct RequestView {
    pub method: Method,
    pub url: Seq<char>,
    pub headers: Seq<(Seq<char>, Seq<char>)>,
    pub body: BodyView,
}

/// The names and values of a list of headers.
pub open spec fn headers_view(h: Seq<(String, String)>) -> Seq<(Seq<char>, Seq<char>)> {
    h.map_values(|p: (String, String)| (p.0@, p.1@))
}

impl View for HttpRequest {
    type V = RequestView;

    open spec fn view(&self) -> RequestView {
        RequestView {
            method: self.method,
            url: self.url@,
            headers: headers_view(self.headers@),
            body: self.body@,
        }
    }
}

/// A header with the given name and value.
pub fn header(name: &str, value: &str) -> (res: (String, String))
    ensures
        res.0@ == name@,
        res.1@ == value@,
{
    (owned(name), owned(value))
}

/// A request with one header.
pub fn request_with_header(method: Method, url: String, name: &str, value: &str, body: Body) -> (res: HttpRequest)
    ensures
        res@ == (RequestView {
            method,
            url: url@,
            headers: seq![(name@, value@)],
            body: body@,
        }),
{
    let mut headers: Vec<(String, String)> = Vec::new();
    headers.push(header(name, value));
    let res = HttpRequest { method, url, headers, body };
    proof {
        assert(headers_view(res.headers@) =~= seq![(name@, value@)]);
    }
    res
}

/// A request with two headers.
pub fn request_with_headers(
    method: Method,
    url: String,
    first: (String, String),
    second: (String, String),
    body: Body,
) -> (res: HttpRequest)
    ensures
        res@ == (RequestView {
            method,
            url: url@,
            headers: seq![(first.0@, first.1@), (second.0@, second.1@)],
            body: body@,
        }),
{
    let ghost g1 = (first.0@, first.1@);
    let ghost g2 = (second.0@, second.1@);
    let mut headers: Vec<(String, String)> = Vec::new();
    headers.push(first);
    headers.push(second);
    let res = HttpRequest { method, url, headers, body };
    proof {
        assert(headers_view(res.headers@) =~= seq![g1, g2]);
    }
    res
}

/// A response: its status code and its body.
pub struct HttpResponse {
    pub status: u16,
    pub body: Vec<u8>,
}

/// Why an exchange with a server gave no response to interpret.
pub enum ExchangeError {
    /// The request could not be built (an invalid URL or header); the builder's message.
    RequestBuild(String),
    /// The request could not be sent or no response came; the client's message.
    Transport(String),
    /// The response body could not be read; the message.
    BodyRead(String),
}

/// The error message for a failed exchange, with `transport` naming a transport failure.
pub open spec fn exchange_message(e: ExchangeError, transport: Seq<char>) -> Seq<char> {
    match e {
        ExchangeError::RequestBuild(m) => "request build error: "@ + m@,
        ExchangeError::Transport(m) => transport + ": "@ + m@,
        ExchangeError::BodyRead(m) => "body read error: "@ + m@,
    }
}

/// The error message for a failed exchange.
pub fn exchange_error_message(e: ExchangeError, transport: &str) -> (res: String)
    ensures
        res@ == exchange_message(e, transport@),
{
    match e {
        ExchangeError::RequestBuild(m) => {
            let mut s = owned("request build error: ");
            push_str(&mut s, m.as_str());
            s
        },
        ExchangeError::Transport(m) => {
            let mut s = owned(transport);
            push_str(&mut s, ": ");
            push_str(&mut s, m.as_str());
            s
        },
        ExchangeError::BodyRead(m) => {
            let mut s = owned("body read error: ");
            push_str(&mut s, m.as_str());
            s
        },
    }
}

/// A status code of success (`200..=299`).
pub open spec fn is_success(status: u16) -> bool {
    200 <= status <= 299
}

/// What a response gives when its status is checked: the body on success, otherwise an error
/// naming the status and holding the body as text.
pub open spec fn checked_body_spec(status: u16, body: Seq<u8>) -> Result<Seq<u8>, Seq<char>> {
    if is_success(status) {
        Ok(body)
    } else {
        Err("HTTP "@ + decimal(status as nat) + ": "@ + utf8_lossy_text(body))
    }
}

/// The body of a response of success; for any other status, `HTTP <code>: <body as text>`.
pub fn check_status(response: HttpResponse) -> (res: Result<Vec<u8>, String>)
    ensures
        match res {
            Ok(b) => checked_body_spec(response.status, response.body@) == Ok::<Seq<u8>, Seq<char>>(b@),
            Err(e) => checked_body_spec(response.status, response.body@) == Err::<Seq<u8>, Seq<char>>(e@),
        },
{
    if 200 <= response.status && response.status <= 299 {
        Ok(response.body)
    } else {
        let mut s = owned("HTTP ");
        push_decimal(&mut s, response.status as u64);
        push_str(&mut s, ": ");
        let text = utf8_lossy(response.body.as_slice());
        push_str(&mut s, text.as_str());
        Err(s)
    }
}

/// The outcome of an exchange whose status is checked: the body of a response of success, or
/// the message of what failed, with `HTTP error` naming a transport failure.
pub open spec fn checked_outcome_spec(outcome: Result<HttpResponse, ExchangeError>) -> Result<Seq<u8>, Seq<char>> {
    match outcome {
        Ok(r) => checked_body_spec(r.status, r.body@),
        Err(e) => Err(exchange_message(e, "HTTP error"@)),
    }
}

/// The body of a response of success, or the message of what failed.
pub fn checked_outcome(outcome: Result<HttpResponse, ExchangeError>) -> (res: Result<Vec<u8>, String>)
    ensures
        match res {
            Ok(b) => checked_outcome_spec(outcome) == Ok::<Seq<u8>, Seq<char>>(b@),
            Err(e) => checked_outcome_spec(outcome) == Err::<Seq<u8>, Seq<char>>(e@),
        },
{
    match outcome {
        Ok(r) => check_status(r),
        Err(e) => Err(exchange_error_message(e, "HTTP error")),
    }
}

/// The body of a response whatever its status, or the message of what failed, with
/// `transport` naming a transport failure.
pub open spec fn unchecked_outcome_spec(
    outcome: Result<HttpResponse, ExchangeError>,
    transport: Seq<char>,
) -> Result<Seq<u8>, Seq<char>> {
    match outcome {
        Ok(r) => Ok(r.body@),
        Err(e) => Err(exchange_message(e, transport)),
    }
}

/// The body of a response whatever its status, or the message of what failed.
pub fn unchecked_outcome(outcome: Result<HttpResponse, ExchangeError>, transport: &str) -> (res: Result<Vec<u8>, String>)
    ensures
        match res {
            Ok(b) => unchecked_outcome_spec(outcome, transport@) == Ok::<Seq<u8>, Seq<char>>(b@),
            Err(e) => unchecked_outcome_spec(outcome, transport@) == Err::<Seq<u8>, Seq<char>>(e@),
        },
{
    match outcome {
        Ok(r) => Ok(r.body),
        Err(e) => Err(exchange_error_message(e, transport)),
    }
}

/// The `Authorization` header value for a token: its type, a space, and the token.
pub open spec fn authorization_spec(t: crate::token::TokenView) -> Seq<char> {
    t.token_type + " "@ + t.access_token
}

/// The `Authorization` header value for a token.
pub fn authorization(token: &Token) -> (res: String)
    ensures
        res@ == authorization_spec(token@),
{
    let mut s = token.token_type.clone();
    push_str(&mut s, " ");
    push_str(&mut s, token.access_token.as_str());
    s
}

/// Errors of the service operations.
pub enum ApiError {
    /// No token could be had.
    Auth(AuthError),
    /// The request failed; the message.
    RequestFailed(String),
}

/// The message of a JSON parse error.
pub open spec fn json_parse_message(e: Seq<char>) -> Seq<char> {
    "JSON parse error: "@ + e
}

/// A parsed value, or a request failure naming the JSON parse error.
pub fn parsed<T>(r: Result<T, String>) -> (res: Result<T, ApiError>)
    ensures
        r matches Ok(v) ==> res == Ok::<T, ApiError>(v),
        r matches Err(e) ==> (res matches Err(ApiError::RequestFailed(m)) && m@ == json_parse_message(e@)),
{
    match r {
        Ok(v) => Ok(v),
        Err(e) => {
            let mut s = owned("JSON parse error: ");
            push_str(&mut s, e.as_str());
            Err(ApiError::RequestFailed(s))
        },
    }
}

} // verus!
