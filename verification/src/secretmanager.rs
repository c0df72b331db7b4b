//! Secret Manager: requests for secrets and their versions, and the values their answers make.
use vstd::prelude::*;
use vstd::string::StringSliceAdditionalSpecFns;
use crate::text::{owned, push_str, str_eq};
use crate::external::{json_quote, json_quoted, base64_encode, base64_text, base64_encodable,
    Base64Engine, base64_decode_standard, base64_standard_decoded};
use crate::http::{Method, BodyView, HttpRequest, HttpResponse, ExchangeError, ApiError,
    json_parse_message, parsed, unchecked_outcome, unchecked_outcome_spec, exchange_message,
    exchange_error_message};
use crate::api::{bodyless_spec, with_body_spec, get_request, delete_request, json_request};

verus! {

/// The scope a Secret Manager token is asked for.
pub open spec fn secretmanager_scope() -> Seq<char> {
    "https://www.googleapis.com/auth/cloud-platform"@
}

/// The scope a Secret Manager token is asked for.
pub fn secretmanager_scope_string() -> (res: String)
    ensures
        res@ == secretmanager_scope(),
{
    owned("https://www.googleapis.com/auth/cloud-platform")
}

/// The API base URL.
pub open spec fn base_url() -> Seq<char> {
    "https://secretmanager.googleapis.com/v1"@
}

/// The state of a secret version.
#[derive(Clone, Copy, PartialEq, Eq, Structural)]
pub enum SecretVersionState {
    StateUnspecified,
    Enabled,
    Disabled,
    Destroyed,
}

/// A secret.
pub struct Secret {
    pub name: String,
    pub create_time: Option<String>,
}

/// A version of a secret.
pub struct SecretVersion {
    pub name: String,
    pub state: SecretVersionState,
    pub create_time: Option<String>,
    pub destroy_time: Option<String>,
}

/// The data of a secret version.
pub struct SecretPayload {
    pub data: Vec<u8>,
}

/// A secret as the API describes it.
pub struct SecretJson {
    pub name: String,
    pub create_time: Option<String>,
}

/// A secret version as the API describes it (an absent state is empty).
pub struct SecretVersionJson {
    pub name: String,
    pub state: String,
    pub create_time: Option<String>,
    pub destroy_time: Option<String>,
}

/// The answer to an access: the payload's base64 data.
pub struct AccessResponse {
    pub payload_data: String,
}

/// The answer to a secret listing.
pub struct ListSecretsResponse {
    pub secrets: Vec<SecretJson>,
}

/// The answer to a version listing.
pub struct ListSecretVersionsResponse {
    pub versions: Vec<SecretVersionJson>,
}

/// The version state an API state name stands for; any other name is unspecified.
pub open spec fn version_state_spec(s: Seq<char>) -> SecretVersionState {
    if s == "ENABLED"@ {
        SecretVersionState::Enabled
    } else if s == "DISABLED"@ {
        SecretVersionState::Disabled
    } else if s == "DESTROYED"@ {
        SecretVersionState::Destroyed
    } else {
        SecretVersionState::StateUnspecified
    }
}

/// The version state an API state name stands for.
pub fn parse_version_state(s: &str) -> (res: SecretVersionState)
    ensures
        res == version_state_spec(s@),
{
    if str_eq(s, "ENABLED") {
        SecretVersionState::Enabled
    } else if str_eq(s, "DISABLED") {
        SecretVersionState::Disabled
    } else if str_eq(s, "DESTROYED") {
        SecretVersionState::Destroyed
    } else {
        SecretVersionState::StateUnspecified
    }
}

/// The secret a description makes: the same fields.
pub open spec fn secret_spec(s: SecretJson) -> Secret {
    Secret { name: s.name, create_time: s.create_time }
}

/// The secret version a description makes: its state name read as a version state.
pub open spec fn secret_version_spec(v: SecretVersionJson) -> SecretVersion {
    SecretVersion {
        name: v.name,
        state: version_state_spec(v.state@),
        create_time: v.create_time,
        destroy_time: v.destroy_time,
    }
}

impl Secret {
    /// The secret a description makes.
    pub fn from_json(s: SecretJson) -> (res: Secret)
        ensures
            res == secret_spec(s),
    {
        Secret { name: s.name, create_time: s.create_time }
    }
}

impl SecretVersion {
    /// The secret version a description makes.
    pub fn from_json(v: SecretVersionJson) -> (res: SecretVersion)
        ensures
            res == secret_version_spec(v),
    {
        let state = parse_version_state(v.state.as_str());
        SecretVersion { name: v.name, state, create_time: v.create_time, destroy_time: v.destroy_time }
    }
}

// ---------------------------------------------------------------------------
// Answers

/// The body of a response whatever its status, or the request failure that the outcome is.
pub fn response_body(outcome: Result<HttpResponse, ExchangeError>) -> (res: Result<Vec<u8>, ApiError>)
    ensures
        unchecked_outcome_spec(outcome, "HTTP error"@) matches Ok(b) ==> (res matches Ok(v) && v@ == b),
        unchecked_outcome_spec(outcome, "HTTP error"@) matches Err(e) ==> (res matches Err(ApiError::RequestFailed(m)) && m@ == e),
{
    match unchecked_outcome(outcome, "HTTP error") {
        Ok(b) => Ok(b),
        Err(e) => Err(ApiError::RequestFailed(e)),
    }
}

/// Success once a delete was sent, or the request failure of not sending it.
pub fn delete_result(sent: Result<(), ExchangeError>) -> (res: Result<(), ApiError>)
    ensures
        sent is Ok ==> res is Ok,
        sent matches Err(e) ==> (res matches Err(ApiError::RequestFailed(m)) && m@ == exchange_message(e, "HTTP error"@)),
{
    match sent {
        Ok(()) => Ok(()),
        Err(e) => Err(ApiError::RequestFailed(exchange_error_message(e, "HTTP error"))),
    }
}

/// The payload of an access answer: its data decoded from base64, or the failure to decode.
pub open spec fn payload_spec(data: Seq<char>) -> Result<Seq<u8>, Seq<char>> {
    match base64_standard_decoded(vstd::utf8::encode_utf8(data)) {
        Ok(v) => Ok(v),
        Err(e) => Err("base64 decode error: "@ + e),
    }
}

/// The payload of a parsed access answer, or the request failure of a parse or decode error.
/// Data that is the base64 encoding of some bytes gives those bytes.
pub fn access_result(r: Result<AccessResponse, String>) -> (res: Result<SecretPayload, ApiError>)
    ensures
        r matches Ok(a) ==> (match payload_spec(a.payload_data@) {
            Ok(v) => res matches Ok(p) && p.data@ == v,
            Err(e) => res matches Err(ApiError::RequestFailed(m)) && m@ == e,
        }),
        r matches Ok(a) ==> forall|x: Seq<u8>|
            a.payload_data@ == #[trigger] base64_text(Base64Engine::Standard, x) ==> (res matches Ok(p) && p.data@ == x),
        r matches Err(e) ==> (res matches Err(ApiError::RequestFailed(m)) && m@ == json_parse_message(e@)),
{
    let a = parsed(r)?;
    match base64_decode_standard(a.payload_data.as_str()) {
        Ok(data) => Ok(SecretPayload { data }),
        Err(e) => {
            let mut m = owned("base64 decode error: ");
            push_str(&mut m, e.as_str());
            Err(ApiError::RequestFailed(m))
        },
    }
}

/// The secrets of a parsed listing, or the request failure of a parse error.
pub fn list_secrets_result(r: Result<ListSecretsResponse, String>) -> (res: Result<Vec<Secret>, ApiError>)
    ensures
        r matches Ok(l) ==> (res matches Ok(v) && v@ == l.secrets@.map_values(|s: SecretJson| secret_spec(s))),
        r matches Err(e) ==> (res matches Err(ApiError::RequestFailed(m)) && m@ == json_parse_message(e@)),
{
    let l = parsed(r)?;
    let items = l.secrets;
    let mut out: Vec<Secret> = Vec::new();
    for s in it: items
        invariant
            out@ == items@.take(it.index() as int).map_values(|s: SecretJson| secret_spec(s)),
    {
        out.push(Secret::from_json(s));
        proof {
            assert(items@.take(it.index() + 1) =~= items@.take(it.index() as int).push(items@[it.index() as int]));
            assert(out@ =~= items@.take(it.index() + 1).map_values(|s: SecretJson| secret_spec(s)));
        }
    }
    assert(items@.take(items@.len() as int) =~= items@);
    Ok(out)
}

/// The secret of a parsed description, or the request failure of a parse error.
pub fn secret_result(r: Result<SecretJson, String>) -> (res: Result<Secret, ApiError>)
    ensures
        r matches Ok(s) ==> res == Ok::<Secret, ApiError>(secret_spec(s)),
        r matches Err(e) ==> (res matches Err(ApiError::RequestFailed(m)) && m@ == json_parse_message(e@)),
{
    let s = parsed(r)?;
    Ok(Secret::from_json(s))
}

/// The versions of a parsed listing, or the request failure of a parse error.
pub fn list_secret_versions_result(r: Result<ListSecretVersionsResponse, String>) -> (res: Result<Vec<SecretVersion>, ApiError>)
    ensures
        r matches Ok(l) ==> (res matches Ok(v) && v@ == l.versions@.map_values(|x: SecretVersionJson| secret_version_spec(x))),
        r matches Err(e) ==> (res matches Err(ApiError::RequestFailed(m)) && m@ == json_parse_message(e@)),
{
    let l = parsed(r)?;
    let items = l.versions;
    let mut out: Vec<SecretVersion> = Vec::new();
    for x in it: items
        invariant
            out@ == items@.take(it.index() as int).map_values(|x: SecretVersionJson| secret_version_spec(x)),
    {
        out.push(SecretVersion::from_json(x));
        proof {
            assert(items@.take(it.index() + 1) =~= items@.take(it.index() as int).push(items@[it.index() as int]));
            assert(out@ =~= items@.take(it.index() + 1).map_values(|x: SecretVersionJson| secret_version_spec(x)));
        }
    }
    assert(items@.take(items@.len() as int) =~= items@);
    Ok(out)
}

/// The version of a parsed description, or the request failure of a parse error.
pub fn secret_version_result(r: Result<SecretVersionJson, String>) -> (res: Result<SecretVersion, ApiError>)
    ensures
        r matches Ok(v) ==> res == Ok::<SecretVersion, ApiError>(secret_version_spec(v)),
        r matches Err(e) ==> (res matches Err(ApiError::RequestFailed(m)) && m@ == json_parse_message(e@)),
{
    let v = parsed(r)?;
    Ok(SecretVersion::from_json(v))
}

// ---------------------------------------------------------------------------
// Requests

/// The URL of a named resource.
pub open spec fn resource_url(name: Seq<char>) -> Seq<char> {
    base_url() + "/"@ + name
}

fn resource_url_string(name: &str) -> (res: String)
    ensures
        res@ == resource_url(name@),
{
    let mut url = owned("https://secretmanager.googleapis.com/v1");
    push_str(&mut url, "/");
    push_str(&mut url, name);
    url
}

/// The request reading a secret version's payload.
pub fn access_secret_version_request(auth: &str, name: &str) -> (res: HttpRequest)
    ensures
        res@ == bodyless_spec(Method::Get, resource_url(name@) + ":access"@, auth@),
{
    let mut url = resource_url_string(name);
    push_str(&mut url, ":access");
    get_request(url, auth)
}

/// The request listing a project's secrets.
pub fn list_secrets_request(auth: &str, parent: &str) -> (res: HttpRequest)
    ensures
        res@ == bodyless_spec(Method::Get, resource_url(parent@) + "/secrets"@, auth@),
{
    let mut url = resource_url_string(parent);
    push_str(&mut url, "/secrets");
    get_request(url, auth)
}

/// The request describing a secret.
pub fn get_secret_request(auth: &str, name: &str) -> (res: HttpRequest)
    ensures
        res@ == bodyless_spec(Method::Get, resource_url(name@), auth@),
{
    get_request(resource_url_string(name), auth)
}

/// The request listing a secret's versions.
pub fn list_secret_versions_request(auth: &str, parent: &str) -> (res: HttpRequest)
    ensures
        res@ == bodyless_spec(Method::Get, resource_url(parent@) + "/versions"@, auth@),
{
    let mut url = resource_url_string(parent);
    push_str(&mut url, "/versions");
    get_request(url, auth)
}

/// The body adding a version: `{"payload":{"data":<base64 of the data>}}`.
pub open spec fn add_version_body(data: Seq<u8>) -> Seq<char> {
    "{\"payload\":{\"data\":"@ + json_quoted(base64_text(Base64Engine::Standard, data)) + "}}"@
}

/// The request adding a version with the payload's data.
pub fn add_secret_version_request(auth: &str, parent: &str, payload: &SecretPayload) -> (res: HttpRequest)
    requires
        base64_encodable(payload.data@.len()),
    ensures
        res@ == with_body_spec(Method::Post, resource_url(parent@) + ":addVersion"@, auth@,
            "application/json"@, BodyView::Text(add_version_body(payload.data@))),
{
    let encoded = base64_encode(Base64Engine::Standard, payload.data.as_slice());
    let mut body = owned("{\"payload\":{\"data\":");
    let q = json_quote(encoded.as_str());
    push_str(&mut body, q.as_str());
    push_str(&mut body, "}}");
    let mut url = resource_url_string(parent);
    push_str(&mut url, ":addVersion");
    json_request(Method::Post, url, auth, body)
}

/// The body creating a secret: automatic replication.
pub open spec fn create_secret_body() -> Seq<char> {
    "{\"replication\":{\"automatic\":{}}}"@
}

/// The request creating a secret with automatic replication.
pub fn create_secret_request(auth: &str, parent: &str, secret_id: &str) -> (res: HttpRequest)
    ensures
        res@ == with_body_spec(Method::Post, resource_url(parent@) + "/secrets?secretId="@ + secret_id@, auth@,
            "application/json"@, BodyView::Text(create_secret_body())),
{
    let mut url = resource_url_string(parent);
    push_str(&mut url, "/secrets?secretId=");
    push_str(&mut url, secret_id);
    json_request(Method::Post, url, auth, owned("{\"replication\":{\"automatic\":{}}}"))
}

/// The request deleting a secret.
pub fn delete_secret_request(auth: &str, name: &str) -> (res: HttpRequest)
    ensures
        res@ == bodyless_spec(Method::Delete, resource_url(name@), auth@),
{
    delete_request(resource_url_string(name), auth)
}

} // verus!
