//! Token requests: the form of a refresh-token grant, the metadata server URL, and the signed
//! JWT assertion of a service account; and the token that a token response makes.
use vstd::prelude::*;
use vstd::utf8::encode_utf8;
use vstd::string::StringSliceAdditionalSpecFns;
use crate::text::{owned, push_str, push_decimal, decimal, join, views, join_strings};
use crate::external::{percent_encode, percent_encoded, EncodeSet, base64_encode, base64_text,
    base64_encodable, Base64Engine, json_quote, json_quoted, rs256_sign, rs256_signature,
    pkcs8_pem_error, SignError, is_url_safe_base64_char};
use crate::http::{Method, Body, BodyView, HttpRequest, RequestView, request_with_header};
use crate::token::{Token, TokenView};

verus! {

/// The OAuth2 token endpoint.
pub open spec fn token_endpoint() -> Seq<char> {
    "https://oauth2.googleapis.com/token"@
}

/// The content type of a form body.
pub open spec fn form_content_type() -> Seq<char> {
    "application/x-www-form-urlencoded"@
}

/// A form value: the percent-encoding of its UTF-8 bytes, keeping only ASCII letters and digits.
pub open spec fn form_value(s: Seq<char>) -> Seq<char> {
    percent_encoded(EncodeSet::NonAlphanumeric, encode_utf8(s))
}

/// The form body of a refresh-token grant.
pub open spec fn refresh_form(client_id: Seq<char>, client_secret: Seq<char>, refresh_token: Seq<char>) -> Seq<char> {
    "grant_type=refresh_token&client_id="@ + form_value(client_id) + "&client_secret="@
        + form_value(client_secret) + "&refresh_token="@ + form_value(refresh_token)
}

/// A form POST to `url`.
pub open spec fn form_post(url: Seq<char>, form: Seq<char>) -> RequestView {
    RequestView {
        method: Method::Post,
        url,
        headers: seq![("Content-Type"@, form_content_type())],
        body: BodyView::Text(form),
    }
}

/// The token request of a user's refresh token: a form POST of the refresh-token grant to the
/// OAuth2 token endpoint.
pub fn authorized_user_request(client_id: &str, client_secret: &str, refresh_token: &str) -> (res: HttpRequest)
    ensures
        res@ == form_post(token_endpoint(), refresh_form(client_id@, client_secret@, refresh_token@)),
{
    let mut form = owned("grant_type=refresh_token&client_id=");
    let v = percent_encode(client_id, EncodeSet::NonAlphanumeric);
    push_str(&mut form, v.as_str());
    push_str(&mut form, "&client_secret=");
    let v = percent_encode(client_secret, EncodeSet::NonAlphanumeric);
    push_str(&mut form, v.as_str());
    push_str(&mut form, "&refresh_token=");
    let v = percent_encode(refresh_token, EncodeSet::NonAlphanumeric);
    push_str(&mut form, v.as_str());
    request_with_header(
        Method::Post,
        owned("https://oauth2.googleapis.com/token"),
        "Content-Type",
        "application/x-www-form-urlencoded",
        Body::Text(form),
    )
}

/// The metadata server host: `GCE_METADATA_HOST` when set, else the default name.
pub open spec fn metadata_host(env: Option<Seq<char>>) -> Seq<char> {
    match env {
        Some(h) => h,
        None => "metadata.google.internal"@,
    }
}

/// The metadata server URL of the default service account's token, asking for `scopes`
/// (joined by commas, percent-encoded as a query value) when there are any.
pub open spec fn metadata_url(host: Seq<char>, scopes: Seq<Seq<char>>) -> Seq<char> {
    let base = "http://"@ + host + "/computeMetadata/v1/instance/service-accounts/default/token"@;
    if scopes.len() == 0 {
        base
    } else {
        base + "?scopes="@ + percent_encoded(EncodeSet::QueryValue, encode_utf8(join(scopes, ","@)))
    }
}

/// The token request to the metadata server: a GET with the `Metadata-Flavor: Google` header.
pub open spec fn metadata_request_spec(env_host: Option<Seq<char>>, scopes: Seq<Seq<char>>) -> RequestView {
    RequestView {
        method: Method::Get,
        url: metadata_url(metadata_host(env_host), scopes),
        headers: seq![("Metadata-Flavor"@, "Google"@)],
        body: BodyView::Empty,
    }
}

/// The token request to the metadata server, given the value of `GCE_METADATA_HOST`.
pub fn metadata_request(env_host: Option<String>, scopes: &[String]) -> (res: HttpRequest)
    ensures
        res@ == metadata_request_spec(crate::adc::opt_view(env_host), views(scopes@)),
{
    let host = match env_host {
        Some(h) => h,
        None => owned("metadata.google.internal"),
    };
    let mut url = owned("http://");
    push_str(&mut url, host.as_str());
    push_str(&mut url, "/computeMetadata/v1/instance/service-accounts/default/token");
    if scopes.len() > 0 {
        let joined = join_strings(scopes, ",");
        let encoded = percent_encode(joined.as_str(), EncodeSet::QueryValue);
        push_str(&mut url, "?scopes=");
        push_str(&mut url, encoded.as_str());
    }
    request_with_header(Method::Get, url, "Metadata-Flavor", "Google", Body::Empty)
}

/// The JSON header of the JWT assertion (keys in order, as serde_json writes an object).
pub open spec fn jwt_header_json(key_id: Seq<char>) -> Seq<char> {
    "{\"alg\":\"RS256\",\"kid\":"@ + json_quoted(key_id) + ",\"typ\":\"JWT\"}"@
}

/// The JSON claims of the JWT assertion, issued at `now` (seconds since the epoch) and valid
/// for an hour.
pub open spec fn jwt_claims_json(
    client_email: Seq<char>,
    audience: Seq<char>,
    scopes: Seq<Seq<char>>,
    now: u64,
) -> Seq<char> {
    "{\"aud\":"@ + json_quoted(audience) + ",\"exp\":"@ + decimal((now + 3600) as nat) + ",\"iat\":"@
        + decimal(now as nat) + ",\"iss\":"@ + json_quoted(client_email) + ",\"scope\":"@
        + json_quoted(join(scopes, " "@)) + "}"@
}

/// The URL-safe unpadded base64 text of a string's UTF-8 bytes.
pub open spec fn b64url_text(s: Seq<char>) -> Seq<char> {
    base64_text(Base64Engine::UrlSafeNoPad, encode_utf8(s))
}

/// The message of the base64 crate when an encoding would not fit in memory.
pub open spec fn too_long_message() -> Seq<char> {
    "integer overflow when calculating buffer size"@
}

/// The signed JWT assertion of a service account, or why none can be made: the header and
/// the claims, each as URL-safe base64 of its JSON, joined by `.`, then `.` and the URL-safe
/// base64 of the RS256 signature of that text.
pub open spec fn jwt_spec(
    client_email: Seq<char>,
    private_key_pem: Seq<char>,
    private_key_id: Seq<char>,
    audience: Seq<char>,
    scopes: Seq<Seq<char>>,
    now: u64,
) -> Result<Seq<char>, Seq<char>> {
    let header = jwt_header_json(private_key_id);
    let claims = jwt_claims_json(client_email, audience, scopes, now);
    if !base64_encodable(encode_utf8(header).len()) || !base64_encodable(encode_utf8(claims).len()) {
        Err(too_long_message())
    } else {
        let signing_input = b64url_text(header) + "."@ + b64url_text(claims);
        match pkcs8_pem_error(private_key_pem) {
            Some(e) => Err("failed to parse private key: "@ + e),
            None => match rs256_signature(private_key_pem, encode_utf8(signing_input)) {
                None => Err("signature operation failed"@),
                Some(sig) => if !base64_encodable(sig.len()) {
                    Err(too_long_message())
                } else {
                    Ok(signing_input + "."@ + base64_text(Base64Engine::UrlSafeNoPad, sig))
                },
            },
        }
    }
}

/// The URL-safe unpadded base64 of a string's UTF-8 bytes, unless its length does not fit.
fn b64url_of_text(s: &str) -> (res: Option<String>)
    ensures
        base64_encodable(encode_utf8(s@).len()) ==> (res matches Some(t) && t@ == b64url_text(s@)),
        !base64_encodable(encode_utf8(s@).len()) ==> res is None,
        res matches Some(t) ==> forall|i: int| 0 <= i < t@.len() ==> is_url_safe_base64_char(#[trigger] t@[i]),
{
    let bytes = s.as_bytes();
    if bytes.len() / 3 > (usize::MAX - 4) / 4 {
        None
    } else {
        Some(base64_encode(Base64Engine::UrlSafeNoPad, bytes))
    }
}

/// No character of `s` is a dot.
pub open spec fn no_dot(s: Seq<char>) -> bool {
    forall|i: int| 0 <= i < s.len() ==> s[i] != '.'
}

/// `s` is the three dot-free segments `h`, `c`, `g` joined by dots.
pub open spec fn jwt_parts(s: Seq<char>, h: Seq<char>, c: Seq<char>, g: Seq<char>) -> bool {
    &&& s == h + seq!['.'] + c + seq!['.'] + g
    &&& no_dot(h)
    &&& no_dot(c)
    &&& no_dot(g)
}

/// `s` is a compact JWT: three dot-free segments joined by dots.
pub open spec fn is_compact_jwt(s: Seq<char>) -> bool {
    exists|h: Seq<char>, c: Seq<char>, g: Seq<char>| #[trigger] jwt_parts(s, h, c, g)
}

/// Builds the signed JWT assertion of a service account for `scopes`, issued at `now`
/// (seconds since the epoch). An assertion is always a compact JWT: header, claims and
/// signature, each dot-free, joined by dots.
pub fn build_jwt(
    client_email: &str,
    private_key_pem: &str,
    private_key_id: &str,
    audience: &str,
    scopes: &[String],
    now: u64,
) -> (res: Result<String, String>)
    requires
        now <= u64::MAX - 3600,
    ensures
        match res {
            Ok(j) => jwt_spec(client_email@, private_key_pem@, private_key_id@, audience@, views(scopes@), now)
                == Ok::<Seq<char>, Seq<char>>(j@),
            Err(e) => jwt_spec(client_email@, private_key_pem@, private_key_id@, audience@, views(scopes@), now)
                == Err::<Seq<char>, Seq<char>>(e@),
        },
        res matches Ok(j) ==> is_compact_jwt(j@),
{
    let mut header = owned("{\"alg\":\"RS256\",\"kid\":");
    let q = json_quote(private_key_id);
    push_str(&mut header, q.as_str());
    push_str(&mut header, ",\"typ\":\"JWT\"}");

    let mut claims = owned("{\"aud\":");
    let q = json_quote(audience);
    push_str(&mut claims, q.as_str());
    push_str(&mut claims, ",\"exp\":");
    push_decimal(&mut claims, now + 3600);
    push_str(&mut claims, ",\"iat\":");
    push_decimal(&mut claims, now);
    push_str(&mut claims, ",\"iss\":");
    let q = json_quote(client_email);
    push_str(&mut claims, q.as_str());
    push_str(&mut claims, ",\"scope\":");
    let joined = join_strings(scopes, " ");
    let q = json_quote(joined.as_str());
    push_str(&mut claims, q.as_str());
    push_str(&mut claims, "}");

    let header_b64 = match b64url_of_text(header.as_str()) {
        Some(t) => t,
        None => return Err(owned("integer overflow when calculating buffer size")),
    };
    let claims_b64 = match b64url_of_text(claims.as_str()) {
        Some(t) => t,
        None => return Err(owned("integer overflow when calculating buffer size")),
    };
    let ghost h = header_b64@;
    let ghost c = claims_b64@;
    let mut signing_input = header_b64;
    push_str(&mut signing_input, ".");
    push_str(&mut signing_input, claims_b64.as_str());

    let signature = match rs256_sign(private_key_pem, signing_input.as_str().as_bytes()) {
        Ok(sig) => sig,
        Err(SignError::InvalidKey(e)) => {
            let mut m = owned("failed to parse private key: ");
            push_str(&mut m, e.as_str());
            return Err(m);
        },
        Err(SignError::SigningFailed) => return Err(owned("signature operation failed")),
    };
    if signature.len() / 3 > (usize::MAX - 4) / 4 {
        return Err(owned("integer overflow when calculating buffer size"));
    }
    let signature_b64 = base64_encode(Base64Engine::UrlSafeNoPad, signature.as_slice());
    let mut jwt = signing_input;
    push_str(&mut jwt, ".");
    push_str(&mut jwt, signature_b64.as_str());
    proof {
        reveal_strlit(".");
        assert(jwt@ =~= h + seq!['.'] + c + seq!['.'] + signature_b64@);
        assert(jwt_parts(jwt@, h, c, signature_b64@));
    }
    Ok(jwt)
}

/// The grant type of a JWT bearer assertion.
pub open spec fn jwt_grant_type() -> Seq<char> {
    "urn:ietf:params:oauth:grant-type:jwt-bearer"@
}

/// The form body of a JWT bearer grant.
pub open spec fn assertion_form(jwt: Seq<char>) -> Seq<char> {
    "grant_type="@ + form_value(jwt_grant_type()) + "&assertion="@ + form_value(jwt)
}

/// The token request of a service account: the JWT bearer grant posted to its token endpoint,
/// or why no assertion could be made.
pub open spec fn service_account_request_spec(
    client_email: Seq<char>,
    private_key_pem: Seq<char>,
    private_key_id: Seq<char>,
    token_uri: Seq<char>,
    scopes: Seq<Seq<char>>,
    now: u64,
) -> Result<RequestView, Seq<char>> {
    match jwt_spec(client_email, private_key_pem, private_key_id, token_uri, scopes, now) {
        Ok(jwt) => Ok(form_post(token_uri, assertion_form(jwt))),
        Err(e) => Err(e),
    }
}

/// The token request of a service account, at `now` (seconds since the epoch).
pub fn service_account_request(
    client_email: &str,
    private_key_pem: &str,
    private_key_id: &str,
    token_uri: &str,
    scopes: &[String],
    now: u64,
) -> (res: Result<HttpRequest, String>)
    requires
        now <= u64::MAX - 3600,
    ensures
        match res {
            Ok(r) => service_account_request_spec(client_email@, private_key_pem@, private_key_id@,
                token_uri@, views(scopes@), now) == Ok::<RequestView, Seq<char>>(r@),
            Err(e) => service_account_request_spec(client_email@, private_key_pem@, private_key_id@,
                token_uri@, views(scopes@), now) == Err::<RequestView, Seq<char>>(e@),
        },
{
    let jwt = build_jwt(client_email, private_key_pem, private_key_id, token_uri, scopes, now)?;
    let mut form = owned("grant_type=");
    let v = percent_encode("urn:ietf:params:oauth:grant-type:jwt-bearer", EncodeSet::NonAlphanumeric);
    push_str(&mut form, v.as_str());
    push_str(&mut form, "&assertion=");
    let v = percent_encode(jwt.as_str(), EncodeSet::NonAlphanumeric);
    push_str(&mut form, v.as_str());
    Ok(request_with_header(
        Method::Post,
        owned(token_uri),
        "Content-Type",
        "application/x-www-form-urlencoded",
        Body::Text(form),
    ))
}

/// The fields of a token endpoint's JSON answer.
pub struct TokenResponse {
    pub access_token: String,
    pub token_type: String,
    pub expires_in: u64,
}

impl TokenResponse {
    /// The token that a token response carries.
    pub fn into_token(self) -> (res: Token)
        ensures
            res@ == (TokenView {
                access_token: self.access_token@,
                token_type: self.token_type@,
                expires_in: self.expires_in,
            }),
    {
        Token { access_token: self.access_token, token_type: self.token_type, expires_in: self.expires_in }
    }
}

} // verus!
