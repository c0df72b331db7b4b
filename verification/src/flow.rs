//! Token acquisition as a state machine: the decisions between the cache, the credentials
//! file and the token endpoints. The caller performs each action and hands back its outcome.
use vstd::prelude::*;
use crate::text::{owned, push_str, views};
use crate::cache::{TokenCache, CachedView, spec_cache_key, spec_get, spec_put, key_fits, all_fit};
use crate::adc::{Adc, AdcView, RawCredentials, adc_from_raw_spec, opt_view};
use crate::auth::{authorized_user_request, metadata_request, service_account_request, form_post,
    token_endpoint, refresh_form, metadata_request_spec, service_account_request_spec, TokenResponse};
use crate::http::{HttpRequest, RequestView, ExchangeError, exchange_message, exchange_error_message};
use crate::token::{Token, TokenView, AuthError};

verus! {

/// Which kind of endpoint a token request goes to; it names transport failures.
#[derive(Clone, Copy, PartialEq, Eq, Structural)]
pub enum TokenSource {
    /// An OAuth2 token endpoint.
    OAuth,
    /// The metadata server.
    Metadata,
}

/// What a transport failure is called for a kind of endpoint.
pub open spec fn transport_name(source: TokenSource) -> Seq<char> {
    match source {
        TokenSource::OAuth => "HTTP error"@,
        TokenSource::Metadata => "metadata server error"@,
    }
}

/// Where a token acquisition stands.
#[derive(Clone, Copy, PartialEq, Eq, Structural)]
pub enum Stage {
    /// The credentials file is to be read.
    AwaitingCredentials,
    /// A token request was sent to the given kind of endpoint.
    AwaitingToken(TokenSource),
    /// The acquisition is over.
    Done,
}

/// What the caller is to do next.
pub enum FlowAction {
    /// Read the Application Default Credentials file and parse its fields.
    ReadCredentials,
    /// Send the request, read the body and parse it as a token response.
    Send(HttpRequest),
    /// The acquisition is over, with this outcome.
    Finish(Result<Token, AuthError>),
}

/// Why a sent token request gave no token response.
pub enum TokenFetchError {
    /// The exchange failed.
    Exchange(ExchangeError),
    /// The body is not a token response; the parser's message.
    JsonParse(String),
}

/// A token acquisition for a list of scopes.
pub struct TokenFlow {
    scopes: Vec<String>,
    stage: Stage,
}

/// The message of an acquisition that failed at the token endpoint.
pub open spec fn fetch_failure_message(e: TokenFetchError, source: TokenSource) -> Seq<char> {
    match e {
        TokenFetchError::Exchange(x) => exchange_message(x, transport_name(source)),
        TokenFetchError::JsonParse(m) => "JSON parse error: "@ + m@,
    }
}

/// The token request that credentials call for, and the kind of endpoint it goes to; a
/// missing or unusable credentials file falls back to the metadata server.
pub open spec fn token_request_spec(
    creds: Result<RawCredentials, String>,
    env_host: Option<Seq<char>>,
    scopes: Seq<Seq<char>>,
    unix_now: u64,
) -> Result<(RequestView, TokenSource), Seq<char>> {
    let adc = match creds {
        Ok(raw) => adc_from_raw_spec(raw),
        Err(e) => Err(e@),
    };
    match adc {
        Ok(AdcView::AuthorizedUser { client_id, client_secret, refresh_token }) => Ok((
            form_post(token_endpoint(), refresh_form(client_id, client_secret, refresh_token)),
            TokenSource::OAuth,
        )),
        Ok(AdcView::ServiceAccount { client_email, private_key, private_key_id, token_uri }) =>
            match service_account_request_spec(
                client_email,
                private_key,
                private_key_id,
                token_uri,
                scopes,
                unix_now,
            ) {
                Ok(r) => Ok((r, TokenSource::OAuth)),
                Err(e) => Err(e),
            },
        Err(_) => Ok((metadata_request_spec(env_host, scopes), TokenSource::Metadata)),
    }
}

impl TokenFlow {
    /// The scopes the token is for.
    pub closed spec fn scopes(&self) -> Seq<Seq<char>> {
        views(self.scopes@)
    }

    /// Where the acquisition stands.
    pub closed spec fn stage(&self) -> Stage {
        self.stage
    }

    /// Starts acquiring a token for `scopes` at monotonic time `now` (nanoseconds): a token
    /// cached for these scopes and still in use is the answer; otherwise the credentials file
    /// is to be read.
    pub fn start(cache: &TokenCache, scopes: Vec<String>, now: u64) -> (res: (TokenFlow, FlowAction))
        requires
            key_fits(cache@, spec_cache_key(views(scopes@))),
        ensures
            res.0.scopes() == views(scopes@),
            spec_get(cache@, spec_cache_key(views(scopes@)), now) matches Some(t) ==> (res.1 matches FlowAction::Finish(Ok(tok)) && tok@ == t && res.0.stage() == Stage::Done),
            spec_get(cache@, spec_cache_key(views(scopes@)), now) is None ==> (res.1 is ReadCredentials && res.0.stage() == Stage::AwaitingCredentials),
    {
        match cache.get(scopes.as_slice(), now) {
            Some(token) => (TokenFlow { scopes, stage: Stage::Done }, FlowAction::Finish(Ok(token))),
            None => (TokenFlow { scopes, stage: Stage::AwaitingCredentials }, FlowAction::ReadCredentials),
        }
    }

    /// Takes the outcome of reading the credentials file (its parsed fields, or why there are
    /// none), the value of `GCE_METADATA_HOST` and the wall-clock time `unix_now` (seconds
    /// since the epoch), and gives the token request to send, or the failure to make one.
    pub fn on_credentials(
        &mut self,
        creds: Result<RawCredentials, String>,
        env_host: Option<String>,
        unix_now: u64,
    ) -> (res: FlowAction)
        requires
            old(self).stage() == Stage::AwaitingCredentials,
            unix_now <= u64::MAX - 3600,
        ensures
            final(self).scopes() == old(self).scopes(),
            creds is Ok && creds->Ok_0.credential_type@ == "authorized_user"@ && creds->Ok_0.client_id is Some
                && creds->Ok_0.client_secret is Some && creds->Ok_0.refresh_token is Some ==> (res matches FlowAction::Send(req)
                && req@ == form_post(token_endpoint(), refresh_form(creds->Ok_0.client_id->0@,
                creds->Ok_0.client_secret->0@, creds->Ok_0.refresh_token->0@))),
            match token_request_spec(creds, opt_view(env_host), old(self).scopes(), unix_now) {
                Ok((r, source)) => res matches FlowAction::Send(req) && req@ == r
                    && final(self).stage() == Stage::AwaitingToken(source),
                Err(e) => res matches FlowAction::Finish(Err(AuthError::InvalidCredentials(m)))
                    && m@ == e && final(self).stage() == Stage::Done,
            },
    {
        let adc = match creds {
            Ok(raw) => Adc::from_raw(raw),
            Err(e) => Err(e),
        };
        match adc {
            Ok(Adc::AuthorizedUser { client_id, client_secret, refresh_token }) => {
                let req = authorized_user_request(
                    client_id.as_str(),
                    client_secret.as_str(),
                    refresh_token.as_str(),
                );
                self.stage = Stage::AwaitingToken(TokenSource::OAuth);
                FlowAction::Send(req)
            },
            Ok(Adc::ServiceAccount { client_email, private_key, private_key_id, token_uri }) => {
                match service_account_request(
                    client_email.as_str(),
                    private_key.as_str(),
                    private_key_id.as_str(),
                    token_uri.as_str(),
                    self.scopes.as_slice(),
                    unix_now,
                ) {
                    Ok(req) => {
                        self.stage = Stage::AwaitingToken(TokenSource::OAuth);
                        FlowAction::Send(req)
                    },
                    Err(e) => {
                        self.stage = Stage::Done;
                        FlowAction::Finish(Err(AuthError::InvalidCredentials(e)))
                    },
                }
            },
            Err(_) => {
                let req = metadata_request(env_host, self.scopes.as_slice());
                self.stage = Stage::AwaitingToken(TokenSource::Metadata);
                FlowAction::Send(req)
            },
        }
    }

    /// Takes the outcome of the token request and the monotonic time `now` (nanoseconds): a
    /// token is cached for the scopes at `now` and is the answer; a failure is reported.
    pub fn on_response(
        &mut self,
        cache: &mut TokenCache,
        outcome: Result<TokenResponse, TokenFetchError>,
        now: u64,
    ) -> (res: FlowAction)
        requires
            old(self).stage() matches Stage::AwaitingToken(_),
            outcome is Ok ==> all_fit(old(cache)@),
        ensures
            final(self).stage() == Stage::Done,
            final(self).scopes() == old(self).scopes(),
            match outcome {
                Ok(t) => res matches FlowAction::Finish(Ok(tok))
                    && tok@ == (TokenView {
                        access_token: t.access_token@,
                        token_type: t.token_type@,
                        expires_in: t.expires_in,
                    })
                    && final(cache)@ == spec_put(old(cache)@, spec_cache_key(old(self).scopes()), tok@, now),
                Err(e) => res matches FlowAction::Finish(Err(AuthError::TokenFetchFailed(m)))
                    && m@ == fetch_failure_message(e, old(self).stage()->AwaitingToken_0)
                    && final(cache)@ == old(cache)@,
            },
    {
        let source = match self.stage {
            Stage::AwaitingToken(s) => s,
            _ => TokenSource::OAuth,
        };
        self.stage = Stage::Done;
        match outcome {
            Ok(t) => {
                let token = t.into_token();
                cache.put(self.scopes.as_slice(), &token, now);
                FlowAction::Finish(Ok(token))
            },
            Err(TokenFetchError::Exchange(x)) => {
                let transport = match source {
                    TokenSource::OAuth => "HTTP error",
                    TokenSource::Metadata => "metadata server error",
                };
                FlowAction::Finish(Err(AuthError::TokenFetchFailed(exchange_error_message(x, transport))))
            },
            Err(TokenFetchError::JsonParse(m)) => {
                let mut s = owned("JSON parse error: ");
                push_str(&mut s, m.as_str());
                FlowAction::Finish(Err(AuthError::TokenFetchFailed(s)))
            },
        }
    }
}

} // verus!
