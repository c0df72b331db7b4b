//! Access tokens and the errors of token acquisition.
use vstd::prelude::*;

verus! {

/// An OAuth2 access token.
pub struct Token {
    pub access_token: String,
    pub token_type: String,
    /// Lifetime in seconds, as the token endpoint reported it.
    pub expires_in: u64,
}

/// The contents of a `Token`.
pub struct TokenView {
    pub access_token: Seq<char>,
    pub token_type: Seq<char>,
    pub expires_in: u64,
}

impl View for Token {
    type V = TokenView;

    open spec fn view(&self) -> TokenView {
        TokenView {
            access_token: self.access_token@,
            token_type: self.token_type@,
            expires_in: self.expires_in,
        }
    }
}

impl Token {
    /// A copy of this token.
    pub fn duplicate(&self) -> (res: Token)
        ensures
            res@ == self@,
    {
        Token {
            access_token: self.access_token.clone(),
            token_type: self.token_type.clone(),
            expires_in: self.expires_in,
        }
    }
}

/// Why no token could be had.
pub enum AuthError {
    /// The token endpoint could not be reached, or its answer could not be read.
    TokenFetchFailed(String),
    /// The credentials at hand cannot produce a token request.
    InvalidCredentials(String),
}

} // verus!
