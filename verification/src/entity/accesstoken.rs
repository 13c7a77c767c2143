use vstd::prelude::*;

verus! {

/// What a client sends to exchange a code for a token.
#[derive(Debug, PartialEq, Eq)]
pub struct AccessTokenRequest {
    pub code: String,
    pub redirect_uri: String,
}

/// What an `AccessTokenRequest` holds, with its texts as sequences of characters.
pub struct AccessTokenRequestView {
    pub code: Seq<char>,
    pub redirect_uri: Seq<char>,
}

impl View for AccessTokenRequest {
    type V = AccessTokenRequestView;

    open spec fn view(&self) -> AccessTokenRequestView {
        AccessTokenRequestView { code: self.code@, redirect_uri: self.redirect_uri@ }
    }
}

/// The token that a client gets for its code: a bearer token, the seconds for which it is
/// valid from the moment it was issued, and the second, counted from the Unix epoch, at
/// which it expires.
#[derive(Debug, PartialEq, Eq)]
pub struct AccessTokenResponse {
    pub access_token: String,
    pub token_type: &'static str,
    pub expires_in: Option<u64>,
    pub expires_at: u64,
}

/// What an `AccessTokenResponse` holds, with its texts as sequences of characters.
pub struct AccessTokenResponseView {
    pub access_token: Seq<char>,
    pub token_type: Seq<char>,
    pub expires_in: Option<u64>,
    pub expires_at: u64,
}

impl View for AccessTokenResponse {
    type V = AccessTokenResponseView;

    open spec fn view(&self) -> AccessTokenResponseView {
        AccessTokenResponseView {
            access_token: self.access_token@,
            token_type: self.token_type@,
            expires_in: self.expires_in,
            expires_at: self.expires_at,
        }
    }
}

impl AccessTokenResponseView {
    /// The answer for a bearer token that expires at `expires_at` and was issued
    /// `expires_in` seconds before.
    pub open spec fn bearer(access_token: Seq<char>, expires_in: u64, expires_at: u64) -> Self {
        AccessTokenResponseView {
            access_token,
            token_type: "Bearer"@,
            expires_in: Some(expires_in),
            expires_at,
        }
    }
}

impl AccessTokenResponse {
    /// The answer for a bearer token that expires at `expires_at` and was issued
    /// `expires_in` seconds before.
    pub fn bearer(access_token: String, expires_in: u64, expires_at: u64) -> (response: Self)
        ensures
            response@ == AccessTokenResponseView::bearer(access_token@, expires_in, expires_at),
    {
        AccessTokenResponse {
            access_token,
            token_type: "Bearer",
            expires_in: Some(expires_in),
            expires_at,
        }
    }
}

} // verus!
