use vstd::prelude::*;
use vstd::std_specs::convert::FromSpecImpl;

use crate::entity::authorization::{
    AuthorizationError, AuthorizationErrorView, AuthorizationRequest, AuthorizationRequestView,
    ErrorKind,
};

verus! {

/// The one client that is registered with the server.
#[derive(Debug, PartialEq, Eq)]
pub struct Config {
    pub client_id: String,
    pub client_secret: String,
    pub redirect_uri: String,
}

/// What a `Config` holds, with its texts as sequences of characters.
pub struct ConfigView {
    pub client_id: Seq<char>,
    pub client_secret: Seq<char>,
    pub redirect_uri: Seq<char>,
}

impl View for Config {
    type V = ConfigView;

    open spec fn view(&self) -> ConfigView {
        ConfigView {
            client_id: self.client_id@,
            client_secret: self.client_secret@,
            redirect_uri: self.redirect_uri@,
        }
    }
}

impl ConfigView {
    /// The failure, if any, of a client that presents `client_id` and `client_secret`: the
    /// identifier is looked at first.
    pub open spec fn basic_token_error(
        self,
        client_id: Seq<char>,
        client_secret: Seq<char>,
    ) -> Option<AuthorizationErrorView> {
        if self.client_id != client_id {
            Some(AuthorizationErrorView { kind: ErrorKind::InvalidClientId, state: None })
        } else if self.client_secret != client_secret {
            Some(AuthorizationErrorView { kind: ErrorKind::InvalidClientSecret, state: None })
        } else {
            None
        }
    }

    /// The failure, if any, of a redirect URI: it has to be the registered one, character
    /// for character. The failure carries `state` along.
    pub open spec fn redirect_uri_error(
        self,
        uri: Seq<char>,
        state: Option<Seq<char>>,
    ) -> Option<AuthorizationErrorView> {
        if self.redirect_uri != uri {
            Some(AuthorizationErrorView { kind: ErrorKind::RedirectUriMismatch, state })
        } else {
            None
        }
    }

    /// The failure, if any, of an authorization request: the client identifier is looked at
    /// first, then the redirect URI. The failure carries the request's state.
    pub open spec fn request_error(self, request: AuthorizationRequestView) -> Option<
        AuthorizationErrorView,
    > {
        if self.client_id != request.client_id {
            Some(
                AuthorizationErrorView {
                    kind: ErrorKind::InvalidClientId,
                    state: Some(request.state),
                },
            )
        } else {
            self.redirect_uri_error(request.redirect_uri, Some(request.state))
        }
    }
}

/// True when `outcome` reports exactly `failure`: `Ok` for none, else an error with that
/// kind and state.
pub open spec fn reports(
    outcome: Result<(), AuthorizationError>,
    failure: Option<AuthorizationErrorView>,
) -> bool {
    match outcome {
        Ok(_) => failure is None,
        Err(error) => failure == Some(error@),
    }
}

/// The checks against the registered client. Nothing changes it once it is made.
pub struct Oauth {
    config: Config,
}

impl View for Oauth {
    type V = ConfigView;

    closed spec fn view(&self) -> ConfigView {
        self.config@
    }
}

impl From<Config> for Oauth {
    /// The checks against the client that `value` registers.
    fn from(value: Config) -> (oauth: Self)
        ensures
            oauth@ == value@,
    {
        Oauth { config: value }
    }
}

impl FromSpecImpl<Config> for Oauth {
    open spec fn obeys_from_spec() -> bool {
        true
    }

    closed spec fn from_spec(value: Config) -> Oauth {
        Oauth { config: value }
    }
}

impl Oauth {
    /// Checks the identifier and the secret that a client presents: the identifier first,
    /// then the secret, each character for character.
    pub fn check_basic_token(&self, client_id: &str, client_secret: &str) -> (outcome: Result<(), AuthorizationError>)
        ensures
            reports(outcome, self@.basic_token_error(client_id@, client_secret@)),
    {
        if self.config.client_id != client_id.to_owned() {
            Err(AuthorizationError::new(ErrorKind::InvalidClientId, None))
        } else if self.config.client_secret != client_secret.to_owned() {
            Err(AuthorizationError::new(ErrorKind::InvalidClientSecret, None))
        } else {
            Ok(())
        }
    }

    /// Checks a redirect URI: it has to be the registered one, character for character. A
    /// failure carries `state` along.
    pub fn check_redirect_uri(&self, uri: &str, state: Option<String>) -> (outcome: Result<(), AuthorizationError>)
        ensures
            reports(
                outcome,
                self@.redirect_uri_error(
                    uri@,
                    match state {
                        Some(state) => Some(state@),
                        None => None,
                    },
                ),
            ),
    {
        if self.config.redirect_uri != uri.to_owned() {
            return Err(AuthorizationError::new(ErrorKind::RedirectUriMismatch, state));
        }
        Ok(())
    }

    /// Checks an authorization request: its client identifier first, then its redirect URI.
    /// A failure carries the request's state.
    pub fn check(&self, req: &AuthorizationRequest) -> (outcome: Result<(), AuthorizationError>)
        ensures
            reports(outcome, self@.request_error(req@)),
    {
        if self.config.client_id != req.client_id {
            return Err(
                AuthorizationError::new(ErrorKind::InvalidClientId, Some(req.state.clone())),
            );
        }
        if self.config.redirect_uri != req.redirect_uri {
            return Err(
                AuthorizationError::new(ErrorKind::RedirectUriMismatch, Some(req.state.clone())),
            );
        }
        Ok(())
    }
}

} // verus!
