use vstd::prelude::*;
use vstd::string::StringExecFns;

verus! {

/// `serde_qs::Error`, the error of `serde_qs`. Nothing is known of a value of it.
#[verifier::external_type_specification]
#[verifier::external_body]
pub struct ExQueryError(serde_qs::Error);

/// One parameter of a query string as `serde_qs` writes it: the name, `=`, and the value,
/// both percent-encoded; `None` where `serde_qs` reports an error.
pub uninterp spec fn query_parameter(name: Seq<char>, value: Seq<char>) -> Option<Seq<char>>;

/// `serde_qs::to_string`, on a map that holds the one entry `name` to `value`.
#[verifier::external_body]
fn encode_parameter(name: &str, value: &str) -> (encoded: Result<String, serde_qs::Error>)
    ensures
        match encoded {
            Ok(text) => query_parameter(name@, value@) == Some(text@),
            Err(_) => query_parameter(name@, value@) is None,
        },
{
    serde_qs::to_string(&std::collections::BTreeMap::from([(name, value)]))
}

/// An authorization request as a client sends it: it waits in the store, under its `state`,
/// until a user approves it.
#[derive(Debug, PartialEq, Eq)]
pub struct AuthorizationRequest {
    pub client_id: String,
    pub code_challenge: String,
    pub code_challenge_method: String,
    pub redirect_uri: String,
    pub response_type: String,
    pub state: String,
}

/// What an `AuthorizationRequest` holds, with its texts as sequences of characters.
pub struct AuthorizationRequestView {
    pub client_id: Seq<char>,
    pub code_challenge: Seq<char>,
    pub code_challenge_method: Seq<char>,
    pub redirect_uri: Seq<char>,
    pub response_type: Seq<char>,
    pub state: Seq<char>,
}

impl View for AuthorizationRequest {
    type V = AuthorizationRequestView;

    open spec fn view(&self) -> AuthorizationRequestView {
        AuthorizationRequestView {
            client_id: self.client_id@,
            code_challenge: self.code_challenge@,
            code_challenge_method: self.code_challenge_method@,
            redirect_uri: self.redirect_uri@,
            response_type: self.response_type@,
            state: self.state@,
        }
    }
}

impl Clone for AuthorizationRequest {
    fn clone(&self) -> (copy: Self)
        ensures
            copy == *self,
    {
        AuthorizationRequest {
            client_id: self.client_id.clone(),
            code_challenge: self.code_challenge.clone(),
            code_challenge_method: self.code_challenge_method.clone(),
            redirect_uri: self.redirect_uri.clone(),
            response_type: self.response_type.clone(),
            state: self.state.clone(),
        }
    }
}

/// An approved request: the code challenge that serves as the one-time code, the client's
/// `state`, and the user who approved.
#[derive(Debug, PartialEq, Eq)]
pub struct AuthorizationResponse {
    pub code_challenge: String,
    pub state: String,
    pub user_id: u128,
}

/// What an `AuthorizationResponse` holds, with its texts as sequences of characters.
pub struct AuthorizationResponseView {
    pub code_challenge: Seq<char>,
    pub state: Seq<char>,
    pub user_id: u128,
}

impl View for AuthorizationResponse {
    type V = AuthorizationResponseView;

    open spec fn view(&self) -> AuthorizationResponseView {
        AuthorizationResponseView {
            code_challenge: self.code_challenge@,
            state: self.state@,
            user_id: self.user_id,
        }
    }
}

impl Clone for AuthorizationResponse {
    fn clone(&self) -> (copy: Self)
        ensures
            copy == *self,
    {
        AuthorizationResponse {
            code_challenge: self.code_challenge.clone(),
            state: self.state.clone(),
            user_id: self.user_id,
        }
    }
}

/// The code and the state that go back to the client once a user has approved its request.
#[derive(Debug, PartialEq, Eq)]
pub struct AuthorizationRedirect {
    pub code: String,
    pub state: String,
}

/// Where a client is sent with a code: `url`, a question mark, then the parameters `code`
/// and `state` joined by `&`. `None` where a parameter cannot be encoded.
pub open spec fn redirect_location(url: Seq<char>, code: Seq<char>, state: Seq<char>) -> Option<Seq<char>> {
    match (query_parameter("code"@, code), query_parameter("state"@, state)) {
        (Some(code), Some(state)) => Some(url + "?"@ + code + "&"@ + state),
        _ => None,
    }
}

impl AuthorizationRedirect {
    /// The redirect that carries `code` and `state`.
    #[inline]
    pub fn new(code: String, state: String) -> (redirect: Self)
        ensures
            redirect.code == code,
            redirect.state == state,
    {
        Self { code, state }
    }

    /// The location that sends the client back to `url` with the code and the state.
    pub fn as_redirect_url(&self, url: &str) -> (location: Option<String>)
        ensures
            match location {
                Some(location) => redirect_location(url@, self.code@, self.state@) == Some(
                    location@,
                ),
                None => redirect_location(url@, self.code@, self.state@) is None,
            },
    {
        let code = match encode_parameter("code", self.code.as_str()) {
            Ok(code) => code,
            Err(_) => { return None; },
        };
        let state = match encode_parameter("state", self.state.as_str()) {
            Ok(state) => state,
            Err(_) => { return None; },
        };
        let mut location = url.to_owned();
        location.append("?");
        location.append(code.as_str());
        location.append("&");
        location.append(state.as_str());
        Some(location)
    }
}

/// The closed set of failures that the server reports.
#[derive(Clone, Copy, Debug, PartialEq, Eq, Structural)]
pub enum ErrorKind {
    /// The client identifier is not the registered one.
    InvalidClientId,
    /// The client secret is not the registered one.
    InvalidClientSecret,
    /// The redirect URI is not the registered one.
    RedirectUriMismatch,
    /// No pending request is stored under the state.
    StateUnknown,
    /// The user who is to approve is not in the directory.
    UserNotFound,
    /// No grant is stored under the code.
    CodeNotFound,
    /// The bearer token did not verify.
    InvalidBearer,
    /// The token verified, but its subject is not in the directory.
    SubjectNotFound,
    /// The server could not finish a step that the request was entitled to.
    ServerError,
}

impl ErrorKind {
    /// The machine-readable code of the failure.
    pub open spec fn code(self) -> Seq<char> {
        match self {
            ErrorKind::InvalidClientId => "invalid_client_id"@,
            ErrorKind::InvalidClientSecret => "invalid_client_secret"@,
            ErrorKind::RedirectUriMismatch => "redirect_uri_mismatch"@,
            ErrorKind::StateUnknown => "state_unknown"@,
            ErrorKind::UserNotFound => "user_not_found"@,
            ErrorKind::CodeNotFound => "code-not-found"@,
            ErrorKind::InvalidBearer => "invalid-bearer"@,
            ErrorKind::SubjectNotFound => "user-not-found"@,
            ErrorKind::ServerError => "server_error"@,
        }
    }

    /// The sentence that explains the failure to a person.
    pub open spec fn description(self) -> Seq<char> {
        match self {
            ErrorKind::InvalidClientId =>
                "Unable to find an application with the provided client_id."@,
            ErrorKind::InvalidClientSecret => "The provided client secret is invalid."@,
            ErrorKind::RedirectUriMismatch =>
                "The redirect_uri MUST match the registered callback URL for this application."@,
            ErrorKind::StateUnknown =>
                "Unable to find authorization request with the provided state."@,
            ErrorKind::UserNotFound => "Unable to find the requested user."@,
            ErrorKind::CodeNotFound => "The provided code was not found in our database."@,
            ErrorKind::InvalidBearer => "Unable to decode bearer token."@,
            ErrorKind::SubjectNotFound => "Unable to find user."@,
            ErrorKind::ServerError => "The server was unable to complete the request."@,
        }
    }

    /// The machine-readable code of the failure.
    pub fn as_str(&self) -> (code: &'static str)
        ensures
            code@ == self.code(),
    {
        match self {
            ErrorKind::InvalidClientId => "invalid_client_id",
            ErrorKind::InvalidClientSecret => "invalid_client_secret",
            ErrorKind::RedirectUriMismatch => "redirect_uri_mismatch",
            ErrorKind::StateUnknown => "state_unknown",
            ErrorKind::UserNotFound => "user_not_found",
            ErrorKind::CodeNotFound => "code-not-found",
            ErrorKind::InvalidBearer => "invalid-bearer",
            ErrorKind::SubjectNotFound => "user-not-found",
            ErrorKind::ServerError => "server_error",
        }
    }

    /// The sentence that explains the failure to a person.
    pub fn describe(&self) -> (description: &'static str)
        ensures
            description@ == self.description(),
    {
        match self {
            ErrorKind::InvalidClientId =>
                "Unable to find an application with the provided client_id.",
            ErrorKind::InvalidClientSecret => "The provided client secret is invalid.",
            ErrorKind::RedirectUriMismatch =>
                "The redirect_uri MUST match the registered callback URL for this application.",
            ErrorKind::StateUnknown =>
                "Unable to find authorization request with the provided state.",
            ErrorKind::UserNotFound => "Unable to find the requested user.",
            ErrorKind::CodeNotFound => "The provided code was not found in our database.",
            ErrorKind::InvalidBearer => "Unable to decode bearer token.",
            ErrorKind::SubjectNotFound => "Unable to find user.",
            ErrorKind::ServerError => "The server was unable to complete the request.",
        }
    }
}

/// A failure as it is reported to the caller: its kind, and the client's `state` where the
/// failing step knew it.
#[derive(Debug, PartialEq, Eq)]
pub struct AuthorizationError {
    pub kind: ErrorKind,
    pub state: Option<String>,
}

/// What an `AuthorizationError` holds, with the state as a sequence of characters.
pub struct AuthorizationErrorView {
    pub kind: ErrorKind,
    pub state: Option<Seq<char>>,
}

impl View for AuthorizationError {
    type V = AuthorizationErrorView;

    open spec fn view(&self) -> AuthorizationErrorView {
        AuthorizationErrorView {
            kind: self.kind,
            state: match self.state {
                Some(state) => Some(state@),
                None => None,
            },
        }
    }
}

impl AuthorizationError {
    /// The failure of the given kind, with the state of the transaction where it is known.
    pub fn new(kind: ErrorKind, state: Option<String>) -> (error: Self)
        ensures
            error.kind == kind,
            error.state == state,
    {
        AuthorizationError { kind, state }
    }

    /// The machine-readable code of the failure.
    pub fn error(&self) -> (code: &'static str)
        ensures
            code@ == self.kind.code(),
    {
        self.kind.as_str()
    }

    /// The sentence that explains the failure to a person.
    pub fn error_description(&self) -> (description: &'static str)
        ensures
            description@ == self.kind.description(),
    {
        self.kind.describe()
    }

    /// The location that sends the client back to `url` with the failure.
    pub fn as_redirect_url(&self, url: &str) -> (location: Option<String>)
        ensures
            match location {
                Some(location) => error_location(url@, self@) == Some(location@),
                None => error_location(url@, self@) is None,
            },
    {
        let error = match encode_parameter("error", self.kind.as_str()) {
            Ok(error) => error,
            Err(_) => { return None; },
        };
        let description = match encode_parameter("error_description", self.kind.describe()) {
            Ok(description) => description,
            Err(_) => { return None; },
        };
        let mut location = url.to_owned();
        location.append("?");
        location.append(error.as_str());
        location.append("&");
        location.append(description.as_str());
        match &self.state {
            Some(state) => {
                match encode_parameter("state", state.as_str()) {
                    Ok(state) => {
                        location.append("&");
                        location.append(state.as_str());
                        Some(location)
                    },
                    Err(_) => None,
                }
            },
            None => Some(location),
        }
    }
}

/// Where a client is sent with a failure: `url`, a question mark, then the parameters
/// `error` and `error_description` and, where the failure carries one, `state`, joined by
/// `&`. `None` where a parameter cannot be encoded.
pub open spec fn error_location(url: Seq<char>, error: AuthorizationErrorView) -> Option<Seq<char>> {
    match (
        query_parameter("error"@, error.kind.code()),
        query_parameter("error_description"@, error.kind.description()),
    ) {
        (Some(code), Some(description)) => match error.state {
            Some(state) => match query_parameter("state"@, state) {
                Some(state) => Some(url + "?"@ + code + "&"@ + description + "&"@ + state),
                None => None,
            },
            None => Some(url + "?"@ + code + "&"@ + description),
        },
        _ => None,
    }
}

} // verus!
