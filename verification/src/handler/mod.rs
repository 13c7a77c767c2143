use vstd::prelude::*;

use crate::entity::authorization::{AuthorizationError, AuthorizationErrorView, ErrorKind};

pub mod authorize;
pub mod redirect;
pub mod token;
pub mod userinfo;

verus! {

/// The status of a request that the client got wrong.
pub const BAD_REQUEST: u16 = 400;

/// The status of a request without a valid credential.
pub const UNAUTHORIZED: u16 = 401;

/// The status of a request that the server could not finish.
pub const INTERNAL_SERVER_ERROR: u16 = 500;

/// A failure together with the HTTP status that it is answered with.
#[derive(Debug, PartialEq, Eq)]
pub struct ApiError {
    pub code: u16,
    pub inner: AuthorizationError,
}

/// What an `ApiError` holds, with the failure by its view.
pub struct ApiErrorView {
    pub code: u16,
    pub inner: AuthorizationErrorView,
}

impl View for ApiError {
    type V = ApiErrorView;

    open spec fn view(&self) -> ApiErrorView {
        ApiErrorView { code: self.code, inner: self.inner@ }
    }
}

impl ApiErrorView {
    /// The failure of the given kind and state, answered with the status 400.
    pub open spec fn bad_request(kind: ErrorKind, state: Option<Seq<char>>) -> Self {
        ApiErrorView { code: BAD_REQUEST, inner: AuthorizationErrorView { kind, state } }
    }

    /// The failure of the given kind and state, answered with the status 401.
    pub open spec fn unauthorized(kind: ErrorKind, state: Option<Seq<char>>) -> Self {
        ApiErrorView { code: UNAUTHORIZED, inner: AuthorizationErrorView { kind, state } }
    }

    /// The failure of the server with the given state, answered with the status 500.
    pub open spec fn internal(state: Option<Seq<char>>) -> Self {
        ApiErrorView {
            code: INTERNAL_SERVER_ERROR,
            inner: AuthorizationErrorView { kind: ErrorKind::ServerError, state },
        }
    }
}

/// True when `outcome` is the failure `error`.
pub open spec fn fails_with<T>(outcome: Result<T, ApiError>, error: ApiErrorView) -> bool {
    outcome matches Err(reported) && reported@ == error
}

impl ApiError {
    /// The failure `inner`, answered with the status 400.
    pub fn bad_request(inner: AuthorizationError) -> (error: Self)
        ensures
            error.code == BAD_REQUEST,
            error.inner == inner,
    {
        Self { code: BAD_REQUEST, inner }
    }

    /// The failure `inner`, answered with the status 401.
    pub fn unauthorized(inner: AuthorizationError) -> (error: Self)
        ensures
            error.code == UNAUTHORIZED,
            error.inner == inner,
    {
        Self { code: UNAUTHORIZED, inner }
    }

    /// The failure of the server, with the state of the transaction that it was working on.
    pub fn internal(state: Option<String>) -> (error: Self)
        ensures
            error.code == INTERNAL_SERVER_ERROR,
            error.inner.kind == ErrorKind::ServerError,
            error.inner.state == state,
    {
        Self {
            code: INTERNAL_SERVER_ERROR,
            inner: AuthorizationError::new(ErrorKind::ServerError, state),
        }
    }
}

} // verus!
