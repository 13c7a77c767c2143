use vstd::prelude::*;

use crate::entity::authorization::{AuthorizationError, ErrorKind};
use crate::entity::user::{User, UserView};
use crate::handler::{ApiError, ApiErrorView};
use crate::service::database::DatabaseUser;
use crate::service::token::{JsonWebToken, JsonWebTokenView};

verus! {

/// Who a bearer is, given the subject that its token was verified for: without a subject
/// the bearer is turned away; with one, the user has to be in the directory.
pub open spec fn identity(directory: Map<u128, UserView>, subject: Option<u128>) -> Result<
    UserView,
    ApiErrorView,
> {
    match subject {
        None => Err(ApiErrorView::unauthorized(ErrorKind::InvalidBearer, None)),
        Some(id) => if directory.contains_key(id) {
            Ok(directory[id])
        } else {
            Err(ApiErrorView::bad_request(ErrorKind::SubjectNotFound, None))
        },
    }
}

/// True when `outcome` is what `expected` says.
pub open spec fn identity_done(
    expected: Result<UserView, ApiErrorView>,
    outcome: Result<User, ApiError>,
) -> bool {
    match expected {
        Ok(user) => outcome matches Ok(found) && found@ == user,
        Err(error) => outcome matches Err(reported) && reported@ == error,
    }
}

/// Looks the subject of a verified token up in the directory; `None` stands for a token
/// that did not verify.
pub fn user_of(database: &DatabaseUser, subject: Option<u128>) -> (outcome: Result<User, ApiError>)
    ensures
        identity_done(identity(database@, subject), outcome),
{
    let Some(id) = subject else {
        return Err(ApiError::unauthorized(AuthorizationError::new(ErrorKind::InvalidBearer, None)));
    };
    match database.get(id) {
        Some(user) => Ok(user.clone()),
        None => Err(
            ApiError::bad_request(AuthorizationError::new(ErrorKind::SubjectNotFound, None)),
        ),
    }
}

/// What looking a bearer up gives when the clock says `now`: `identity` of the user that
/// the token names for the signer at that time.
pub open spec fn identified(
    directory: Map<u128, UserView>,
    signer: JsonWebTokenView,
    bearer: Seq<char>,
    now: Option<u64>,
    outcome: Result<User, ApiError>,
) -> bool {
    exists|subject: Option<u128>|
        {
            &&& #[trigger] signer.decodes(bearer, now, subject)
            &&& identity_done(identity(directory, subject), outcome)
        }
}

/// The user that a bearer token stands for when the clock says `now`, in seconds since the
/// Unix epoch: the token has to verify, and its subject has to be in the directory.
pub fn userinfo_at(database: &DatabaseUser, jwt: &JsonWebToken, bearer: &str, now: Option<u64>) -> (outcome: Result<User, ApiError>)
    ensures
        identified(database@, jwt@, bearer@, now, outcome),
{
    let subject = jwt.decode_at(bearer, now);
    let outcome = user_of(database, subject);
    assert(jwt@.decodes(bearer@, now, subject));
    outcome
}

/// The user that a bearer token stands for as of the clock's time.
pub fn userinfo(database: &DatabaseUser, jwt: &JsonWebToken, bearer: &str) -> (outcome: Result<User, ApiError>)
    ensures
        exists|now: Option<u64>| #[trigger] identified(database@, jwt@, bearer@, now, outcome),
{
    let subject = jwt.decode(bearer);
    let outcome = user_of(database, subject);
    proof {
        let now = choose|now: Option<u64>| #[trigger] jwt@.decodes(bearer@, now, subject);
        assert(jwt@.decodes(bearer@, now, subject));
        assert(identified(database@, jwt@, bearer@, now, outcome));
    }
    outcome
}

} // verus!
