use vstd::prelude::*;

use crate::entity::authorization::{
    redirect_location, AuthorizationError, AuthorizationRedirect, AuthorizationRequest,
    AuthorizationRequestView, AuthorizationResponse, AuthorizationResponseView, ErrorKind,
};
use crate::entity::user::UserView;
use crate::handler::{ApiError, ApiErrorView};
use crate::service::cache::{TransactionStore, TransactionStoreView};
use crate::service::database::DatabaseUser;

verus! {

/// What approving gives once the store has answered with `taken`, the request that stood
/// under `state`, if any: without a request the state is unknown; with one, the user has to
/// be in the directory; then the request becomes the grant of that user, and the client is
/// sent back to the request's redirect URI with the code and the state.
pub open spec fn approval(
    directory: Map<u128, UserView>,
    taken: Option<AuthorizationRequestView>,
    state: Seq<char>,
    user_id: u128,
) -> Result<(AuthorizationResponseView, Seq<char>), ApiErrorView> {
    match taken {
        None => Err(ApiErrorView::bad_request(ErrorKind::StateUnknown, Some(state))),
        Some(request) => if !directory.contains_key(user_id) {
            Err(ApiErrorView::bad_request(ErrorKind::UserNotFound, Some(state)))
        } else {
            match redirect_location(request.redirect_uri, request.code_challenge, state) {
                Some(location) => Ok(
                    (
                        AuthorizationResponseView {
                            code_challenge: request.code_challenge,
                            state: request.state,
                            user_id,
                        },
                        location,
                    ),
                ),
                None => Err(ApiErrorView::internal(Some(state))),
            }
        },
    }
}

/// True when `outcome` and the store `after` are what `expected` asks for: the location
/// with the grant stored, or the failure with the store as it was `before`.
pub open spec fn approval_done(
    expected: Result<(AuthorizationResponseView, Seq<char>), ApiErrorView>,
    before: TransactionStoreView,
    after: TransactionStoreView,
    outcome: Result<String, ApiError>,
) -> bool {
    match expected {
        Ok((grant, location)) => {
            &&& outcome matches Ok(text)
            &&& text@ == location
            &&& after == before.with_grant(grant)
        },
        Err(error) => {
            &&& outcome matches Err(reported)
            &&& reported@ == error
            &&& after == before
        },
    }
}

/// What approving does to the store and gives back. The request under `state` leaves the
/// store whatever follows. The store either had nothing alive under `state`, or it handed
/// out the request that stood there; the rest is `approval` of that answer.
pub open spec fn approved(
    directory: Map<u128, UserView>,
    before: TransactionStoreView,
    state: Seq<char>,
    user_id: u128,
    after: TransactionStoreView,
    outcome: Result<String, ApiError>,
) -> bool {
    let taken_out = before.without_request(state);
    ||| approval_done(approval(directory, None, state, user_id), taken_out, after, outcome)
    ||| {
        &&& before.requests.contains_key(state)
        &&& approval_done(
            approval(directory, Some(before.requests[state]), state, user_id),
            taken_out,
            after,
            outcome,
        )
    }
}

/// Finishes an approval with what the store answered: `taken` is the request that stood
/// under `state`, if one was alive.
pub fn approve_taken(
    database: &DatabaseUser,
    cache: &mut TransactionStore,
    taken: Option<AuthorizationRequest>,
    state: String,
    user_id: u128,
) -> (outcome: Result<String, ApiError>)
    ensures
        approval_done(
            approval(
                database@,
                match taken {
                    Some(request) => Some(request@),
                    None => None,
                },
                state@,
                user_id,
            ),
            old(cache)@,
            final(cache)@,
            outcome,
        ),
        old(cache)@.keyed() ==> final(cache)@.keyed(),
{
    let Some(request) = taken else {
        return Err(
            ApiError::bad_request(AuthorizationError::new(ErrorKind::StateUnknown, Some(state))),
        );
    };
    if !database.contains_key(user_id) {
        return Err(
            ApiError::bad_request(AuthorizationError::new(ErrorKind::UserNotFound, Some(state))),
        );
    }
    let grant = AuthorizationResponse {
        code_challenge: request.code_challenge.clone(),
        state: request.state,
        user_id,
    };
    let redirect = AuthorizationRedirect::new(request.code_challenge, state);
    match redirect.as_redirect_url(request.redirect_uri.as_str()) {
        Some(location) => {
            cache.insert_authorization_response(grant);
            Ok(location)
        },
        None => Err(ApiError::internal(Some(redirect.state))),
    }
}

/// Approves the request that stands under `state` in the name of the user `user_id`: the
/// request is taken out of the store, and where the user is known it comes back as a
/// grant. The result is the location to which the client is sent with its code.
pub fn approve(
    database: &DatabaseUser,
    cache: &mut TransactionStore,
    state: String,
    user_id: u128,
) -> (outcome: Result<String, ApiError>)
    ensures
        approved(database@, old(cache)@, state@, user_id, final(cache)@, outcome),
        old(cache)@.keyed() ==> final(cache)@.keyed(),
{
    let taken = cache.remove_authorization_request(state.as_str());
    approve_taken(database, cache, taken, state, user_id)
}

} // verus!
