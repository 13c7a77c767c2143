use vstd::prelude::*;
use vstd::string::StrSliceExecFns;

use crate::entity::accesstoken::{
    AccessTokenRequest, AccessTokenRequestView, AccessTokenResponse, AccessTokenResponseView,
};
use crate::entity::authorization::{
    AuthorizationError, AuthorizationResponse, AuthorizationResponseView, ErrorKind,
};
use crate::handler::{ApiError, ApiErrorView, BAD_REQUEST};
use crate::service::cache::{TransactionStore, TransactionStoreView};
use crate::service::oauth::{ConfigView, Oauth};
use crate::service::token::{issues, JsonWebToken, JsonWebTokenView, TokenError};

verus! {

/// True when `text` begins with `prefix`.
pub fn starts_with(text: &str, prefix: &str) -> (found: bool)
    ensures
        found == prefix@.is_prefix_of(text@),
{
    let length = prefix.unicode_len();
    if text.unicode_len() < length {
        return false;
    }
    let mut index: usize = 0;
    while index < length
        invariant
            index <= length,
            length == prefix@.len(),
            length <= text@.len(),
            text@.subrange(0, index as int) == prefix@.subrange(0, index as int),
        decreases length - index,
    {
        if text.get_char(index) != prefix.get_char(index) {
            assert(text@.subrange(0, length as int)[index as int] != prefix@[index as int]);
            return false;
        }
        assert(text@.subrange(0, index + 1) =~= text@.subrange(0, index as int).push(
            text@[index as int],
        ));
        assert(prefix@.subrange(0, index + 1) =~= prefix@.subrange(0, index as int).push(
            prefix@[index as int],
        ));
        index = index + 1;
    }
    assert(prefix@.subrange(0, length as int) == prefix@);
    true
}

/// True when a request says, by the value of its content type header, that its body is
/// JSON. `None` stands for a request without such a header, or with one that is no text.
pub fn is_json_content(content_type: Option<&str>) -> (json: bool)
    ensures
        json == match content_type {
            Some(content_type) => "application/json"@.is_prefix_of(content_type@),
            None => false,
        },
{
    match content_type {
        Some(content_type) => starts_with(content_type, "application/json"),
        None => false,
    }
}

/// What the checks of an exchange give once the store has answered with `taken`, the
/// grant that stood under the code, if any: without a grant the code is not found; with
/// one, the redirect URI has to be the registered one.
pub open spec fn code_check(
    client: ConfigView,
    taken: Option<AuthorizationResponseView>,
    redirect_uri: Seq<char>,
) -> Result<AuthorizationResponseView, ApiErrorView> {
    match taken {
        None => Err(ApiErrorView::bad_request(ErrorKind::CodeNotFound, None)),
        Some(grant) => match client.redirect_uri_error(redirect_uri, Some(grant.state)) {
            Some(error) => Err(ApiErrorView { code: BAD_REQUEST, inner: error }),
            None => Ok(grant),
        },
    }
}

/// True when `outcome` is what `expected` says.
pub open spec fn code_check_done(
    expected: Result<AuthorizationResponseView, ApiErrorView>,
    outcome: Result<AuthorizationResponse, ApiError>,
) -> bool {
    match expected {
        Ok(grant) => outcome matches Ok(passed) && passed@ == grant,
        Err(error) => outcome matches Err(reported) && reported@ == error,
    }
}

/// What the checks of an exchange do to the store and give back. A client with a wrong
/// identifier or secret is turned away before the store is touched. Else the grant under
/// the code leaves the store whatever follows; the store either had nothing alive under
/// the code, or it handed out the grant that stood there; the rest is `code_check` of that
/// answer.
pub open spec fn code_checked(
    client: ConfigView,
    before: TransactionStoreView,
    client_id: Seq<char>,
    client_secret: Seq<char>,
    payload: AccessTokenRequestView,
    after: TransactionStoreView,
    outcome: Result<AuthorizationResponse, ApiError>,
) -> bool {
    match client.basic_token_error(client_id, client_secret) {
        Some(error) => {
            &&& after == before
            &&& outcome matches Err(reported)
            &&& reported@ == ApiErrorView { code: BAD_REQUEST, inner: error }
        },
        None => {
            &&& after == before.without_grant(payload.code)
            &&& {
                ||| code_check_done(code_check(client, None, payload.redirect_uri), outcome)
                ||| {
                    &&& before.grants.contains_key(payload.code)
                    &&& code_check_done(
                        code_check(
                            client,
                            Some(before.grants[payload.code]),
                            payload.redirect_uri,
                        ),
                        outcome,
                    )
                }
            }
        },
    }
}

/// Finishes the checks of an exchange with what the store answered: `taken` is the grant
/// that stood under the code, if one was alive.
pub fn check_taken(oauth: &Oauth, taken: Option<AuthorizationResponse>, redirect_uri: &str) -> (outcome: Result<AuthorizationResponse, ApiError>)
    ensures
        code_check_done(
            code_check(
                oauth@,
                match taken {
                    Some(grant) => Some(grant@),
                    None => None,
                },
                redirect_uri@,
            ),
            outcome,
        ),
{
    let Some(grant) = taken else {
        return Err(ApiError::bad_request(AuthorizationError::new(ErrorKind::CodeNotFound, None)));
    };
    match oauth.check_redirect_uri(redirect_uri, Some(grant.state.clone())) {
        Ok(_) => Ok(grant),
        Err(error) => Err(ApiError::bad_request(error)),
    }
}

/// The checks of an exchange: the client's identifier and secret, then the grant under the
/// code, which is taken out of the store, then the redirect URI.
pub fn check_code(
    oauth: &Oauth,
    cache: &mut TransactionStore,
    client_id: &str,
    client_secret: &str,
    payload: &AccessTokenRequest,
) -> (outcome: Result<AuthorizationResponse, ApiError>)
    ensures
        code_checked(oauth@, old(cache)@, client_id@, client_secret@, payload@, final(cache)@, outcome),
        old(cache)@.keyed() ==> final(cache)@.keyed(),
{
    match oauth.check_basic_token(client_id, client_secret) {
        Ok(_) => {},
        Err(error) => { return Err(ApiError::bad_request(error)); },
    }
    let taken = cache.remove_authorization_response(payload.code.as_str());
    check_taken(oauth, taken, payload.redirect_uri.as_str())
}

/// The answer to an exchange whose checks went through with `grant`, given what the signer
/// issued: the bearer token with its lifetime and expiry, or the server's failure with the
/// state of the grant.
pub open spec fn redemption(
    signer: JsonWebTokenView,
    grant: AuthorizationResponseView,
    issued: Result<(Seq<char>, u64), TokenError>,
) -> Result<AccessTokenResponseView, ApiErrorView> {
    match issued {
        Ok((token, expiry)) => Ok(AccessTokenResponseView::bearer(token, signer.duration, expiry)),
        Err(_) => Err(ApiErrorView::internal(Some(grant.state))),
    }
}

/// True when `outcome` is what `expected` says.
pub open spec fn redemption_done(
    expected: Result<AccessTokenResponseView, ApiErrorView>,
    outcome: Result<AccessTokenResponse, ApiError>,
) -> bool {
    match expected {
        Ok(response) => outcome matches Ok(answered) && answered@ == response,
        Err(error) => outcome matches Err(reported) && reported@ == error,
    }
}

/// Answers an exchange whose checks went through with `grant`, given what the signer
/// issued.
pub fn redeem(
    jwt: &JsonWebToken,
    grant: AuthorizationResponse,
    issued: Result<(String, u64), TokenError>,
) -> (outcome: Result<AccessTokenResponse, ApiError>)
    ensures
        redemption_done(
            redemption(
                jwt@,
                grant@,
                match issued {
                    Ok((token, expiry)) => Ok((token@, expiry)),
                    Err(error) => Err(error),
                },
            ),
            outcome,
        ),
{
    match issued {
        Ok((token, expiry)) => Ok(AccessTokenResponse::bearer(token, jwt.duration(), expiry)),
        Err(_) => Err(ApiError::internal(Some(grant.state))),
    }
}

/// What an exchange answers once the client has proved itself and the store has answered
/// with `taken`, when the clock says `now`: the failure of the checks, or the token that
/// the signer issues for the user of the grant.
pub open spec fn exchange_answer(
    client: ConfigView,
    signer: JsonWebTokenView,
    taken: Option<AuthorizationResponseView>,
    redirect_uri: Seq<char>,
    now: Option<u64>,
) -> Result<AccessTokenResponseView, ApiErrorView> {
    match code_check(client, taken, redirect_uri) {
        Ok(grant) => redemption(signer, grant, signer.issued(grant.user_id, now)),
        Err(error) => Err(error),
    }
}

/// True when the token that an exchange gives, if it gives one, is read back with the
/// signer's secret as the token of the user whose grant stood under the code, with the
/// expiry that the answer states.
pub open spec fn answer_reads(
    signer: JsonWebTokenView,
    before: TransactionStoreView,
    payload: AccessTokenRequestView,
    outcome: Result<AccessTokenResponse, ApiError>,
) -> bool {
    outcome matches Ok(response) ==> signer.reads(
        response.access_token@,
        before.grants[payload.code].user_id,
        response.expires_at,
    )
}

/// What an exchange does to the store and gives back when the clock says `now`. A client
/// with a wrong identifier or secret is turned away before the store is touched. Else the
/// grant under the code leaves the store whatever follows; the store either had nothing
/// alive under the code, or it handed out the grant that stood there; the rest is
/// `exchange_answer` of that. A token that is given is one that the signer reads back.
pub open spec fn exchanged(
    client: ConfigView,
    signer: JsonWebTokenView,
    before: TransactionStoreView,
    client_id: Seq<char>,
    client_secret: Seq<char>,
    payload: AccessTokenRequestView,
    now: Option<u64>,
    after: TransactionStoreView,
    outcome: Result<AccessTokenResponse, ApiError>,
) -> bool {
    &&& answer_reads(signer, before, payload, outcome)
    &&& match client.basic_token_error(client_id, client_secret) {
        Some(error) => {
            &&& after == before
            &&& outcome matches Err(reported)
            &&& reported@ == ApiErrorView { code: BAD_REQUEST, inner: error }
        },
        None => {
            &&& after == before.without_grant(payload.code)
            &&& {
                ||| redemption_done(
                    exchange_answer(client, signer, None, payload.redirect_uri, now),
                    outcome,
                )
                ||| {
                    &&& before.grants.contains_key(payload.code)
                    &&& redemption_done(
                        exchange_answer(
                            client,
                            signer,
                            Some(before.grants[payload.code]),
                            payload.redirect_uri,
                            now,
                        ),
                        outcome,
                    )
                }
            }
        },
    }
}

/// Exchanges a code for a token as of `now`, in seconds since the Unix epoch. The client
/// proves itself with its identifier and secret; the grant under the code is taken out of
/// the store; the redirect URI has to be the registered one.
pub fn exchange_at(
    oauth: &Oauth,
    cache: &mut TransactionStore,
    jwt: &JsonWebToken,
    client_id: &str,
    client_secret: &str,
    payload: &AccessTokenRequest,
    now: u64,
) -> (outcome: Result<AccessTokenResponse, ApiError>)
    ensures
        exchanged(
            oauth@,
            jwt@,
            old(cache)@,
            client_id@,
            client_secret@,
            payload@,
            Some(now),
            final(cache)@,
            outcome,
        ),
        old(cache)@.keyed() ==> final(cache)@.keyed(),
{
    match check_code(oauth, cache, client_id, client_secret, payload) {
        Ok(grant) => {
            let issued = jwt.encode_at(grant.user_id, now);
            redeem(jwt, grant, issued)
        },
        Err(error) => Err(error),
    }
}

/// Exchanges a code for a token as of the clock's time.
pub fn exchange(
    oauth: &Oauth,
    cache: &mut TransactionStore,
    jwt: &JsonWebToken,
    client_id: &str,
    client_secret: &str,
    payload: &AccessTokenRequest,
) -> (outcome: Result<AccessTokenResponse, ApiError>)
    ensures
        exists|now: Option<u64>| #[trigger]
            exchanged(
                oauth@,
                jwt@,
                old(cache)@,
                client_id@,
                client_secret@,
                payload@,
                now,
                final(cache)@,
                outcome,
            ),
        old(cache)@.keyed() ==> final(cache)@.keyed(),
{
    let ghost mut clock: Option<u64> = None;
    let outcome = match check_code(oauth, cache, client_id, client_secret, payload) {
        Ok(grant) => {
            let issued = jwt.encode(grant.user_id);
            proof {
                clock = choose|now: Option<u64>|
                    issues(issued, #[trigger] jwt@.issued(grant.user_id, now));
            }
            redeem(jwt, grant, issued)
        },
        Err(error) => Err(error),
    };
    assert(exchanged(
        oauth@,
        jwt@,
        old(cache)@,
        client_id@,
        client_secret@,
        payload@,
        clock,
        cache@,
        outcome,
    ));
    outcome
}

} // verus!
