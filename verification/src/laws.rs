use vstd::prelude::*;

use crate::entity::accesstoken::{
    AccessTokenRequestView, AccessTokenResponse, AccessTokenResponseView,
};
use crate::entity::authorization::{
    redirect_location, AuthorizationError, AuthorizationRequest, AuthorizationRequestView,
    AuthorizationResponse, AuthorizationResponseView, ErrorKind,
};
use crate::entity::identifier::hyphenated;
use crate::entity::user::{User, UserView};
use crate::handler::authorize::began;
use crate::handler::redirect::{approval, approval_done, approved};
use crate::handler::token::{exchange_answer, exchanged, redemption_done};
use crate::handler::{fails_with, ApiError, ApiErrorView, BAD_REQUEST};
use crate::service::cache::{grant_taken, request_taken, TransactionStoreView};
use crate::service::database::directory_of;
use crate::service::oauth::ConfigView;
use crate::handler::userinfo::{identified, identity, identity_done};
use crate::service::token::{
    in_time, issues, signed_claims, signed_token, JsonWebTokenView, TokenError, LEEWAY,
};

verus! {

/// A stored request is taken at most once, and as it was put in: the first take after the
/// request was put in hands out that request or nothing, and a second take of the state
/// hands out nothing. The limits of the store stay through all of it.
pub proof fn lemma_request_is_taken_once(
    before: TransactionStoreView,
    request: AuthorizationRequest,
    between: TransactionStoreView,
    first: Option<AuthorizationRequest>,
    after: TransactionStoreView,
    second: Option<AuthorizationRequest>,
)
    requires
        request_taken(before.with_request(request@), request.state@, between, first),
        request_taken(between, request.state@, after, second),
    ensures
        first matches Some(taken) ==> taken@ == request@,
        second is None,
        !after.requests.contains_key(request.state@),
        after.request_limits == before.request_limits,
        after.grant_limits == before.grant_limits,
{
}

/// A stored grant is taken at most once, and as it was put in: the first take after the
/// grant was put in hands out that grant or nothing, and a second take of the code hands
/// out nothing. The limits of the store stay through all of it.
pub proof fn lemma_grant_is_taken_once(
    before: TransactionStoreView,
    grant: AuthorizationResponse,
    between: TransactionStoreView,
    first: Option<AuthorizationResponse>,
    after: TransactionStoreView,
    second: Option<AuthorizationResponse>,
)
    requires
        grant_taken(before.with_grant(grant@), grant.code_challenge@, between, first),
        grant_taken(between, grant.code_challenge@, after, second),
    ensures
        first matches Some(taken) ==> taken@ == grant@,
        second is None,
        !after.grants.contains_key(grant.code_challenge@),
        after.request_limits == before.request_limits,
        after.grant_limits == before.grant_limits,
{
}

/// A request that passes the checks of `begin` stands in the store afterwards, under its
/// state, and the grants are as they were.
pub proof fn lemma_begin_stores_the_request(
    client: ConfigView,
    before: TransactionStoreView,
    request: AuthorizationRequestView,
    after: TransactionStoreView,
    outcome: Result<(), AuthorizationError>,
)
    requires
        began(client, before, request, after, outcome),
        outcome is Ok,
    ensures
        client.client_id == request.client_id,
        client.redirect_uri == request.redirect_uri,
        after.requests.contains_key(request.state),
        after.requests[request.state] == request,
        after.grants == before.grants,
{
}

/// A request that fails the checks of `begin` is never stored: the store is as it was.
pub proof fn lemma_begin_stores_nothing_invalid(
    client: ConfigView,
    before: TransactionStoreView,
    request: AuthorizationRequestView,
    after: TransactionStoreView,
    outcome: Result<(), AuthorizationError>,
)
    requires
        began(client, before, request, after, outcome),
        client.client_id != request.client_id || client.redirect_uri != request.redirect_uri,
    ensures
        outcome is Err,
        after == before,
{
}

/// An approval that succeeds right after a request was begun works on that request: the
/// client is sent to the request's redirect URI with its code challenge and state, and the
/// grant of the user stands under the code challenge. The request is gone from the store.
pub proof fn lemma_begin_then_approve(
    client: ConfigView,
    directory: Map<u128, UserView>,
    before: TransactionStoreView,
    request: AuthorizationRequestView,
    begun: TransactionStoreView,
    user_id: u128,
    after: TransactionStoreView,
    location: String,
)
    requires
        began(client, before, request, begun, Ok(())),
        approved(directory, begun, request.state, user_id, after, Ok(location)),
    ensures
        directory.contains_key(user_id),
        redirect_location(request.redirect_uri, request.code_challenge, request.state) == Some(
            location@,
        ),
        !after.requests.contains_key(request.state),
        after.grants.contains_key(request.code_challenge),
        after.grants[request.code_challenge] == (AuthorizationResponseView {
            code_challenge: request.code_challenge,
            state: request.state,
            user_id,
        }),
{
}

/// A transaction that goes all the way gives the token of the user who approved it: after
/// a request was begun and approved, the exchange of its code challenge, where it gives a
/// token, gives the one signed for the UUID of that user, and leaves nothing of the
/// transaction in the store.
pub proof fn lemma_flow_names_the_approver(
    client: ConfigView,
    signer: JsonWebTokenView,
    directory: Map<u128, UserView>,
    before: TransactionStoreView,
    request: AuthorizationRequestView,
    begun: TransactionStoreView,
    user_id: u128,
    granted: TransactionStoreView,
    location: String,
    client_id: Seq<char>,
    client_secret: Seq<char>,
    payload: AccessTokenRequestView,
    clock: Option<u64>,
    after: TransactionStoreView,
    response: AccessTokenResponse,
)
    requires
        began(client, before, request, begun, Ok(())),
        approved(directory, begun, request.state, user_id, granted, Ok(location)),
        payload.code == request.code_challenge,
        exchanged(
            client,
            signer,
            granted,
            client_id,
            client_secret,
            payload,
            clock,
            after,
            Ok(response),
        ),
    ensures
        directory.contains_key(user_id),
        signed_token(signer.secret, hyphenated(user_id), response.expires_at) == Some(
            response.access_token@,
        ),
        clock matches Some(now) && response.expires_at == now + signer.duration,
        response.expires_in == Some(signer.duration),
        !after.requests.contains_key(request.state),
        !after.grants.contains_key(request.code_challenge),
{
}

/// A request that the store hands out is approved: where the request stands under the
/// state, the user is in the directory, the location can be written, and the store does
/// not answer that it has nothing under the state, the approval sends the client to the
/// request's redirect URI with its code challenge and the state, the request is gone, and
/// the grant of the user stands under the code challenge.
pub proof fn lemma_live_request_is_approved(
    directory: Map<u128, UserView>,
    before: TransactionStoreView,
    state: Seq<char>,
    user_id: u128,
    after: TransactionStoreView,
    outcome: Result<String, ApiError>,
)
    requires
        approved(directory, before, state, user_id, after, outcome),
        before.requests.contains_key(state),
        directory.contains_key(user_id),
        redirect_location(
            before.requests[state].redirect_uri,
            before.requests[state].code_challenge,
            state,
        ) is Some,
        !fails_with(outcome, ApiErrorView::bad_request(ErrorKind::StateUnknown, Some(state))),
    ensures
        outcome matches Ok(location) && Some(location@) == redirect_location(
            before.requests[state].redirect_uri,
            before.requests[state].code_challenge,
            state,
        ),
        !after.requests.contains_key(state),
        after.grants.contains_key(before.requests[state].code_challenge),
        after.grants[before.requests[state].code_challenge] == (AuthorizationResponseView {
            code_challenge: before.requests[state].code_challenge,
            state: before.requests[state].state,
            user_id,
        }),
{
}

/// A grant that the store hands out is exchanged: where the client proves itself, the
/// redirect URI is the registered one, the signer issues, and the store does not answer
/// that it has nothing under the code, the exchange gives the bearer token that the signer
/// issued for the user of the grant, with the signer's lifetime and the token's expiry, and
/// the grant is gone.
pub proof fn lemma_live_grant_is_exchanged(
    client: ConfigView,
    signer: JsonWebTokenView,
    before: TransactionStoreView,
    client_id: Seq<char>,
    client_secret: Seq<char>,
    payload: AccessTokenRequestView,
    clock: Option<u64>,
    after: TransactionStoreView,
    outcome: Result<AccessTokenResponse, ApiError>,
)
    requires
        exchanged(
            client,
            signer,
            before,
            client_id,
            client_secret,
            payload,
            clock,
            after,
            outcome,
        ),
        client.basic_token_error(client_id, client_secret) is None,
        client.redirect_uri == payload.redirect_uri,
        before.grants.contains_key(payload.code),
        signer.issued(before.grants[payload.code].user_id, clock) is Ok,
        !fails_with(outcome, ApiErrorView::bad_request(ErrorKind::CodeNotFound, None)),
    ensures
        outcome matches Ok(response) && response@ == AccessTokenResponseView::bearer(
            signer.issued(before.grants[payload.code].user_id, clock)->Ok_0.0,
            signer.duration,
            signer.issued(before.grants[payload.code].user_id, clock)->Ok_0.1,
        ),
        !after.grants.contains_key(payload.code),
{
}

/// A request is approved at most once: whatever the first approval of a state gave, a
/// second one fails with `state_unknown`.
pub proof fn lemma_approve_once(
    directory: Map<u128, UserView>,
    before: TransactionStoreView,
    state: Seq<char>,
    first_user: u128,
    between: TransactionStoreView,
    first: Result<String, ApiError>,
    second_user: u128,
    after: TransactionStoreView,
    second: Result<String, ApiError>,
)
    requires
        approved(directory, before, state, first_user, between, first),
        approved(directory, between, state, second_user, after, second),
    ensures
        fails_with(second, ApiErrorView::bad_request(ErrorKind::StateUnknown, Some(state))),
        after.grants == between.grants,
{
}

/// A state under which the store holds nothing is unknown: the approval fails with
/// `state_unknown` and leaves the store as it was. So it is with a state that was never
/// begun, and with one whose request has left the store.
pub proof fn lemma_approve_unknown_state(
    directory: Map<u128, UserView>,
    before: TransactionStoreView,
    state: Seq<char>,
    user_id: u128,
    after: TransactionStoreView,
    outcome: Result<String, ApiError>,
)
    requires
        !before.requests.contains_key(state),
        approved(directory, before, state, user_id, after, outcome),
    ensures
        fails_with(outcome, ApiErrorView::bad_request(ErrorKind::StateUnknown, Some(state))),
        after == before,
{
    assert(before.requests.remove(state) =~= before.requests);
}

/// A request that the store no longer hands out counts as one that was never begun:
/// where the store answers an approval with nothing, the approval fails as it does on the
/// store that never held the request, and it leaves that very store behind.
pub proof fn lemma_lapsed_request_is_unknown(
    directory: Map<u128, UserView>,
    held: TransactionStoreView,
    state: Seq<char>,
    user_id: u128,
    after_held: TransactionStoreView,
    outcome_held: Result<String, ApiError>,
    after_never: TransactionStoreView,
    outcome_never: Result<String, ApiError>,
)
    requires
        approval_done(
            approval(directory, None, state, user_id),
            held.without_request(state),
            after_held,
            outcome_held,
        ),
        approved(
            directory,
            held.without_request(state),
            state,
            user_id,
            after_never,
            outcome_never,
        ),
    ensures
        approved(directory, held, state, user_id, after_held, outcome_held),
        fails_with(outcome_held, ApiErrorView::bad_request(ErrorKind::StateUnknown, Some(state))),
        fails_with(
            outcome_never,
            ApiErrorView::bad_request(ErrorKind::StateUnknown, Some(state)),
        ),
        after_held == after_never,
{
    let never = held.without_request(state);
    assert(never.requests.remove(state) =~= never.requests);
}

/// A grant that the store no longer hands out counts as one that was never made: where
/// the store answers the exchange of a client that proves itself with nothing, the exchange
/// fails as it does on the store that never held the grant, and it leaves that very store
/// behind.
pub proof fn lemma_lapsed_grant_is_not_found(
    client: ConfigView,
    signer: JsonWebTokenView,
    held: TransactionStoreView,
    client_id: Seq<char>,
    client_secret: Seq<char>,
    payload: AccessTokenRequestView,
    clock: Option<u64>,
    after_held: TransactionStoreView,
    outcome_held: Result<AccessTokenResponse, ApiError>,
    after_never: TransactionStoreView,
    outcome_never: Result<AccessTokenResponse, ApiError>,
)
    requires
        client.basic_token_error(client_id, client_secret) is None,
        after_held == held.without_grant(payload.code),
        redemption_done(
            exchange_answer(client, signer, None, payload.redirect_uri, clock),
            outcome_held,
        ),
        exchanged(
            client,
            signer,
            held.without_grant(payload.code),
            client_id,
            client_secret,
            payload,
            clock,
            after_never,
            outcome_never,
        ),
    ensures
        exchanged(
            client,
            signer,
            held,
            client_id,
            client_secret,
            payload,
            clock,
            after_held,
            outcome_held,
        ),
        fails_with(outcome_held, ApiErrorView::bad_request(ErrorKind::CodeNotFound, None)),
        fails_with(outcome_never, ApiErrorView::bad_request(ErrorKind::CodeNotFound, None)),
        after_held == after_never,
{
    let never = held.without_grant(payload.code);
    assert(never.grants.remove(payload.code) =~= never.grants);
}

/// A grant is exchanged at most once: after an exchange that gave a token, a second one
/// with the same code fails, and it fails with `code-not-found` where the client proves
/// itself.
pub proof fn lemma_exchange_once(
    client: ConfigView,
    signer: JsonWebTokenView,
    before: TransactionStoreView,
    client_id: Seq<char>,
    client_secret: Seq<char>,
    payload: AccessTokenRequestView,
    first_clock: Option<u64>,
    between: TransactionStoreView,
    first: Result<AccessTokenResponse, ApiError>,
    second_id: Seq<char>,
    second_secret: Seq<char>,
    second_payload: AccessTokenRequestView,
    second_clock: Option<u64>,
    after: TransactionStoreView,
    second: Result<AccessTokenResponse, ApiError>,
)
    requires
        exchanged(
            client,
            signer,
            before,
            client_id,
            client_secret,
            payload,
            first_clock,
            between,
            first,
        ),
        first is Ok,
        second_payload.code == payload.code,
        exchanged(
            client,
            signer,
            between,
            second_id,
            second_secret,
            second_payload,
            second_clock,
            after,
            second,
        ),
    ensures
        second is Err,
        client.basic_token_error(second_id, second_secret) is None ==> fails_with(
            second,
            ApiErrorView::bad_request(ErrorKind::CodeNotFound, None),
        ),
{
}

/// A code under which the store holds nothing is not found: the exchange of a client that
/// proves itself fails with `code-not-found` and leaves the store as it was. So it is with
/// a code that no approval produced, and with one whose grant has left the store.
pub proof fn lemma_exchange_unknown_code(
    client: ConfigView,
    signer: JsonWebTokenView,
    before: TransactionStoreView,
    client_id: Seq<char>,
    client_secret: Seq<char>,
    payload: AccessTokenRequestView,
    clock: Option<u64>,
    after: TransactionStoreView,
    outcome: Result<AccessTokenResponse, ApiError>,
)
    requires
        !before.grants.contains_key(payload.code),
        client.basic_token_error(client_id, client_secret) is None,
        exchanged(
            client,
            signer,
            before,
            client_id,
            client_secret,
            payload,
            clock,
            after,
            outcome,
        ),
    ensures
        fails_with(outcome, ApiErrorView::bad_request(ErrorKind::CodeNotFound, None)),
        after == before,
{
    assert(before.grants.remove(payload.code) =~= before.grants);
}

/// A client that does not prove itself learns nothing about a code: its exchange fails
/// with the failure of its credentials, whatever the store holds, and the store is as it
/// was.
pub proof fn lemma_exchange_turns_strangers_away(
    client: ConfigView,
    signer: JsonWebTokenView,
    before: TransactionStoreView,
    client_id: Seq<char>,
    client_secret: Seq<char>,
    payload: AccessTokenRequestView,
    clock: Option<u64>,
    after: TransactionStoreView,
    outcome: Result<AccessTokenResponse, ApiError>,
)
    requires
        client.basic_token_error(client_id, client_secret) is Some,
        exchanged(
            client,
            signer,
            before,
            client_id,
            client_secret,
            payload,
            clock,
            after,
            outcome,
        ),
    ensures
        fails_with(
            outcome,
            ApiErrorView {
                code: BAD_REQUEST,
                inner: client.basic_token_error(client_id, client_secret)->0,
            },
        ),
        after == before,
{
}

/// Of any number of exchanges of one code by a client that proves itself, one after the
/// other, only the first can give a token: every later one fails with `code-not-found`.
pub proof fn lemma_exchange_many(
    client: ConfigView,
    signer: JsonWebTokenView,
    stores: Seq<TransactionStoreView>,
    client_id: Seq<char>,
    client_secret: Seq<char>,
    payload: AccessTokenRequestView,
    clocks: Seq<Option<u64>>,
    outcomes: Seq<Result<AccessTokenResponse, ApiError>>,
)
    requires
        stores.len() == outcomes.len() + 1,
        clocks.len() == outcomes.len(),
        client.basic_token_error(client_id, client_secret) is None,
        forall|attempt: int|
            0 <= attempt < outcomes.len() ==> #[trigger] exchanged(
                client,
                signer,
                stores[attempt],
                client_id,
                client_secret,
                payload,
                clocks[attempt],
                stores[attempt + 1],
                outcomes[attempt],
            ),
    ensures
        forall|attempt: int|
            1 <= attempt < outcomes.len() ==> fails_with(
                #[trigger] outcomes[attempt],
                ApiErrorView::bad_request(ErrorKind::CodeNotFound, None),
            ),
{
    assert forall|attempt: int| 1 <= attempt < outcomes.len() implies fails_with(
        #[trigger] outcomes[attempt],
        ApiErrorView::bad_request(ErrorKind::CodeNotFound, None),
    ) by {
        assert(exchanged(
            client,
            signer,
            stores[attempt - 1],
            client_id,
            client_secret,
            payload,
            clocks[attempt - 1],
            stores[attempt - 1 + 1],
            outcomes[attempt - 1],
        ));
        assert(exchanged(
            client,
            signer,
            stores[attempt],
            client_id,
            client_secret,
            payload,
            clocks[attempt],
            stores[attempt + 1],
            outcomes[attempt],
        ));
    }
}

/// Every step keeps each entry of the store under its own key: a request under its state,
/// a grant under its code challenge.
pub proof fn lemma_steps_keep_the_keys(
    client: ConfigView,
    signer: JsonWebTokenView,
    directory: Map<u128, UserView>,
    before: TransactionStoreView,
    after: TransactionStoreView,
    request: AuthorizationRequestView,
    begun: Result<(), AuthorizationError>,
    state: Seq<char>,
    user_id: u128,
    approval: Result<String, ApiError>,
    client_id: Seq<char>,
    client_secret: Seq<char>,
    payload: AccessTokenRequestView,
    clock: Option<u64>,
    exchange: Result<AccessTokenResponse, ApiError>,
)
    requires
        before.keyed(),
        began(client, before, request, after, begun) || approved(
            directory,
            before,
            state,
            user_id,
            after,
            approval,
        ) || exchanged(
            client,
            signer,
            before,
            client_id,
            client_secret,
            payload,
            clock,
            after,
            exchange,
        ),
    ensures
        after.keyed(),
{
}

/// Every grant of the store is the grant of a user of the directory.
pub open spec fn vetted(store: TransactionStoreView, directory: Map<u128, UserView>) -> bool {
    forall|code: Seq<char>| #[trigger]
        store.grants.contains_key(code) ==> directory.contains_key(store.grants[code].user_id)
}

/// Grants are made for users of the directory only, and no step brings in another: a
/// store whose grants are all vetted stays so through every step.
pub proof fn lemma_steps_keep_grants_vetted(
    client: ConfigView,
    signer: JsonWebTokenView,
    directory: Map<u128, UserView>,
    before: TransactionStoreView,
    after: TransactionStoreView,
    request: AuthorizationRequestView,
    begun: Result<(), AuthorizationError>,
    state: Seq<char>,
    user_id: u128,
    approval: Result<String, ApiError>,
    client_id: Seq<char>,
    client_secret: Seq<char>,
    payload: AccessTokenRequestView,
    clock: Option<u64>,
    exchange: Result<AccessTokenResponse, ApiError>,
)
    requires
        vetted(before, directory),
        began(client, before, request, after, begun) || approved(
            directory,
            before,
            state,
            user_id,
            after,
            approval,
        ) || exchanged(
            client,
            signer,
            before,
            client_id,
            client_secret,
            payload,
            clock,
            after,
            exchange,
        ),
    ensures
        vetted(after, directory),
{
}

/// A token that an exchange gives names a user of the directory: it is the token signed
/// for the UUID of the user whose grant stood under the code, it expires when the answer
/// says, and that is the signer's lifetime after the clock's time.
pub proof fn lemma_token_names_a_known_user(
    client: ConfigView,
    signer: JsonWebTokenView,
    directory: Map<u128, UserView>,
    before: TransactionStoreView,
    client_id: Seq<char>,
    client_secret: Seq<char>,
    payload: AccessTokenRequestView,
    clock: Option<u64>,
    after: TransactionStoreView,
    response: AccessTokenResponse,
)
    requires
        vetted(before, directory),
        exchanged(
            client,
            signer,
            before,
            client_id,
            client_secret,
            payload,
            clock,
            after,
            Ok(response),
        ),
    ensures
        client.client_id == client_id,
        client.client_secret == client_secret,
        client.redirect_uri == payload.redirect_uri,
        before.grants.contains_key(payload.code),
        !after.grants.contains_key(payload.code),
        directory.contains_key(before.grants[payload.code].user_id),
        clock matches Some(now) && response.expires_at == now + signer.duration,
        response.expires_in == Some(signer.duration),
        response.token_type@ == "Bearer"@,
        signed_token(
            signer.secret,
            hyphenated(before.grants[payload.code].user_id),
            response.expires_at,
        ) == Some(response.access_token@),
{
}

/// Issuing depends on the signer, the user and the clock alone: two tokens issued for one
/// user at one time are the same text with the same expiry, and where one fails the other
/// fails alike. A token that is issued expires the signer's lifetime after the clock's time.
pub proof fn lemma_issue_is_fixed_by_the_clock(
    signer: JsonWebTokenView,
    user_id: u128,
    clock: Option<u64>,
    first: Result<(String, u64), TokenError>,
    second: Result<(String, u64), TokenError>,
)
    requires
        issues(first, signer.issued(user_id, clock)),
        issues(second, signer.issued(user_id, clock)),
    ensures
        first is Ok <==> second is Ok,
        first is Ok ==> first->Ok_0.0@ == second->Ok_0.0@ && first->Ok_0.1 == second->Ok_0.1,
        first is Err ==> first->Err_0 == second->Err_0,
        first is Ok ==> clock is Some && first->Ok_0.1 == clock->0 + signer.duration,
{
}

/// A token reads back as it was issued: where the signer issued a token for a user, and
/// the token is decoded with the same secret no later than `LEEWAY` seconds after its
/// expiry, it names that user.
pub proof fn lemma_issued_token_names_its_user(
    signer: JsonWebTokenView,
    user_id: u128,
    clock: Option<u64>,
    token: String,
    expiry: u64,
    now: u64,
    subject: Option<u128>,
)
    requires
        issues(Ok((token, expiry)), signer.issued(user_id, clock)),
        signer.reads(token@, user_id, expiry),
        in_time(expiry, now),
        signer.decodes(token@, Some(now), subject),
    ensures
        subject == Some(user_id),
        clock matches Some(issued_at) && expiry == issued_at + signer.duration,
{
}

/// A token names nobody once it is out of time: decoded later than `LEEWAY` seconds after
/// the expiry that it states, it gives no user, whoever signed it. So does a token that
/// the signer's secret refuses, a token without a subject, and every token while the clock
/// has no time to give.
pub proof fn lemma_expired_token_names_nobody(
    signer: JsonWebTokenView,
    token: Seq<char>,
    now: Option<u64>,
    subject: Option<u128>,
)
    requires
        signer.decodes(token, now, subject),
        ({
            ||| now is None
            ||| signed_claims(signer.secret, token) is None
            ||| signed_claims(signer.secret, token) matches Some((_, None))
            ||| signed_claims(signer.secret, token) matches Some((None, _))
            ||| (signed_claims(signer.secret, token) matches Some((Some(expiry), _)) && (now
                matches Some(clock) && clock > expiry + LEEWAY))
        }),
    ensures
        subject is None,
{
}

/// The token of an exchange names the user of the grant: decoded with the signer's secret
/// no later than `LEEWAY` seconds after the expiry that the answer states, it gives the
/// user whose grant stood under the code.
pub proof fn lemma_exchanged_token_names_the_user(
    client: ConfigView,
    signer: JsonWebTokenView,
    before: TransactionStoreView,
    client_id: Seq<char>,
    client_secret: Seq<char>,
    payload: AccessTokenRequestView,
    clock: Option<u64>,
    after: TransactionStoreView,
    response: AccessTokenResponse,
    now: u64,
    subject: Option<u128>,
)
    requires
        exchanged(
            client,
            signer,
            before,
            client_id,
            client_secret,
            payload,
            clock,
            after,
            Ok(response),
        ),
        in_time(response.expires_at, now),
        signer.decodes(response.access_token@, Some(now), subject),
    ensures
        before.grants.contains_key(payload.code),
        subject == Some(before.grants[payload.code].user_id),
{
}

/// A transaction that goes all the way gives a token that names the approver: after a
/// request was begun and approved, the token that the exchange of its code challenge
/// gives, decoded no later than `LEEWAY` seconds after its expiry, names the user who
/// approved.
pub proof fn lemma_flow_token_names_the_approver(
    client: ConfigView,
    signer: JsonWebTokenView,
    directory: Map<u128, UserView>,
    before: TransactionStoreView,
    request: AuthorizationRequestView,
    begun: TransactionStoreView,
    user_id: u128,
    granted: TransactionStoreView,
    location: String,
    client_id: Seq<char>,
    client_secret: Seq<char>,
    payload: AccessTokenRequestView,
    clock: Option<u64>,
    after: TransactionStoreView,
    response: AccessTokenResponse,
    now: u64,
    subject: Option<u128>,
)
    requires
        began(client, before, request, begun, Ok(())),
        approved(directory, begun, request.state, user_id, granted, Ok(location)),
        payload.code == request.code_challenge,
        exchanged(
            client,
            signer,
            granted,
            client_id,
            client_secret,
            payload,
            clock,
            after,
            Ok(response),
        ),
        in_time(response.expires_at, now),
        signer.decodes(response.access_token@, Some(now), subject),
    ensures
        subject == Some(user_id),
        directory.contains_key(user_id),
{
}

/// A bearer is never taken for another user than the one its token names: where looking
/// a bearer up gives a user, the token names an identifier for the signer at that time,
/// and the user is the one that the directory holds under it.
pub proof fn lemma_bearer_is_the_user_of_its_token(
    directory: Map<u128, UserView>,
    signer: JsonWebTokenView,
    bearer: Seq<char>,
    now: Option<u64>,
    user: User,
)
    requires
        identified(directory, signer, bearer, now, Ok(user)),
    ensures
        exists|id: u128|
            {
                &&& #[trigger] signer.decodes(bearer, now, Some(id))
                &&& directory.contains_key(id)
                &&& directory[id] == user@
            },
{
    let subject = choose|subject: Option<u128>|
        {
            &&& #[trigger] signer.decodes(bearer, now, subject)
            &&& identity_done(identity(directory, subject), Ok(user))
        };
    assert(signer.decodes(bearer, now, Some(subject->0)));
}

/// The directory of a list of users holds the identifiers of the list and no others, and
/// under each the last user of the list that has it.
pub proof fn lemma_directory_holds_the_last(users: Seq<User>, id: u128)
    ensures
        directory_of(users).contains_key(id) <==> exists|at: int|
            0 <= at < users.len() && #[trigger] users[at].id == id,
        directory_of(users).contains_key(id) ==> exists|at: int|
            {
                &&& 0 <= at < users.len()
                &&& #[trigger] users[at].id == id
                &&& directory_of(users)[id] == users[at]@
                &&& forall|later: int| at < later < users.len() ==> users[later].id != id
            },
    decreases users.len(),
{
    if users.len() > 0 {
        let front = users.drop_last();
        lemma_directory_holds_the_last(front, id);
        let last = users.len() - 1;
        if users[last].id == id {
            assert(users[last].id == id && directory_of(users)[id] == users[last]@);
        } else if directory_of(front).contains_key(id) {
            let at = choose|at: int|
                {
                    &&& 0 <= at < front.len()
                    &&& #[trigger] front[at].id == id
                    &&& directory_of(front)[id] == front[at]@
                    &&& forall|later: int| at < later < front.len() ==> front[later].id != id
                };
            assert(users[at].id == id);
            assert(directory_of(users)[id] == users[at]@);
            assert forall|later: int| at < later < users.len() implies users[later].id != id by {
                if later < front.len() {
                    assert(front[later].id != id);
                }
            }
        } else {
            assert forall|at: int| 0 <= at < users.len() implies #[trigger] users[at].id
                != id by {
                if at < front.len() {
                    assert(front[at].id == users[at].id);
                }
            }
        }
        if exists|at: int| 0 <= at < users.len() && #[trigger] users[at].id == id {
            let at = choose|at: int| 0 <= at < users.len() && #[trigger] users[at].id == id;
            if at < front.len() {
                assert(front[at].id == id);
            }
        }
    }
}

} // verus!
