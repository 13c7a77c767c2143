use quiestce::entity::accesstoken::{AccessTokenRequest, AccessTokenResponse};
use quiestce::entity::authorization::{
    AuthorizationError, AuthorizationRequest, AuthorizationResponse, ErrorKind,
};
use quiestce::entity::user::User;
use quiestce::handler::authorize::{begin, login_page};
use quiestce::handler::redirect::{approve, approve_taken};
use quiestce::handler::token::{check_code, check_taken, exchange, exchange_at, redeem};
use quiestce::handler::userinfo::{user_of, userinfo, userinfo_at};
use quiestce::handler::{ApiError, BAD_REQUEST, INTERNAL_SERVER_ERROR, UNAUTHORIZED};
use quiestce::service::cache::{Limits, TransactionStore};
use quiestce::service::database::DatabaseUser;
use quiestce::service::oauth::Oauth;
use quiestce::service::token::{JsonWebToken, TokenError};

const ALICE: u128 = 0x550e8400e29b41d4a716446655440000;
const BOB: u128 = 0x6ba7b8109dad11d180b400c04fd430c8;
const NOBODY: u128 = 42;

fn oauth() -> Oauth {
    Oauth::from(quiestce::service::oauth::Config {
        client_id: "client-id".to_string(),
        client_secret: "client-secret".to_string(),
        redirect_uri: "http://app/api/redirect".to_string(),
    })
}

fn jwt() -> JsonWebToken {
    JsonWebToken::from(quiestce::service::token::Config {
        duration: None,
        secret: "secret".to_string(),
    })
}

fn alice() -> User {
    User { id: ALICE, name: "Alice".to_string(), email: "alice@example.com".to_string() }
}

fn bob() -> User {
    User { id: BOB, name: "Bob".to_string(), email: "bob@example.com".to_string() }
}

fn database() -> DatabaseUser {
    DatabaseUser::from(vec![alice(), bob()])
}

fn request(state: &str, code_challenge: &str) -> AuthorizationRequest {
    AuthorizationRequest {
        client_id: "client-id".to_string(),
        code_challenge: code_challenge.to_string(),
        code_challenge_method: "S256".to_string(),
        redirect_uri: "http://app/api/redirect".to_string(),
        response_type: "code".to_string(),
        state: state.to_string(),
    }
}

fn payload(code: &str) -> AccessTokenRequest {
    AccessTokenRequest { code: code.to_string(), redirect_uri: "http://app/api/redirect".to_string() }
}

fn bad_request(kind: ErrorKind, state: Option<&str>) -> ApiError {
    ApiError::bad_request(AuthorizationError::new(kind, state.map(|state| state.to_string())))
}

fn now() -> u64 {
    std::time::SystemTime::now().duration_since(std::time::UNIX_EPOCH).unwrap().as_secs()
}

fn wait_for(seconds: u64) {
    let start = std::time::Instant::now();
    while start.elapsed() < std::time::Duration::from_millis(seconds * 1000 + 300) {
        std::hint::spin_loop();
    }
}

fn approved_store(code_challenge: &str, state: &str) -> TransactionStore {
    let mut store = TransactionStore::default();
    begin(&oauth(), &mut store, request(state, code_challenge)).unwrap();
    approve(&database(), &mut store, state.to_string(), ALICE).unwrap();
    store
}

#[test]
fn authentication_workflow() {
    let oauth = oauth();
    let jwt = jwt();
    let database = database();
    let mut store = TransactionStore::default();
    let csrf_token = "csrf-token";
    let pkce_challenge = "E9Melhoa2OwvFrEMTJguCHaoeK1t8URWbuGJSstw-cM";

    assert_eq!(begin(&oauth, &mut store, request(csrf_token, pkce_challenge)), Ok(()));
    let body = login_page(csrf_token, &vec![alice(), bob()]);
    assert!(body.contains("Alice"));

    let start = body.find("href=\"/api/redirect/").unwrap() + "href=\"".len();
    let end = start + body[start..].find('"').unwrap();
    let auth_url = &body[start..end];
    let mut parts = auth_url.strip_prefix("/api/redirect/").unwrap().split('/');
    let state = parts.next().unwrap().to_string();
    let user_id = uuid::Uuid::parse_str(parts.next().unwrap()).unwrap().as_u128();
    assert_eq!(parts.next(), None);

    let location = approve(&database, &mut store, state, user_id).unwrap();
    assert!(location.starts_with("http://app/api/redirect"));

    let query_params = location.strip_prefix("http://app/api/redirect?").unwrap();
    let (code, state) = query_params.split_once('&').unwrap();
    let code = code.strip_prefix("code=").unwrap();
    let state = state.strip_prefix("state=").unwrap();
    assert_eq!(state, csrf_token);

    let token_result =
        exchange(&oauth, &mut store, &jwt, "client-id", "client-secret", &payload(code)).unwrap();
    assert_eq!(token_result.token_type, "Bearer");

    assert_eq!(userinfo(&database, &jwt, &token_result.access_token), Ok(alice()));
}

#[test]
fn begin_approve_exchange() {
    let mut store = TransactionStore::default();
    assert_eq!(begin(&oauth(), &mut store, request("xyz", "abc")), Ok(()));
    assert_eq!(
        approve(&database(), &mut store, "xyz".to_string(), ALICE),
        Ok("http://app/api/redirect?code=abc&state=xyz".to_string())
    );
    let before = now();
    let response =
        exchange(&oauth(), &mut store, &jwt(), "client-id", "client-secret", &payload("abc"))
            .unwrap();
    let after = now();
    assert_eq!(response.token_type, "Bearer");
    assert_eq!(response.expires_in, Some(3600));
    assert!(before + 3600 <= response.expires_at && response.expires_at <= after + 3600);
    assert_eq!(jwt().decode(&response.access_token), Some(ALICE));
}

#[test]
fn exchange_at_a_given_time() {
    let mut store = approved_store("abc", "xyz");
    let response = exchange_at(
        &oauth(),
        &mut store,
        &jwt(),
        "client-id",
        "client-secret",
        &payload("abc"),
        1000,
    )
    .unwrap();
    let (token, expiry) = jwt().encode_at(ALICE, 1000).unwrap();
    assert_eq!(
        response,
        AccessTokenResponse {
            access_token: token,
            token_type: "Bearer",
            expires_in: Some(3600),
            expires_at: 4600,
        }
    );
    assert_eq!(expiry, 4600);
}

#[test]
fn request_is_approved_once() {
    let mut store = TransactionStore::default();
    begin(&oauth(), &mut store, request("xyz", "abc")).unwrap();
    assert!(approve(&database(), &mut store, "xyz".to_string(), ALICE).is_ok());
    assert_eq!(
        approve(&database(), &mut store, "xyz".to_string(), ALICE),
        Err(bad_request(ErrorKind::StateUnknown, Some("xyz")))
    );
    assert_eq!(
        approve(&database(), &mut store, "xyz".to_string(), BOB),
        Err(bad_request(ErrorKind::StateUnknown, Some("xyz")))
    );
}

#[test]
fn grant_is_exchanged_once() {
    let mut store = approved_store("abc", "xyz");
    assert!(exchange(
        &oauth(),
        &mut store,
        &jwt(),
        "client-id",
        "client-secret",
        &payload("abc")
    )
    .is_ok());
    assert_eq!(
        exchange(&oauth(), &mut store, &jwt(), "client-id", "client-secret", &payload("abc")),
        Err(bad_request(ErrorKind::CodeNotFound, None))
    );
}

#[test]
fn many_exchanges_of_one_code_give_one_token() {
    let mut store = approved_store("abc", "xyz");
    let mut tokens = 0;
    let mut not_found = 0;
    for _ in 0..16 {
        match exchange(&oauth(), &mut store, &jwt(), "client-id", "client-secret", &payload("abc"))
        {
            Ok(_) => tokens += 1,
            Err(error) => {
                assert_eq!(error, bad_request(ErrorKind::CodeNotFound, None));
                not_found += 1;
            }
        }
    }
    assert_eq!(tokens, 1);
    assert_eq!(not_found, 15);
}

#[test]
fn request_is_unknown_after_its_time_to_live() {
    let short = Limits { max_capacity: 100, time_to_live: 1 };
    let mut store = TransactionStore::new(short, short).unwrap();
    let mut untouched = TransactionStore::new(short, short).unwrap();
    begin(&oauth(), &mut store, request("xyz", "abc")).unwrap();
    wait_for(1);
    let expired = approve(&database(), &mut store, "xyz".to_string(), ALICE);
    let never = approve(&database(), &mut untouched, "xyz".to_string(), ALICE);
    assert_eq!(expired, Err(bad_request(ErrorKind::StateUnknown, Some("xyz"))));
    assert_eq!(expired, never);
}

#[test]
fn grant_is_not_found_after_its_time_to_live() {
    let short = Limits { max_capacity: 100, time_to_live: 1 };
    let mut store = TransactionStore::new(short, short).unwrap();
    let mut untouched = TransactionStore::new(short, short).unwrap();
    begin(&oauth(), &mut store, request("xyz", "abc")).unwrap();
    approve(&database(), &mut store, "xyz".to_string(), ALICE).unwrap();
    wait_for(1);
    let expired =
        exchange(&oauth(), &mut store, &jwt(), "client-id", "client-secret", &payload("abc"));
    let never =
        exchange(&oauth(), &mut untouched, &jwt(), "client-id", "client-secret", &payload("abc"));
    assert_eq!(expired, Err(bad_request(ErrorKind::CodeNotFound, None)));
    assert_eq!(expired, never);
}

#[test]
fn exchange_of_a_code_that_was_never_produced() {
    let mut store = TransactionStore::default();
    let error =
        exchange(&oauth(), &mut store, &jwt(), "client-id", "client-secret", &payload("abc"))
            .unwrap_err();
    assert_eq!(error.code, 400);
    assert_eq!(error.inner.error(), "code-not-found");
    assert_eq!(error.inner.error_description(), "The provided code was not found in our database.");
    assert_eq!(error.inner.state, None);
}

#[test]
fn exchange_of_a_code_that_was_only_begun() {
    let mut store = TransactionStore::default();
    begin(&oauth(), &mut store, request("xyz", "abc")).unwrap();
    assert_eq!(
        exchange(&oauth(), &mut store, &jwt(), "client-id", "client-secret", &payload("abc")),
        Err(bad_request(ErrorKind::CodeNotFound, None))
    );
}

#[test]
fn approve_with_an_unknown_state() {
    let mut store = TransactionStore::default();
    let error = approve(&database(), &mut store, "xyz".to_string(), ALICE).unwrap_err();
    assert_eq!(error.code, 400);
    assert_eq!(error.inner.error(), "state_unknown");
    assert_eq!(
        error.inner.error_description(),
        "Unable to find authorization request with the provided state."
    );
    assert_eq!(error.inner.state, Some("xyz".to_string()));
}

#[test]
fn approve_with_an_unknown_user_uses_the_request_up() {
    let mut store = TransactionStore::default();
    begin(&oauth(), &mut store, request("xyz", "abc")).unwrap();
    let error = approve(&database(), &mut store, "xyz".to_string(), NOBODY).unwrap_err();
    assert_eq!(error, bad_request(ErrorKind::UserNotFound, Some("xyz")));
    assert_eq!(error.inner.error(), "user_not_found");
    assert_eq!(
        approve(&database(), &mut store, "xyz".to_string(), ALICE),
        Err(bad_request(ErrorKind::StateUnknown, Some("xyz")))
    );
    assert_eq!(
        exchange(&oauth(), &mut store, &jwt(), "client-id", "client-secret", &payload("abc")),
        Err(bad_request(ErrorKind::CodeNotFound, None))
    );
}

#[test]
fn begin_with_an_unknown_client_stores_nothing() {
    let mut store = TransactionStore::default();
    let mut other = request("xyz", "abc");
    other.client_id = "other".to_string();
    assert_eq!(
        begin(&oauth(), &mut store, other),
        Err(AuthorizationError::new(ErrorKind::InvalidClientId, Some("xyz".to_string())))
    );
    assert_eq!(
        approve(&database(), &mut store, "xyz".to_string(), ALICE),
        Err(bad_request(ErrorKind::StateUnknown, Some("xyz")))
    );
}

#[test]
fn begin_with_another_redirect_uri_stores_nothing() {
    let mut store = TransactionStore::default();
    let mut other = request("xyz", "abc");
    other.redirect_uri = "http://evil/api/redirect".to_string();
    assert_eq!(
        begin(&oauth(), &mut store, other),
        Err(AuthorizationError::new(ErrorKind::RedirectUriMismatch, Some("xyz".to_string())))
    );
    assert_eq!(
        approve(&database(), &mut store, "xyz".to_string(), ALICE),
        Err(bad_request(ErrorKind::StateUnknown, Some("xyz")))
    );
}

#[test]
fn begin_again_takes_the_place_of_the_first_request() {
    let mut store = TransactionStore::default();
    begin(&oauth(), &mut store, request("xyz", "first")).unwrap();
    begin(&oauth(), &mut store, request("xyz", "second")).unwrap();
    assert_eq!(
        approve(&database(), &mut store, "xyz".to_string(), ALICE),
        Ok("http://app/api/redirect?code=second&state=xyz".to_string())
    );
    assert_eq!(
        exchange(&oauth(), &mut store, &jwt(), "client-id", "client-secret", &payload("first")),
        Err(bad_request(ErrorKind::CodeNotFound, None))
    );
}

#[test]
fn exchange_by_a_stranger_leaves_the_grant() {
    let mut store = approved_store("abc", "xyz");
    assert_eq!(
        exchange(&oauth(), &mut store, &jwt(), "other", "client-secret", &payload("abc")),
        Err(bad_request(ErrorKind::InvalidClientId, None))
    );
    assert_eq!(
        exchange(&oauth(), &mut store, &jwt(), "client-id", "guess", &payload("abc")),
        Err(bad_request(ErrorKind::InvalidClientSecret, None))
    );
    assert!(exchange(
        &oauth(),
        &mut store,
        &jwt(),
        "client-id",
        "client-secret",
        &payload("abc")
    )
    .is_ok());
}

#[test]
fn exchange_by_a_stranger_says_nothing_about_the_code() {
    let mut store = TransactionStore::default();
    assert_eq!(
        exchange(&oauth(), &mut store, &jwt(), "other", "client-secret", &payload("abc")),
        Err(bad_request(ErrorKind::InvalidClientId, None))
    );
}

#[test]
fn exchange_with_another_redirect_uri_uses_the_grant_up() {
    let mut store = approved_store("abc", "xyz");
    let other =
        AccessTokenRequest { code: "abc".to_string(), redirect_uri: "http://evil/".to_string() };
    assert_eq!(
        exchange(&oauth(), &mut store, &jwt(), "client-id", "client-secret", &other),
        Err(bad_request(ErrorKind::RedirectUriMismatch, Some("xyz")))
    );
    assert_eq!(
        exchange(&oauth(), &mut store, &jwt(), "client-id", "client-secret", &payload("abc")),
        Err(bad_request(ErrorKind::CodeNotFound, None))
    );
}

#[test]
fn exchange_that_cannot_sign_reports_the_server() {
    let mut store = approved_store("abc", "xyz");
    let error = exchange_at(
        &oauth(),
        &mut store,
        &jwt(),
        "client-id",
        "client-secret",
        &payload("abc"),
        u64::MAX,
    )
    .unwrap_err();
    assert_eq!(error.code, 500);
    assert_eq!(error.inner.error(), "server_error");
    assert_eq!(error.inner.state, Some("xyz".to_string()));
}

#[test]
fn transactions_do_not_touch_each_other() {
    let mut store = TransactionStore::default();
    begin(&oauth(), &mut store, request("one", "first")).unwrap();
    begin(&oauth(), &mut store, request("two", "second")).unwrap();
    approve(&database(), &mut store, "two".to_string(), BOB).unwrap();
    approve(&database(), &mut store, "one".to_string(), ALICE).unwrap();
    let first =
        exchange(&oauth(), &mut store, &jwt(), "client-id", "client-secret", &payload("first"))
            .unwrap();
    let second =
        exchange(&oauth(), &mut store, &jwt(), "client-id", "client-secret", &payload("second"))
            .unwrap();
    assert_eq!(jwt().decode(&first.access_token), Some(ALICE));
    assert_eq!(jwt().decode(&second.access_token), Some(BOB));
}

#[test]
fn approval_of_what_the_store_answered() {
    let mut store = TransactionStore::default();
    assert_eq!(
        approve_taken(&database(), &mut store, None, "xyz".to_string(), ALICE),
        Err(bad_request(ErrorKind::StateUnknown, Some("xyz")))
    );
    assert_eq!(
        approve_taken(&database(), &mut store, Some(request("xyz", "abc")), "xyz".to_string(), NOBODY),
        Err(bad_request(ErrorKind::UserNotFound, Some("xyz")))
    );
    assert_eq!(store.remove_authorization_response("abc"), None);
    assert_eq!(
        approve_taken(&database(), &mut store, Some(request("xyz", "abc")), "xyz".to_string(), BOB),
        Ok("http://app/api/redirect?code=abc&state=xyz".to_string())
    );
    assert_eq!(
        store.remove_authorization_response("abc"),
        Some(AuthorizationResponse {
            code_challenge: "abc".to_string(),
            state: "xyz".to_string(),
            user_id: BOB,
        })
    );
}

#[test]
fn checks_of_what_the_store_answered() {
    let grant = AuthorizationResponse {
        code_challenge: "abc".to_string(),
        state: "xyz".to_string(),
        user_id: ALICE,
    };
    assert_eq!(
        check_taken(&oauth(), None, "http://app/api/redirect"),
        Err(bad_request(ErrorKind::CodeNotFound, None))
    );
    assert_eq!(
        check_taken(&oauth(), Some(grant.clone()), "http://evil/"),
        Err(bad_request(ErrorKind::RedirectUriMismatch, Some("xyz")))
    );
    assert_eq!(
        check_taken(&oauth(), Some(grant.clone()), "http://app/api/redirect"),
        Ok(grant)
    );
}

#[test]
fn checks_of_an_exchange_take_the_grant() {
    let mut store = approved_store("abc", "xyz");
    assert_eq!(
        check_code(&oauth(), &mut store, "client-id", "client-secret", &payload("abc")),
        Ok(AuthorizationResponse {
            code_challenge: "abc".to_string(),
            state: "xyz".to_string(),
            user_id: ALICE,
        })
    );
    assert_eq!(
        check_code(&oauth(), &mut store, "client-id", "client-secret", &payload("abc")),
        Err(bad_request(ErrorKind::CodeNotFound, None))
    );
}

#[test]
fn answer_to_what_the_signer_issued() {
    let grant = || AuthorizationResponse {
        code_challenge: "abc".to_string(),
        state: "xyz".to_string(),
        user_id: ALICE,
    };
    assert_eq!(
        redeem(&jwt(), grant(), Ok(("token".to_string(), 4600))),
        Ok(AccessTokenResponse::bearer("token".to_string(), 3600, 4600))
    );
    for error in [TokenError::Clock, TokenError::Expiry, TokenError::Signature] {
        assert_eq!(
            redeem(&jwt(), grant(), Err(error)),
            Err(ApiError::internal(Some("xyz".to_string())))
        );
    }
}

#[test]
fn bearer_of_a_fresh_token_is_its_user() {
    let (token, _) = jwt().encode(BOB).unwrap();
    assert_eq!(userinfo(&database(), &jwt(), &token), Ok(bob()));
}

#[test]
fn bearer_of_a_bad_token_is_turned_away() {
    let error = userinfo(&database(), &jwt(), "a.jwt.token").unwrap_err();
    assert_eq!(error.code, 401);
    assert_eq!(error.inner.error(), "invalid-bearer");
    assert_eq!(error.inner.error_description(), "Unable to decode bearer token.");
    assert_eq!(error.inner.state, None);
    let (expired, _) = jwt().encode_at(ALICE, 1000).unwrap();
    assert_eq!(
        userinfo(&database(), &jwt(), &expired),
        Err(ApiError::unauthorized(AuthorizationError::new(ErrorKind::InvalidBearer, None)))
    );
}

#[test]
fn bearer_who_is_not_in_the_directory() {
    let (token, _) = jwt().encode(NOBODY).unwrap();
    let error = userinfo(&database(), &jwt(), &token).unwrap_err();
    assert_eq!(error.code, 400);
    assert_eq!(error.inner.error(), "user-not-found");
    assert_eq!(error.inner.error_description(), "Unable to find user.");
    assert_eq!(error.inner.state, None);
}

#[test]
fn user_of_a_subject() {
    assert_eq!(user_of(&database(), Some(ALICE)), Ok(alice()));
    assert_eq!(
        user_of(&database(), Some(NOBODY)),
        Err(bad_request(ErrorKind::SubjectNotFound, None))
    );
    assert_eq!(
        user_of(&database(), None),
        Err(ApiError::unauthorized(AuthorizationError::new(ErrorKind::InvalidBearer, None)))
    );
}

#[test]
fn statuses_of_the_failures() {
    assert_eq!(BAD_REQUEST, 400);
    assert_eq!(UNAUTHORIZED, 401);
    assert_eq!(INTERNAL_SERVER_ERROR, 500);
    let inner = || AuthorizationError::new(ErrorKind::CodeNotFound, Some("xyz".to_string()));
    assert_eq!(ApiError::bad_request(inner()), ApiError { code: 400, inner: inner() });
    assert_eq!(ApiError::unauthorized(inner()), ApiError { code: 401, inner: inner() });
    assert_eq!(
        ApiError::internal(Some("xyz".to_string())),
        ApiError {
            code: 500,
            inner: AuthorizationError::new(ErrorKind::ServerError, Some("xyz".to_string())),
        }
    );
}

#[test]
fn login_page_links_every_user() {
    assert_eq!(
        login_page("xyz", &vec![alice(), bob()]),
        "<!DOCTYPE html><html><head><title>Authorization</title></head><body>\
         <p><a href=\"/api/redirect/xyz/550e8400-e29b-41d4-a716-446655440000\">Login as Alice</a></p>\
         <p><a href=\"/api/redirect/xyz/6ba7b810-9dad-11d1-80b4-00c04fd430c8\">Login as Bob</a></p>\
         </body></html>"
    );
}

#[test]
fn login_page_without_users() {
    assert_eq!(
        login_page("xyz", &Vec::new()),
        "<!DOCTYPE html><html><head><title>Authorization</title></head><body></body></html>"
    );
}

#[test]
fn bearer_at_a_given_time() {
    let (token, expiry) = jwt().encode_at(BOB, 1000).unwrap();
    assert_eq!(expiry, 4600);
    assert_eq!(userinfo_at(&database(), &jwt(), &token, Some(4660)), Ok(bob()));
    assert_eq!(
        userinfo_at(&database(), &jwt(), &token, Some(4661)),
        Err(ApiError::unauthorized(AuthorizationError::new(ErrorKind::InvalidBearer, None)))
    );
    assert_eq!(
        userinfo_at(&database(), &jwt(), &token, None),
        Err(ApiError::unauthorized(AuthorizationError::new(ErrorKind::InvalidBearer, None)))
    );
    let (stranger, _) = jwt().encode_at(NOBODY, 1000).unwrap();
    assert_eq!(
        userinfo_at(&database(), &jwt(), &stranger, Some(1000)),
        Err(bad_request(ErrorKind::SubjectNotFound, None))
    );
}

#[test]
fn exchanged_token_names_the_approver_until_it_expires() {
    let mut store = TransactionStore::default();
    begin(&oauth(), &mut store, request("xyz", "abc")).unwrap();
    approve(&database(), &mut store, "xyz".to_string(), BOB).unwrap();
    let response = exchange_at(
        &oauth(),
        &mut store,
        &jwt(),
        "client-id",
        "client-secret",
        &payload("abc"),
        1000,
    )
    .unwrap();
    assert_eq!(response.expires_at, 4600);
    assert_eq!(jwt().decode_at(&response.access_token, Some(1000)), Some(BOB));
    assert_eq!(jwt().decode_at(&response.access_token, Some(4660)), Some(BOB));
    assert_eq!(jwt().decode_at(&response.access_token, Some(4661)), None);
}
