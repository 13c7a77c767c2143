use vstd::prelude::*;
use vstd::string::StringExecFns;

use crate::entity::authorization::{
    AuthorizationError, AuthorizationRequest, AuthorizationRequestView,
};
use crate::entity::identifier::{hyphenated, uuid_text};
use crate::entity::user::User;
use crate::service::cache::{TransactionStore, TransactionStoreView};
use crate::service::oauth::{reports, ConfigView, Oauth};

verus! {

/// What beginning a transaction does: the request is held against the registered client;
/// where it passes, it is stored under its state, and where it fails, the store stays as
/// it was and the failure is reported.
pub open spec fn began(
    client: ConfigView,
    before: TransactionStoreView,
    request: AuthorizationRequestView,
    after: TransactionStoreView,
    outcome: Result<(), AuthorizationError>,
) -> bool {
    &&& reports(outcome, client.request_error(request))
    &&& after == if client.request_error(request) is None {
        before.with_request(request)
    } else {
        before
    }
}

/// Begins a transaction: validates the request of a client and stores it until a user
/// approves it.
pub fn begin(oauth: &Oauth, cache: &mut TransactionStore, request: AuthorizationRequest) -> (outcome: Result<(), AuthorizationError>)
    ensures
        began(oauth@, old(cache)@, request@, final(cache)@, outcome),
        old(cache)@.keyed() ==> final(cache)@.keyed(),
{
    match oauth.check(&request) {
        Ok(_) => {
            cache.insert_authorization_request(request);
            Ok(())
        },
        Err(error) => Err(error),
    }
}

/// The link by which `user` approves the request that stands under `state`.
pub open spec fn login_link(state: Seq<char>, user: User) -> Seq<char> {
    "<p><a href=\"/api/redirect/"@ + state + "/"@ + hyphenated(user.id) + "\">Login as "@
        + user.name@ + "</a></p>"@
}

/// The links of `users`, one after the other.
pub open spec fn login_links(state: Seq<char>, users: Seq<User>) -> Seq<char>
    decreases users.len(),
{
    if users.len() == 0 {
        Seq::empty()
    } else {
        login_links(state, users.drop_last()) + login_link(state, users.last())
    }
}

/// The page on which a person picks the user who approves the request under `state`: a
/// document whose body holds the link of each user, in the order of `users`.
pub open spec fn login_page_text(state: Seq<char>, users: Seq<User>) -> Seq<char> {
    "<!DOCTYPE html><html><head><title>Authorization</title></head><body>"@ + login_links(
        state,
        users,
    ) + "</body></html>"@
}

/// Writes the page on which a person picks the user who approves the request under
/// `state`.
pub fn login_page(state: &str, users: &Vec<User>) -> (page: String)
    ensures
        page@ == login_page_text(state@, users@),
{
    let mut page = "<!DOCTYPE html><html><head><title>Authorization</title></head><body>".to_owned();
    let ghost head = page@;
    let mut done: usize = 0;
    while done < users.len()
        invariant
            done <= users.len(),
            page@ == head + login_links(state@, users@.subrange(0, done as int)),
        decreases users.len() - done,
    {
        let user = &users[done];
        let id = uuid_text(user.id);
        proof {
            let before = users@.subrange(0, done as int);
            let after = users@.subrange(0, done + 1);
            assert(after.drop_last() == before);
            assert(after.last() == users@[done as int]);
            assert(login_links(state@, after) == login_links(state@, before) + login_link(
                state@,
                users@[done as int],
            ));
        }
        let ghost so_far = page@;
        page.append("<p><a href=\"/api/redirect/");
        page.append(state);
        page.append("/");
        page.append(id.as_str());
        page.append("\">Login as ");
        page.append(user.name.as_str());
        page.append("</a></p>");
        assert(page@ =~= so_far + login_link(state@, users@[done as int]));
        assert(page@ =~= head + login_links(state@, users@.subrange(0, done + 1)));
        done = done + 1;
    }
    assert(users@.subrange(0, done as int) == users@);
    page.append("</body></html>");
    page
}

} // verus!
