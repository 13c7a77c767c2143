use vstd::prelude::*;

use crate::entity::authorization::{
    AuthorizationRequest, AuthorizationRequestView, AuthorizationResponse,
    AuthorizationResponseView,
};

verus! {

/// A transaction as the store holds it: a request that waits for approval, or a grant that
/// waits to be exchanged.
#[derive(Debug, PartialEq, Eq)]
pub enum Transaction {
    Requested(AuthorizationRequest),
    Approved(AuthorizationResponse),
}

/// What a `Transaction` holds, with its texts as sequences of characters.
pub enum TransactionView {
    Requested(AuthorizationRequestView),
    Approved(AuthorizationResponseView),
}

impl View for Transaction {
    type V = TransactionView;

    open spec fn view(&self) -> TransactionView {
        match self {
            Transaction::Requested(request) => TransactionView::Requested(request@),
            Transaction::Approved(grant) => TransactionView::Approved(grant@),
        }
    }
}

impl Clone for Transaction {
    fn clone(&self) -> (copy: Self)
        ensures
            copy == *self,
    {
        match self {
            Transaction::Requested(request) => Transaction::Requested(request.clone()),
            Transaction::Approved(grant) => Transaction::Approved(grant.clone()),
        }
    }
}

/// `moka::sync::Cache`, a concurrent cache with a bound on its size and on the age of its
/// entries. Nothing is known of a value of it but what `entries` names.
#[verifier::external_type_specification]
#[verifier::external_body]
#[verifier::reject_recursive_types(K)]
#[verifier::reject_recursive_types(V)]
#[verifier::reject_recursive_types(S)]
pub struct ExCache<K, V, S>(moka::sync::Cache<K, V, S>);

/// The entries that a cache may still hand out: each key with the value that was last
/// inserted under it and has not been removed since. Expiry and eviction are not recorded
/// here, so an entry of this map may have left the cache already.
pub uninterp spec fn entries(cache: moka::sync::Cache<String, Transaction>) -> Map<Seq<char>, TransactionView>;

/// The greatest number of entries that a cache was built to hold.
pub uninterp spec fn max_capacity_of(cache: moka::sync::Cache<String, Transaction>) -> u64;

/// The seconds for which a cache was built to keep an entry, counted from its insertion.
pub uninterp spec fn time_to_live_of(cache: moka::sync::Cache<String, Transaction>) -> u64;

/// The map without entries.
pub open spec fn no_entries() -> Map<Seq<char>, TransactionView> {
    Map::empty()
}

/// The longest time to live that a cache accepts: a thousand years of 365 days, in seconds.
pub const MAX_TIME_TO_LIVE: u64 = 31_536_000_000;

/// `moka::sync::Cache::builder`, with `max_capacity`, `time_to_live`, the eviction policy
/// `lru` and `build`: a cache that holds nothing yet and keeps the two limits that it is
/// built with. `build` panics on a time to live of more than a thousand years.
#[verifier::external_body]
fn cache_build(max_capacity: u64, time_to_live: u64) -> (built: moka::sync::Cache<String, Transaction>)
    requires
        time_to_live <= MAX_TIME_TO_LIVE,
    ensures
        entries(built) == no_entries(),
        max_capacity_of(built) == max_capacity,
        time_to_live_of(built) == time_to_live,
{
    moka::sync::Cache::builder()
        .max_capacity(max_capacity)
        .time_to_live(std::time::Duration::from_secs(time_to_live))
        .eviction_policy(moka::policy::EvictionPolicy::lru())
        .build()
}

/// `moka::sync::Cache::insert`: the value is the one that the key has from now on, in
/// place of whatever it had. The limits of the cache stay.
#[verifier::external_body]
fn cache_insert(cache: &mut moka::sync::Cache<String, Transaction>, key: String, value: Transaction)
    ensures
        entries(*final(cache)) == entries(*old(cache)).insert(key@, value@),
        max_capacity_of(*final(cache)) == max_capacity_of(*old(cache)),
        time_to_live_of(*final(cache)) == time_to_live_of(*old(cache)),
{
    cache.insert(key, value)
}

/// `moka::sync::Cache::contains_key`: true only for a key whose entry is in the cache and
/// has not expired, so only for a key that has an entry.
#[verifier::external_body]
fn cache_contains_key(cache: &moka::sync::Cache<String, Transaction>, key: &str) -> (live: bool)
    ensures
        live ==> entries(*cache).contains_key(key@),
{
    cache.contains_key(key)
}

/// `moka::sync::Cache::remove`: the key has no entry afterwards; what comes back, if
/// anything, is a clone of the value that the key had. It comes back whether or not the
/// entry had expired, as long as the cache had not dropped it. The limits of the cache
/// stay.
#[verifier::external_body]
fn cache_remove(cache: &mut moka::sync::Cache<String, Transaction>, key: &str) -> (removed: Option<Transaction>)
    ensures
        entries(*final(cache)) == entries(*old(cache)).remove(key@),
        removed matches Some(value) ==> entries(*old(cache)).contains_key(key@) && value@
            == entries(*old(cache))[key@],
        max_capacity_of(*final(cache)) == max_capacity_of(*old(cache)),
        time_to_live_of(*final(cache)) == time_to_live_of(*old(cache)),
{
    cache.remove(key)
}

/// How many entries a bucket holds where no limits are given.
pub const DEFAULT_MAX_CAPACITY: u64 = 100;

/// For how many seconds a bucket keeps an entry where no limits are given.
pub const DEFAULT_TIME_TO_LIVE: u64 = 120;

/// How many entries a bucket of the store may hold, and for how many seconds it keeps each.
#[derive(Clone, Copy, Debug, PartialEq, Eq, Structural)]
pub struct Limits {
    pub max_capacity: u64,
    pub time_to_live: u64,
}

impl Limits {
    /// True when a bucket can be built with these limits.
    pub open spec fn acceptable(self) -> bool {
        self.time_to_live <= MAX_TIME_TO_LIVE
    }

    /// The limits of a bucket where none are given.
    pub open spec fn standard() -> Limits {
        Limits { max_capacity: DEFAULT_MAX_CAPACITY, time_to_live: DEFAULT_TIME_TO_LIVE }
    }
}

impl Default for Limits {
    /// The limits of a bucket where none are given.
    fn default() -> (limits: Self)
        ensures
            limits == Limits::standard(),
    {
        Limits { max_capacity: DEFAULT_MAX_CAPACITY, time_to_live: DEFAULT_TIME_TO_LIVE }
    }
}

/// The store of the transactions in flight. It has two buckets: the requests that wait
/// for approval, each under its state, and the grants that wait to be exchanged, each under
/// its code challenge. An entry leaves its bucket when it is taken, when its time to live is
/// over, or when the bucket is full and makes room for a newer one: then the entry goes
/// that was used least recently.
pub struct TransactionStore {
    authorization_request: moka::sync::Cache<String, Transaction>,
    authorization_response: moka::sync::Cache<String, Transaction>,
}

/// What the store may still hand out: every request and grant that was put in and has not
/// been taken since. An entry of these maps may have expired or made room already; one that
/// is not in them is gone for good. With them stand the limits that each bucket was built
/// with.
pub struct TransactionStoreView {
    pub requests: Map<Seq<char>, AuthorizationRequestView>,
    pub grants: Map<Seq<char>, AuthorizationResponseView>,
    pub request_limits: Limits,
    pub grant_limits: Limits,
}

impl TransactionStoreView {
    /// The store that holds nothing, with the given limits for its requests and its
    /// grants.
    pub open spec fn empty(request_limits: Limits, grant_limits: Limits) -> Self {
        TransactionStoreView {
            requests: Map::empty(),
            grants: Map::empty(),
            request_limits,
            grant_limits,
        }
    }

    /// Every request stands under its own state, and every grant under its own code
    /// challenge.
    pub open spec fn keyed(self) -> bool {
        &&& forall|state: Seq<char>| #[trigger]
            self.requests.contains_key(state) ==> self.requests[state].state == state
        &&& forall|code: Seq<char>| #[trigger]
            self.grants.contains_key(code) ==> self.grants[code].code_challenge == code
    }

    /// The store once `request` has been put in.
    pub open spec fn with_request(self, request: AuthorizationRequestView) -> Self {
        TransactionStoreView { requests: self.requests.insert(request.state, request), ..self }
    }

    /// The store once the request under `state` has been taken out.
    pub open spec fn without_request(self, state: Seq<char>) -> Self {
        TransactionStoreView { requests: self.requests.remove(state), ..self }
    }

    /// The store once `grant` has been put in.
    pub open spec fn with_grant(self, grant: AuthorizationResponseView) -> Self {
        TransactionStoreView { grants: self.grants.insert(grant.code_challenge, grant), ..self }
    }

    /// The store once the grant under `code` has been taken out.
    pub open spec fn without_grant(self, code: Seq<char>) -> Self {
        TransactionStoreView { grants: self.grants.remove(code), ..self }
    }
}

/// The requests among the entries of a bucket.
spec fn requests_of(all: Map<Seq<char>, TransactionView>) -> Map<
    Seq<char>,
    AuthorizationRequestView,
> {
    Map::new(
        |key: Seq<char>| all.contains_key(key) && all[key] is Requested,
        |key: Seq<char>| all[key]->Requested_0,
    )
}

/// The grants among the entries of a bucket.
spec fn grants_of(all: Map<Seq<char>, TransactionView>) -> Map<
    Seq<char>,
    AuthorizationResponseView,
> {
    Map::new(
        |key: Seq<char>| all.contains_key(key) && all[key] is Approved,
        |key: Seq<char>| all[key]->Approved_0,
    )
}

impl View for TransactionStore {
    type V = TransactionStoreView;

    closed spec fn view(&self) -> TransactionStoreView {
        TransactionStoreView {
            requests: requests_of(entries(self.authorization_request)),
            grants: grants_of(entries(self.authorization_response)),
            request_limits: Limits {
                max_capacity: max_capacity_of(self.authorization_request),
                time_to_live: time_to_live_of(self.authorization_request),
            },
            grant_limits: Limits {
                max_capacity: max_capacity_of(self.authorization_response),
                time_to_live: time_to_live_of(self.authorization_response),
            },
        }
    }
}

/// What taking the request under `state` does: nothing stands under the state afterwards,
/// and what is handed out, if anything, is the request that stood there.
pub open spec fn request_taken(
    before: TransactionStoreView,
    state: Seq<char>,
    after: TransactionStoreView,
    taken: Option<AuthorizationRequest>,
) -> bool {
    &&& after == before.without_request(state)
    &&& (taken matches Some(request) ==> before.requests.contains_key(state)
        && before.requests[state] == request@)
}

/// What taking the grant under `code` does: nothing stands under the code afterwards, and
/// what is handed out, if anything, is the grant that stood there.
pub open spec fn grant_taken(
    before: TransactionStoreView,
    code: Seq<char>,
    after: TransactionStoreView,
    taken: Option<AuthorizationResponse>,
) -> bool {
    &&& after == before.without_grant(code)
    &&& (taken matches Some(grant) ==> before.grants.contains_key(code) && before.grants[code]
        == grant@)
}

/// What a taken request is, given what the bucket answered: the entry counts only if it
/// was alive when it was looked up, and only a request is handed out.
pub fn live_request(live: bool, removed: Option<Transaction>) -> (taken: Option<AuthorizationRequest>)
    ensures
        taken == match removed {
            Some(Transaction::Requested(request)) if live => Some(request),
            _ => None,
        },
{
    match removed {
        Some(Transaction::Requested(request)) => if live {
            Some(request)
        } else {
            None
        },
        _ => None,
    }
}

/// What a taken grant is, given what the bucket answered: the entry counts only if it was
/// alive when it was looked up, and only a grant is handed out.
pub fn live_grant(live: bool, removed: Option<Transaction>) -> (taken: Option<AuthorizationResponse>)
    ensures
        taken == match removed {
            Some(Transaction::Approved(grant)) if live => Some(grant),
            _ => None,
        },
{
    match removed {
        Some(Transaction::Approved(grant)) => if live {
            Some(grant)
        } else {
            None
        },
        _ => None,
    }
}

impl TransactionStore {
    /// A store with the given limits for its two buckets, holding nothing; `None` where a
    /// time to live is longer than `MAX_TIME_TO_LIVE`.
    pub fn new(requests: Limits, grants: Limits) -> (store: Option<Self>)
        ensures
            store is Some <==> requests.acceptable() && grants.acceptable(),
            store matches Some(store) ==> store@ == TransactionStoreView::empty(requests, grants),
            store matches Some(store) ==> store@.keyed(),
    {
        if requests.time_to_live > MAX_TIME_TO_LIVE || grants.time_to_live > MAX_TIME_TO_LIVE {
            return None;
        }
        let authorization_request = cache_build(requests.max_capacity, requests.time_to_live);
        let authorization_response = cache_build(grants.max_capacity, grants.time_to_live);
        let store = TransactionStore { authorization_request, authorization_response };
        assert(store@.requests =~= Map::empty());
        assert(store@.grants =~= Map::empty());
        Some(store)
    }

    /// Puts a request in, under its state, in place of whatever stood there.
    pub fn insert_authorization_request(&mut self, req: AuthorizationRequest)
        ensures
            final(self)@ == old(self)@.with_request(req@),
            old(self)@.keyed() ==> final(self)@.keyed(),
    {
        let key = req.state.clone();
        cache_insert(&mut self.authorization_request, key, Transaction::Requested(req));
        assert(self@.requests =~= old(self)@.requests.insert(req.state@, req@));
    }

    /// Takes the request under `state` out. It is handed over if it was still alive;
    /// whether or not, nothing stands under `state` afterwards.
    pub fn remove_authorization_request(&mut self, state: &str) -> (taken: Option<AuthorizationRequest>)
        ensures
            request_taken(old(self)@, state@, final(self)@, taken),
            old(self)@.keyed() ==> final(self)@.keyed(),
    {
        let live = cache_contains_key(&self.authorization_request, state);
        let removed = cache_remove(&mut self.authorization_request, state);
        assert(self@.requests =~= old(self)@.requests.remove(state@));
        live_request(live, removed)
    }

    /// Puts a grant in, under its code challenge, in place of whatever stood there.
    pub fn insert_authorization_response(&mut self, res: AuthorizationResponse)
        ensures
            final(self)@ == old(self)@.with_grant(res@),
            old(self)@.keyed() ==> final(self)@.keyed(),
    {
        let key = res.code_challenge.clone();
        cache_insert(&mut self.authorization_response, key, Transaction::Approved(res));
        assert(self@.grants =~= old(self)@.grants.insert(res.code_challenge@, res@));
    }

    /// Takes the grant under `code` out. It is handed over if it was still alive; whether
    /// or not, nothing stands under `code` afterwards.
    pub fn remove_authorization_response(&mut self, code: &str) -> (taken: Option<AuthorizationResponse>)
        ensures
            grant_taken(old(self)@, code@, final(self)@, taken),
            old(self)@.keyed() ==> final(self)@.keyed(),
    {
        let live = cache_contains_key(&self.authorization_response, code);
        let removed = cache_remove(&mut self.authorization_response, code);
        assert(self@.grants =~= old(self)@.grants.remove(code@));
        live_grant(live, removed)
    }
}

impl Default for TransactionStore {
    /// A store whose buckets hold up to `DEFAULT_MAX_CAPACITY` entries for
    /// `DEFAULT_TIME_TO_LIVE` seconds each.
    fn default() -> (store: Self)
        ensures
            store@ == TransactionStoreView::empty(Limits::standard(), Limits::standard()),
            store@.keyed(),
    {
        let authorization_request = cache_build(DEFAULT_MAX_CAPACITY, DEFAULT_TIME_TO_LIVE);
        let authorization_response = cache_build(DEFAULT_MAX_CAPACITY, DEFAULT_TIME_TO_LIVE);
        let store = TransactionStore { authorization_request, authorization_response };
        assert(store@.requests =~= Map::empty());
        assert(store@.grants =~= Map::empty());
        store
    }
}

} // verus!
