use vstd::prelude::*;
use vstd::std_specs::convert::FromSpecImpl;

use crate::entity::identifier::{hyphenated, parse_uuid, reads_back, uuid_text, uuid_value};

verus! {

/// `jsonwebtoken::errors::Error`, the error of `jsonwebtoken`. Nothing is known of a value
/// of it.
#[verifier::external_type_specification]
#[verifier::external_body]
pub struct ExTokenError(jsonwebtoken::errors::Error);

/// The token that `jsonwebtoken` signs with HS512 and the key `secret` for the claims
/// `exp`, the expiry in seconds since the Unix epoch, and `sub`, the subject; `None` where
/// it reports an error.
pub uninterp spec fn signed_token(secret: Seq<char>, subject: Seq<char>, expiry: u64) -> Option<Seq<char>>;

/// The claims that `jsonwebtoken` reads from a token with HS512 and the key `secret`,
/// leaving the expiry unjudged: the claim `exp`, where it is a whole number that a `u64`
/// holds, and the claim `sub`, where it is a text. `None` for a token that it refuses, for
/// instance one that is no token, that does not bear the signature of the key, or that
/// lacks an expiry.
pub uninterp spec fn signed_claims(secret: Seq<char>, token: Seq<char>) -> Option<(Option<u64>, Option<Seq<char>>)>;

/// `jsonwebtoken::encode`, with the header of HS512, the two claims `exp` and `sub`, and
/// the bytes of `secret` as the key. What it signs, `jsonwebtoken::decode` reads with the
/// same key: the signature is the one that `decode` computes again, and the payload holds
/// the two claims as they were given.
#[verifier::external_body]
fn sign_claims(secret: &str, subject: &str, expiry: u64) -> (signed: Result<String, jsonwebtoken::errors::Error>)
    ensures
        match signed {
            Ok(token) => signed_token(secret@, subject@, expiry) == Some(token@),
            Err(_) => signed_token(secret@, subject@, expiry) is None,
        },
        signed matches Ok(token) ==> signed_claims(secret@, token@) == Some(
            (Some(expiry), Some(subject@)),
        ),
{
    let mut claims = serde_json::Map::new();
    claims.insert("exp".to_owned(), serde_json::Value::from(expiry));
    claims.insert("sub".to_owned(), serde_json::Value::from(subject));
    jsonwebtoken::encode(
        &jsonwebtoken::Header::new(jsonwebtoken::Algorithm::HS512),
        &claims,
        &jsonwebtoken::EncodingKey::from_secret(secret.as_bytes()),
    )
}

/// The claims that a verification read, with the subject as a sequence of characters;
/// `None` where the token was refused.
pub open spec fn read_claims(verified: Result<(Option<u64>, Option<String>), jsonwebtoken::errors::Error>) -> Option<(Option<u64>, Option<Seq<char>>)> {
    match verified {
        Ok((expiry, Some(subject))) => Some((expiry, Some(subject@))),
        Ok((expiry, None)) => Some((expiry, None)),
        Err(_) => None,
    }
}

/// `jsonwebtoken::decode`, with the bytes of `secret` as the key and the validation that
/// `Validation::new` gives for HS512, but for `validate_exp`, which is off: the signature is
/// held against the key and an expiry has to be there, but the clock is not read. Of what
/// it accepts, the claims `exp` and `sub` are handed out.
#[verifier::external_body]
fn verify_claims(secret: &str, token: &str) -> (verified: Result<(Option<u64>, Option<String>), jsonwebtoken::errors::Error>)
    ensures
        signed_claims(secret@, token@) == read_claims(verified),
{
    let key = jsonwebtoken::DecodingKey::from_secret(secret.as_bytes());
    let mut validation = jsonwebtoken::Validation::new(jsonwebtoken::Algorithm::HS512);
    validation.validate_exp = false;
    let data = jsonwebtoken::decode::<serde_json::Value>(token, &key, &validation)?;
    let expiry = data.claims.get("exp").and_then(|expiry| expiry.as_u64());
    let subject = data.claims.get("sub").and_then(|subject| subject.as_str());
    Ok((expiry, subject.map(|subject| subject.to_owned())))
}

/// `std::time::SystemTime::now`, in whole seconds since the Unix epoch; `None` where the
/// clock stands before the epoch.
#[verifier::external_body]
fn unix_time() -> (now: Option<u64>)
{
    std::time::SystemTime::now()
        .duration_since(std::time::UNIX_EPOCH)
        .ok()
        .map(|since| since.as_secs())
}

/// How tokens are signed: the secret of the key, and for how many seconds a token is
/// valid, one hour where nothing is given.
#[derive(Debug, PartialEq, Eq)]
pub struct Config {
    pub duration: Option<u64>,
    pub secret: String,
}

/// The seconds for which a token is still taken after its expiry, to allow for clocks that
/// differ.
pub const LEEWAY: u64 = 60;

/// True when a token that expires at `expiry` is still taken at `now`, both in seconds
/// since the Unix epoch: until `LEEWAY` seconds after the expiry.
pub open spec fn in_time(expiry: u64, now: u64) -> bool {
    now <= expiry + LEEWAY
}

/// The subject text of a token that is accepted, given the claims that were read from it
/// and what the clock says: the token has to be signed, to hold an expiry and a subject,
/// and to be in time. `now` is `None` where the clock has no time to give.
pub open spec fn accepted_subject(
    claims: Option<(Option<u64>, Option<Seq<char>>)>,
    now: Option<u64>,
) -> Option<Seq<char>> {
    match (claims, now) {
        (Some((Some(expiry), Some(subject))), Some(now)) => if in_time(expiry, now) {
            Some(subject)
        } else {
            None
        },
        _ => None,
    }
}

/// True when `subject` is the user that an accepted subject text names: the identifier that
/// `uuid` reads from the text, which for the text of a UUID is the identifier of that
/// UUID; nobody where no text is accepted.
pub open spec fn names(accepted: Option<Seq<char>>, subject: Option<u128>) -> bool {
    match accepted {
        Some(text) => subject == uuid_value(text) && reads_back(text, subject),
        None => subject is None,
    }
}

/// The seconds for which a token is valid where the configuration gives none.
pub const DEFAULT_DURATION: u64 = 3600;

/// The claims of a token: its subject, the identifier of a user, and its expiry in seconds
/// since the Unix epoch.
#[derive(Clone, Copy, Debug, PartialEq, Eq, Structural)]
pub struct JsonWebTokenClaim {
    pub exp: u64,
    pub sub: u128,
}

impl JsonWebTokenClaim {
    /// The claims of a token for `user_id` that expires at `expiration`.
    pub fn new(user_id: u128, expiration: u64) -> (claim: Self)
        ensures
            claim.exp == expiration,
            claim.sub == user_id,
    {
        Self { exp: expiration, sub: user_id }
    }
}

/// Why no token was issued.
#[derive(Clone, Copy, Debug, PartialEq, Eq, Structural)]
pub enum TokenError {
    /// The clock stands before the Unix epoch.
    Clock,
    /// The expiry would lie beyond the last second that a `u64` can hold.
    Expiry,
    /// The claims could not be signed.
    Signature,
}

/// The signer of identity tokens. Nothing changes it once it is made.
pub struct JsonWebToken {
    duration: u64,
    secret: String,
}

/// What a signer works with: the seconds for which its tokens are valid, and its secret.
pub struct JsonWebTokenView {
    pub duration: u64,
    pub secret: Seq<char>,
}

impl JsonWebTokenView {
    /// The expiry of a token that is issued at `now`, where a `u64` can hold it.
    pub open spec fn expiry(self, now: u64) -> Option<u64> {
        if now + self.duration <= u64::MAX {
            Some((now + self.duration) as u64)
        } else {
            None
        }
    }

    /// What issuing a token for `user_id` gives when the clock says `now`: the token
    /// signed for the user's UUID and the expiry, together with that expiry. `now` is
    /// `None` where the clock has no time to give.
    pub open spec fn issued(self, user_id: u128, now: Option<u64>) -> Result<(Seq<char>, u64), TokenError> {
        match now {
            Some(now) => match self.expiry(now) {
                Some(expiry) => match signed_token(self.secret, hyphenated(user_id), expiry) {
                    Some(token) => Ok((token, expiry)),
                    None => Err(TokenError::Signature),
                },
                None => Err(TokenError::Expiry),
            },
            None => Err(TokenError::Clock),
        }
    }

    /// True when `token` is read, with the signer's secret, as a token for `user_id` that
    /// expires at `expiry`.
    pub open spec fn reads(self, token: Seq<char>, user_id: u128, expiry: u64) -> bool {
        signed_claims(self.secret, token) == Some((Some(expiry), Some(hyphenated(user_id))))
    }

    /// True when `subject` is the user that `token` names for this signer when the clock
    /// says `now`.
    pub open spec fn decodes(self, token: Seq<char>, now: Option<u64>, subject: Option<u128>) -> bool {
        names(accepted_subject(signed_claims(self.secret, token), now), subject)
    }
}

/// True when `outcome` is what `expected` says, text for text.
pub open spec fn issues(
    outcome: Result<(String, u64), TokenError>,
    expected: Result<(Seq<char>, u64), TokenError>,
) -> bool {
    match outcome {
        Ok((token, expiry)) => expected == Ok::<(Seq<char>, u64), TokenError>((token@, expiry)),
        Err(error) => expected == Err::<(Seq<char>, u64), TokenError>(error),
    }
}

impl View for JsonWebToken {
    type V = JsonWebTokenView;

    closed spec fn view(&self) -> JsonWebTokenView {
        JsonWebTokenView { duration: self.duration, secret: self.secret@ }
    }
}

impl From<Config> for JsonWebToken {
    /// The signer with the secret of `value` and its lifetime, or that of one hour.
    fn from(value: Config) -> (signer: Self)
        ensures
            signer@.secret == value.secret@,
            signer@.duration == match value.duration {
                Some(duration) => duration,
                None => DEFAULT_DURATION,
            },
    {
        let duration = match value.duration {
            Some(duration) => duration,
            None => DEFAULT_DURATION,
        };
        JsonWebToken { duration, secret: value.secret }
    }
}

impl FromSpecImpl<Config> for JsonWebToken {
    open spec fn obeys_from_spec() -> bool {
        true
    }

    closed spec fn from_spec(value: Config) -> JsonWebToken {
        JsonWebToken {
            duration: match value.duration {
                Some(duration) => duration,
                None => DEFAULT_DURATION,
            },
            secret: value.secret,
        }
    }
}

/// The user that a token names, given the claims that the verification read from it and
/// what the clock says.
pub fn verified_subject(verified: Result<(Option<u64>, Option<String>), jsonwebtoken::errors::Error>, now: Option<u64>) -> (subject: Option<u128>)
    ensures
        names(accepted_subject(read_claims(verified), now), subject),
{
    match (verified, now) {
        (Ok((Some(expiry), Some(text))), Some(now)) => {
            let timely = match expiry.checked_add(LEEWAY) {
                Some(last) => now <= last,
                None => true,
            };
            if timely {
                parse_uuid(text.as_str())
            } else {
                None
            }
        },
        _ => None,
    }
}

impl JsonWebToken {
    /// The seconds for which a token of this signer is valid.
    pub fn duration(&self) -> (duration: u64)
        ensures
            duration == self@.duration,
    {
        self.duration
    }

    /// Issues a token for `user_id` as of `now`, in seconds since the Unix epoch, and
    /// says when it expires.
    pub fn encode_at(&self, user_id: u128, now: u64) -> (outcome: Result<(String, u64), TokenError>)
        ensures
            issues(outcome, self@.issued(user_id, Some(now))),
            outcome matches Ok((token, expiry)) ==> self@.reads(token@, user_id, expiry),
    {
        let expiration = match now.checked_add(self.duration) {
            Some(expiration) => expiration,
            None => { return Err(TokenError::Expiry); },
        };
        let claim = JsonWebTokenClaim::new(user_id, expiration);
        let subject = uuid_text(claim.sub);
        match sign_claims(self.secret.as_str(), subject.as_str(), claim.exp) {
            Ok(token) => Ok((token, expiration)),
            Err(_) => Err(TokenError::Signature),
        }
    }

    /// Issues a token for `user_id` as of the clock's time, and says when it expires.
    pub fn encode(&self, user_id: u128) -> (outcome: Result<(String, u64), TokenError>)
        ensures
            exists|now: Option<u64>| issues(outcome, #[trigger] self@.issued(user_id, now)),
            outcome matches Ok((token, expiry)) ==> self@.reads(token@, user_id, expiry),
    {
        let now = unix_time();
        let outcome = match now {
            Some(now) => self.encode_at(user_id, now),
            None => Err(TokenError::Clock),
        };
        assert(issues(outcome, self@.issued(user_id, now)));
        outcome
    }

    /// The user that `token` names when the clock says `now`, in seconds since the Unix
    /// epoch: the token has to bear this signer's signature and to be in time, and its
    /// subject has to be the text of a UUID. `now` is `None` where the clock has no time
    /// to give; then no token names anybody.
    pub fn decode_at(&self, token: &str, now: Option<u64>) -> (subject: Option<u128>)
        ensures
            self@.decodes(token@, now, subject),
    {
        verified_subject(verify_claims(self.secret.as_str(), token), now)
    }

    /// The user that `token` names as of the clock's time.
    pub fn decode(&self, token: &str) -> (subject: Option<u128>)
        ensures
            exists|now: Option<u64>| #[trigger] self@.decodes(token@, now, subject),
    {
        let now = unix_time();
        let subject = self.decode_at(token, now);
        assert(self@.decodes(token@, now, subject));
        subject
    }
}

} // verus!
