//! The token codec: a signed, time-bounded identity claim as an opaque string.

use crate::clock::{unix_seconds_now, DAY_SECONDS};
use crate::errors::ServiceError;
use crate::models::SlimUser;
use vstd::prelude::*;

verus! {

/// The payload of an identity token. `iat` and `exp` count seconds since the
/// Unix epoch.
#[derive(Debug, Clone)]
pub struct Claim {
    pub iss: String,
    pub sub: String,
    pub iat: i64,
    pub exp: i64,
    pub email: String,
}

/// A claim as a mathematical value.
pub struct ClaimView {
    pub iss: Seq<char>,
    pub sub: Seq<char>,
    pub iat: int,
    pub exp: int,
    pub email: Seq<char>,
}

impl View for Claim {
    type V = ClaimView;

    open spec fn view(&self) -> ClaimView {
        ClaimView {
            iss: self.iss@,
            sub: self.sub@,
            iat: self.iat as int,
            exp: self.exp as int,
            email: self.email@,
        }
    }
}

/// The token that `jsonwebtoken::encode` produces for a claim under a secret,
/// with the default header; `None` where it reports an error.
pub uninterp spec fn jwt_token(claim: ClaimView, secret: Seq<char>) -> Option<Seq<char>>;

/// The claim that `jsonwebtoken::decode` reads from a token whose signature
/// holds under the secret, with expiry left unchecked; `None` where the
/// signature does not hold or the token is not a well-formed claim.
pub uninterp spec fn jwt_claim(token: Seq<char>, secret: Seq<char>) -> Option<ClaimView>;

/// Calls `jsonwebtoken::encode` with `Header::default()` (HMAC-SHA256) on the
/// claim's five fields and a key made of the secret's bytes. The token is the
/// encoded header, the encoded claim and the signature over both, so that
/// `jsonwebtoken::decode` under the same secret accepts it and reads the same
/// claim back.
#[verifier::external_body]
fn jwt_encode(claim: &Claim, secret: &str) -> (token: Option<String>)
    ensures
        token matches Some(t) ==> jwt_token(claim@, secret@) == Some(t@),
        token is None ==> jwt_token(claim@, secret@) is None,
        token matches Some(t) ==> jwt_claim(t@, secret@) == Some(claim@),
{
    let mut m = serde_json::Map::new();
    m.insert("iss".into(), claim.iss.clone().into());
    m.insert("sub".into(), claim.sub.clone().into());
    m.insert("iat".into(), claim.iat.into());
    m.insert("exp".into(), claim.exp.into());
    m.insert("email".into(), claim.email.clone().into());
    let key = jsonwebtoken::EncodingKey::from_secret(secret.as_bytes());
    jsonwebtoken::encode(&jsonwebtoken::Header::default(), &m, &key).ok()
}

/// Calls `jsonwebtoken::decode` for HMAC-SHA256 with a key made of the secret's
/// bytes. The signature is verified; the check of `exp` against the machine's
/// clock is switched off, so that the outcome depends on the token and the
/// secret alone. A payload that lacks one of the five fields, or holds one of
/// another type, is malformed.
#[verifier::external_body]
fn jwt_decode(token: &str, secret: &str) -> (claim: Option<Claim>)
    ensures
        claim matches Some(c) ==> jwt_claim(token@, secret@) == Some(c@),
        claim is None ==> jwt_claim(token@, secret@) is None,
{
    let mut v = jsonwebtoken::Validation::new(jsonwebtoken::Algorithm::HS256);
    v.validate_exp = false;
    v.required_spec_claims.clear();
    let key = jsonwebtoken::DecodingKey::from_secret(secret.as_bytes());
    let c = jsonwebtoken::decode::<serde_json::Value>(token, &key, &v).ok()?.claims;
    Some(Claim {
        iss: c.get("iss")?.as_str()?.to_owned(),
        sub: c.get("sub")?.as_str()?.to_owned(),
        iat: c.get("iat")?.as_i64()?,
        exp: c.get("exp")?.as_i64()?,
        email: c.get("email")?.as_str()?.to_owned(),
    })
}

/// The claim issued for `email` at the instant `now`: it expires one day later.
pub open spec fn claim_for(email: Seq<char>, now: int) -> ClaimView {
    ClaimView { iss: "localhost"@, sub: "auth"@, iat: now, exp: now + DAY_SECONDS, email }
}

/// The token is one that was issued for `email`: under the secret it reads
/// as the claim issued for that email at some instant.
pub open spec fn issued_for(token: Seq<char>, secret: Seq<char>, email: Seq<char>) -> bool {
    jwt_claim(token, secret) matches Some(claim) && claim == claim_for(email, claim.iat)
}

/// A claim is live strictly before its expiry.
pub open spec fn claim_is_live(claim: ClaimView, now: int) -> bool {
    now < claim.exp
}

/// What decoding yields at the instant `now`, given what the signature check
/// read from the token: the email of a live claim, or `Unauthorized`.
pub open spec fn identity_of(decoded: Option<ClaimView>, now: int) -> Result<Seq<char>, ServiceError> {
    match decoded {
        Some(claim) => if claim_is_live(claim, now) {
            Ok(claim.email)
        } else {
            Err(ServiceError::Unauthorized)
        },
        None => Err(ServiceError::Unauthorized),
    }
}

/// What `decode_token_at` returns for a token, a secret and an instant.
pub open spec fn decoded_identity(token: Seq<char>, secret: Seq<char>, now: int) -> Result<
    Seq<char>,
    ServiceError,
> {
    identity_of(jwt_claim(token, secret), now)
}

/// An identity, or the error in its place, as a mathematical value.
pub open spec fn identity_view(r: Result<SlimUser, ServiceError>) -> Result<Seq<char>, ServiceError> {
    match r {
        Ok(user) => Ok(user.email@),
        Err(e) => Err(e),
    }
}

/// What a configuration holds under a key, as a mathematical value.
pub open spec fn owned_setting_view(configured: Option<String>) -> Option<Seq<char>> {
    match configured {
        Some(text) => Some(text@),
        None => None,
    }
}

/// The signing secret as the configuration holds it. It is mandatory and has
/// no fallback: where it is unset there is none, and startup cannot go on.
pub fn get_secret(configured: Option<String>) -> (secret: Option<String>)
    ensures
        owned_setting_view(secret) == owned_setting_view(configured),
{
    match configured {
        Some(secret) => Some(secret),
        None => None,
    }
}

impl Claim {
    /// The claim issued for `email` at the instant `now`.
    pub fn with_email(email: &str, now: i64) -> (claim: Claim)
        requires
            now + DAY_SECONDS <= i64::MAX,
        ensures
            claim@ == claim_for(email@, now as int),
    {
        Claim {
            iss: "localhost".to_owned(),
            sub: "auth".to_owned(),
            email: email.to_owned(),
            iat: now,
            exp: now + DAY_SECONDS,
        }
    }

    /// Whether the claim is still valid at the instant `now`.
    pub fn is_live_at(&self, now: i64) -> (live: bool)
        ensures
            live == claim_is_live(self@, now as int),
    {
        now < self.exp
    }
}

/// The identity that a claim asserts.
impl From<Claim> for SlimUser {
    fn from(claim: Claim) -> (user: SlimUser) {
        SlimUser { email: claim.email }
    }
}

impl vstd::std_specs::convert::FromSpecImpl<Claim> for SlimUser {
    open spec fn obeys_from_spec() -> bool {
        true
    }

    open spec fn from_spec(claim: Claim) -> SlimUser {
        SlimUser { email: claim.email }
    }
}

/// What a signing attempt becomes at the service boundary.
pub fn signed_or_internal(signed: Option<String>) -> (r: Result<String, ServiceError>)
    ensures
        match signed {
            Some(t) => r == Ok::<String, ServiceError>(t),
            None => r == Err::<String, ServiceError>(ServiceError::InternalError),
        },
{
    match signed {
        Some(t) => Ok(t),
        None => Err(ServiceError::InternalError),
    }
}

/// What `create_token_at` returns: the signed form of the claim issued at
/// `now`, or an internal error where the expiry cannot be written or the
/// signer fails.
pub open spec fn issued_token(email: Seq<char>, secret: Seq<char>, now: int) -> Result<
    Seq<char>,
    ServiceError,
> {
    if now + DAY_SECONDS <= i64::MAX {
        match jwt_token(claim_for(email, now), secret) {
            Some(token) => Ok(token),
            None => Err(ServiceError::InternalError),
        }
    } else {
        Err(ServiceError::InternalError)
    }
}

/// A token, or the error in its place, as a mathematical value.
pub open spec fn token_view(r: Result<String, ServiceError>) -> Result<Seq<char>, ServiceError> {
    match r {
        Ok(token) => Ok(token@),
        Err(e) => Err(e),
    }
}

/// Issues the token for an identity at the instant `now`.
///
/// The token is the signed form of `claim_for(email, now)`. An instant so
/// late that the expiry cannot be written, or a signing failure, is an
/// internal error. A token that was issued decodes, under the same secret, to
/// that very claim.
pub fn create_token_at(data: &SlimUser, secret: &str, now: i64) -> (r: Result<String, ServiceError>)
    ensures
        token_view(r) == issued_token(data.email@, secret@, now as int),
        r matches Ok(token) ==> jwt_claim(token@, secret@) == Some(
            claim_for(data.email@, now as int),
        ),
{
    if now > i64::MAX - DAY_SECONDS {
        Err(ServiceError::InternalError)
    } else {
        let claim = Claim::with_email(data.email.as_str(), now);
        signed_or_internal(jwt_encode(&claim, secret))
    }
}

/// Issues the token for an identity at the current time.
///
/// Whatever the clock read, a token that comes back carries the identity's
/// email and expires one day after it was issued, and a failure is an
/// internal error.
pub fn create_token(data: &SlimUser, secret: &str) -> (r: Result<String, ServiceError>)
    ensures
        r matches Ok(token) ==> issued_for(token@, secret@, data.email@),
        r matches Err(e) ==> e == ServiceError::InternalError,
{
    let now = unix_seconds_now();
    create_token_at(data, secret, now)
}

/// The identity that a decoded claim yields at the instant `now`:
/// a claim that is missing or no longer live is refused.
pub fn claim_identity(decoded: Option<Claim>, now: i64) -> (r: Result<SlimUser, ServiceError>)
    ensures
        identity_view(r) == identity_of(
            match decoded {
                Some(c) => Some(c@),
                None => None,
            },
            now as int,
        ),
{
    match decoded {
        Some(claim) => {
            if claim.is_live_at(now) {
                Ok(SlimUser::from(claim))
            } else {
                Err(ServiceError::Unauthorized)
            }
        },
        None => Err(ServiceError::Unauthorized),
    }
}

/// Decodes a token at the instant `now`: the signature must hold under the
/// secret, the payload must be a well-formed claim, and `now` must lie strictly
/// before the claim's expiry. Anything else is `Unauthorized`.
pub fn decode_token_at(token: &str, secret: &str, now: i64) -> (r: Result<SlimUser, ServiceError>)
    ensures
        identity_view(r) == decoded_identity(token@, secret@, now as int),
{
    claim_identity(jwt_decode(token, secret), now)
}

/// Decodes a token at the current time.
///
/// Whatever the clock read: a token whose signature does not hold or whose
/// payload is malformed is refused, a refusal is always `Unauthorized`, and an
/// identity that comes back is the email of the signed claim.
pub fn decode_token(token: &str, secret: &str) -> (r: Result<SlimUser, ServiceError>)
    ensures
        jwt_claim(token@, secret@) is None ==> r is Err,
        r matches Err(e) ==> e == ServiceError::Unauthorized,
        r matches Ok(user) ==> (jwt_claim(token@, secret@) matches Some(claim) && claim.email
            == user.email@),
{
    let now = unix_seconds_now();
    decode_token_at(token, secret, now)
}

/// A signed claim decodes to its email at every instant strictly before its
/// expiry, and is refused as `Unauthorized` at the expiry and ever after.
pub proof fn decoding_respects_expiry(token: Seq<char>, secret: Seq<char>, claim: ClaimView, now: int)
    requires
        jwt_claim(token, secret) == Some(claim),
    ensures
        now < claim.exp ==> decoded_identity(token, secret, now) == Ok::<Seq<char>, ServiceError>(
            claim.email,
        ),
        now >= claim.exp ==> decoded_identity(token, secret, now) == Err::<
            Seq<char>,
            ServiceError,
        >(ServiceError::Unauthorized),
{
}

/// A token issued at `issued` lives for exactly one day: decoding it yields
/// the email it was issued for at `now` iff `now` is less than a day later.
pub proof fn issued_token_lifetime(
    token: Seq<char>,
    secret: Seq<char>,
    email: Seq<char>,
    issued: int,
    now: int,
)
    requires
        jwt_claim(token, secret) == Some(claim_for(email, issued)),
    ensures
        now < issued + DAY_SECONDS ==> decoded_identity(token, secret, now) == Ok::<
            Seq<char>,
            ServiceError,
        >(email),
        now >= issued + DAY_SECONDS ==> decoded_identity(token, secret, now) == Err::<
            Seq<char>,
            ServiceError,
        >(ServiceError::Unauthorized),
{
}

} // verus!
