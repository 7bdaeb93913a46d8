//! Identity extraction: from the token a request carries to the principal.
//!
//! No store is consulted: the identity rests on a valid signature and an
//! unexpired claim alone.

use crate::clock::unix_seconds_now;
use crate::errors::ServiceError;
use crate::models::SlimUser;
use crate::token::{decode_token_at, decoded_identity, identity_view, jwt_claim};
use vstd::prelude::*;

verus! {

/// The principal of a request.
pub type LoggedUser = SlimUser;

/// What a carrier holds, as a mathematical value.
pub open spec fn carrier_view(carrier: Option<&str>) -> Option<Seq<char>> {
    match carrier {
        Some(token) => Some(token@),
        None => None,
    }
}

/// The identity that a request's carrier establishes at the instant `now`.
pub open spec fn extracted(carrier: Option<Seq<char>>, secret: Seq<char>, now: int) -> Result<
    Seq<char>,
    ServiceError,
> {
    match carrier {
        Some(token) => decoded_identity(token, secret, now),
        None => Err(ServiceError::Unauthorized),
    }
}

/// Recovers the principal from what the request carried, at the instant `now`.
/// A request that carries nothing is `Unauthorized`, and so is one whose token
/// does not decode at `now`.
pub fn extract_at(carrier: Option<&str>, secret: &str, now: i64) -> (r: Result<
    LoggedUser,
    ServiceError,
>)
    ensures
        identity_view(r) == extracted(carrier_view(carrier), secret@, now as int),
{
    match carrier {
        Some(token) => decode_token_at(token, secret, now),
        None => Err(ServiceError::Unauthorized),
    }
}

/// Recovers the principal from what the request carried, at the current time.
///
/// Whatever the clock read: a request without a token, or with one whose
/// signature does not hold or whose payload is malformed, is refused; a
/// refusal is always `Unauthorized`; an identity that comes back is the email
/// of the signed claim.
pub fn extract(carrier: Option<&str>, secret: &str) -> (r: Result<LoggedUser, ServiceError>)
    ensures
        carrier is None ==> r is Err,
        carrier matches Some(token) && jwt_claim(token@, secret@) is None ==> r is Err,
        r matches Err(e) ==> e == ServiceError::Unauthorized,
        r matches Ok(user) ==> (carrier matches Some(token) && jwt_claim(
            token@,
            secret@,
        ) matches Some(claim) && claim.email == user.email@),
{
    let now = unix_seconds_now();
    extract_at(carrier, secret, now)
}

/// No carrier, a carrier that is not a signed and well-formed claim, and a
/// carrier whose claim has expired are each `Unauthorized`; and extraction
/// fails in no other way.
pub proof fn extraction_fails_as_unauthorized(
    carrier: Option<Seq<char>>,
    secret: Seq<char>,
    now: int,
)
    ensures
        carrier is None ==> extracted(carrier, secret, now) == Err::<Seq<char>, ServiceError>(
            ServiceError::Unauthorized,
        ),
        carrier matches Some(token) && jwt_claim(token, secret) is None ==> extracted(
            carrier,
            secret,
            now,
        ) == Err::<Seq<char>, ServiceError>(ServiceError::Unauthorized),
        carrier matches Some(token) && jwt_claim(token, secret) matches Some(claim) && claim.exp
            <= now ==> extracted(carrier, secret, now) == Err::<Seq<char>, ServiceError>(
            ServiceError::Unauthorized,
        ),
        extracted(carrier, secret, now) is Err ==> extracted(carrier, secret, now) == Err::<
            Seq<char>,
            ServiceError,
        >(ServiceError::Unauthorized),
{
}

} // verus!
