//! The registration service: an invitation and a password become a user.
//!
//! The store is asked twice, for the invitation and to insert the user; the
//! decisions before, between and after those two round trips are made here.
//! An invitation is not marked as used: it can be redeemed again until it
//! expires, and a second redemption fails at the store as a conflict.

use crate::errors::{ServiceError, StoreError};
use crate::invitation::redeemable_at;
use crate::models::{Invitation, RegisterUser, SlimUser, User};
use crate::password::{hash_password, password_matches, MAX_COST, MIN_COST};
use crate::token::identity_view;
use vstd::prelude::*;

verus! {

/// The identifier that `uuid::Uuid::parse_str` reads from a text, as the
/// integer that `Uuid::as_u128` gives; `None` where it reports an error.
pub uninterp spec fn uuid_of(text: Seq<char>) -> Option<u128>;

/// Calls `uuid::Uuid::parse_str`, which accepts the hyphenated, simple, braced
/// and URN forms of an identifier, and hands the identifier on as the integer
/// that `Uuid::as_u128` gives. A text in none of these forms comes back as
/// `None`.
#[verifier::external_body]
fn parse_uuid(text: &str) -> (id: Option<u128>)
    ensures
        id == uuid_of(text@),
{
    uuid::Uuid::parse_str(text).ok().map(|u| u.as_u128())
}

/// What a parsed identifier becomes: a malformed one is an invalid invitation.
pub open spec fn spec_invitation_id(parsed: Option<u128>) -> Result<u128, ServiceError> {
    match parsed {
        Some(id) => Ok(id),
        None => Err(ServiceError::InvalidInvitation),
    }
}

/// The invitation to redeem among the rows that the store returned for an
/// identifier: the last one, where it has not expired at `now`.
pub open spec fn live_invitation(found: Seq<Invitation>, now: int) -> Option<Invitation> {
    if found.len() > 0 && redeemable_at(found.last(), now) {
        Some(found.last())
    } else {
        None
    }
}

/// What a store's answer to the insert of a user becomes for the caller.
pub open spec fn spec_registered(outcome: Result<User, StoreError>) -> Result<
    Seq<char>,
    ServiceError,
> {
    match outcome {
        Ok(user) => Ok(user.email@),
        Err(e) => Err(ServiceError::spec_from_store(e)),
    }
}

/// Reads the outcome of parsing an invitation's identifier.
pub fn invitation_id_from(parsed: Option<u128>) -> (r: Result<u128, ServiceError>)
    ensures
        r == spec_invitation_id(parsed),
{
    match parsed {
        Some(id) => Ok(id),
        None => Err(ServiceError::InvalidInvitation),
    }
}

/// First step: the identifier to look up, or `InvalidInvitation` where the
/// request's text is not an identifier.
pub fn parse_invitation_id(msg: &RegisterUser) -> (r: Result<u128, ServiceError>)
    ensures
        r == spec_invitation_id(uuid_of(msg.invitation_id@)),
{
    invitation_id_from(parse_uuid(msg.invitation_id.as_str()))
}

/// What the store's answer to the lookup of an invitation becomes: a lookup
/// that failed is a failure of the store, and says nothing of the invitation.
pub fn found_invitations(outcome: Result<Vec<Invitation>, StoreError>) -> (r: Result<
    Vec<Invitation>,
    ServiceError,
>)
    ensures
        match outcome {
            Ok(rows) => r == Ok::<Vec<Invitation>, ServiceError>(rows),
            Err(e) => r == Err::<Vec<Invitation>, ServiceError>(ServiceError::spec_from_store(e)),
        },
{
    match outcome {
        Ok(rows) => Ok(rows),
        Err(e) => Err(ServiceError::from_store(e)),
    }
}

/// Picks the invitation to redeem from the rows found. An unknown identifier
/// and an expired invitation give the same error, so that a caller cannot
/// learn whether an invitation ever existed.
pub fn select_invitation(found: Vec<Invitation>, now: i64) -> (r: Result<Invitation, ServiceError>)
    ensures
        match live_invitation(found@, now as int) {
            Some(invitation) => r == Ok::<Invitation, ServiceError>(invitation),
            None => r == Err::<Invitation, ServiceError>(ServiceError::InvalidInvitation),
        },
{
    let mut rows = found;
    match rows.pop() {
        Some(invitation) => {
            if invitation.is_redeemable_at(now) {
                Ok(invitation)
            } else {
                Err(ServiceError::InvalidInvitation)
            }
        },
        None => Err(ServiceError::InvalidInvitation),
    }
}

/// The user to insert for an invitation, once the password has been hashed:
/// bound to the invitation's email, created at `now`. A hashing failure is
/// passed on.
pub fn user_for(invitation: Invitation, hashed: Result<String, ServiceError>, now: i64) -> (r:
    Result<User, ServiceError>)
    ensures
        match hashed {
            Ok(credential) => r matches Ok(user) && user.email == invitation.email && user.password
                == credential && user.created_at == now,
            Err(e) => r matches Err(kind) && kind == e,
        },
{
    match hashed {
        Ok(credential) => Ok(User::from_details(invitation.email, credential, now)),
        Err(e) => Err(e),
    }
}

/// Second step: from the rows that the store found for the identifier, the
/// user to insert.
///
/// Without a live invitation the answer is `InvalidInvitation`, and the
/// password is not hashed. With one, the user carries the invitation's email
/// and a credential against which the submitted password verifies; the only
/// other outcome is an internal error of the hasher, which is certain for a
/// work factor that it does not accept.
pub fn prepare_user(found: Vec<Invitation>, msg: &RegisterUser, cost: u32, now: i64) -> (r: Result<
    User,
    ServiceError,
>)
    ensures
        match live_invitation(found@, now as int) {
            None => r matches Err(e) && e == ServiceError::InvalidInvitation,
            Some(invitation) => match r {
                Ok(user) => user.email == invitation.email && user.created_at == now
                    && password_matches(msg.password@, user.password@) && MIN_COST <= cost
                    <= MAX_COST,
                Err(e) => e == ServiceError::InternalError,
            },
        },
{
    match select_invitation(found, now) {
        Ok(invitation) => {
            let hashed = hash_password(msg.password.as_str(), cost);
            user_for(invitation, hashed, now)
        },
        Err(e) => Err(e),
    }
}

/// Last step: what the applicant is told once the store has answered the
/// insert. A second user for an email is a conflict, never a raw store error.
pub fn registered(outcome: Result<User, StoreError>) -> (r: Result<SlimUser, ServiceError>)
    ensures
        identity_view(r) == spec_registered(outcome),
{
    match outcome {
        Ok(user) => Ok(SlimUser::from(user)),
        Err(e) => Err(ServiceError::from_store(e)),
    }
}

/// An invitation whose deadline has been reached is refused, whatever else
/// the request holds: so is one that the store does not know.
pub proof fn expired_or_unknown_is_refused(found: Seq<Invitation>, now: int)
    ensures
        found.len() == 0 ==> live_invitation(found, now) is None,
        found.len() > 0 && found.last().expires_at <= now ==> live_invitation(found, now) is None,
        found.len() > 0 && now < found.last().expires_at ==> live_invitation(found, now) == Some(
            found.last(),
        ),
{
}

/// A uniqueness failure of the store is told apart from an invalid invitation.
pub proof fn duplicate_user_is_conflict(outcome: Result<User, StoreError>)
    requires
        outcome == Err::<User, StoreError>(StoreError::UniqueViolation),
    ensures
        spec_registered(outcome) == Err::<Seq<char>, ServiceError>(ServiceError::Conflict),
        spec_registered(outcome) != Err::<Seq<char>, ServiceError>(ServiceError::InvalidInvitation),
{
}

} // verus!
