//! The invitation service: issues a time-limited invitation for an email.

use crate::clock::{local_micros_now, DAY_MICROS};
use crate::errors::{ServiceError, StoreError};
use crate::models::{CreateInvitation, Invitation};
use vstd::prelude::*;

verus! {

/// Calls `uuid::Uuid::new_v4`, which draws a random version-4 identifier, and
/// hands it on as the integer that `Uuid::as_u128` gives. Nothing is claimed
/// of the value.
#[verifier::external_body]
pub(crate) fn fresh_identifier() -> (id: u128) {
    uuid::Uuid::new_v4().as_u128()
}

/// An invitation may be redeemed strictly before its deadline.
pub open spec fn redeemable_at(invitation: Invitation, now: int) -> bool {
    now < invitation.expires_at
}

/// What `create_invitation_at` returns: the invitation that expires one day
/// after `now`, or an internal error where that deadline cannot be written.
pub open spec fn issued_invitation(id: u128, email: Seq<char>, now: int) -> Result<
    (u128, Seq<char>, int),
    ServiceError,
> {
    if now + DAY_MICROS <= i64::MAX {
        Ok((id, email, now + DAY_MICROS))
    } else {
        Err(ServiceError::InternalError)
    }
}

/// An invitation, or the error in its place, as a mathematical value.
pub open spec fn invitation_view(r: Result<Invitation, ServiceError>) -> Result<
    (u128, Seq<char>, int),
    ServiceError,
> {
    match r {
        Ok(inv) => Ok((inv.id, inv.email@, inv.expires_at as int)),
        Err(e) => Err(e),
    }
}

impl Invitation {
    /// The invitation with identifier `id` for `email`, issued at `now`: it
    /// expires one day later.
    pub fn issue(id: u128, email: String, now: i64) -> (invitation: Invitation)
        requires
            now + DAY_MICROS <= i64::MAX,
        ensures
            invitation.id == id,
            invitation.email == email,
            invitation.expires_at == now + DAY_MICROS,
    {
        Invitation { id, email, expires_at: now + DAY_MICROS }
    }

    /// Whether the invitation may still be redeemed at the instant `now`.
    pub fn is_redeemable_at(&self, now: i64) -> (live: bool)
        ensures
            live == redeemable_at(*self, now as int),
    {
        now < self.expires_at
    }
}

/// Builds the invitation for a request, given a fresh identifier and the
/// instant of issue. Several live invitations for one email may coexist:
/// nothing here looks at earlier ones.
pub fn create_invitation_at(msg: &CreateInvitation, id: u128, now: i64) -> (r: Result<
    Invitation,
    ServiceError,
>)
    ensures
        invitation_view(r) == issued_invitation(id, msg.email@, now as int),
{
    if now > i64::MAX - DAY_MICROS {
        Err(ServiceError::InternalError)
    } else {
        Ok(Invitation::issue(id, msg.email.clone(), now))
    }
}

/// Builds the invitation for a request with a newly drawn identifier, at the
/// current time. Whatever was drawn and read, an invitation that comes back is
/// bound to the requested email, and a failure is an internal error.
pub fn create_invitation(msg: &CreateInvitation) -> (r: Result<Invitation, ServiceError>)
    ensures
        r matches Ok(invitation) ==> invitation.email@ == msg.email@,
        r matches Err(e) ==> e == ServiceError::InternalError,
{
    let id = fresh_identifier();
    let now = local_micros_now();
    create_invitation_at(msg, id, now)
}

/// What the caller is told once the store has answered the insert of an
/// invitation: the row as stored, or the store's failure as a service error.
pub fn invitation_saved(outcome: Result<Invitation, StoreError>) -> (r: Result<
    Invitation,
    ServiceError,
>)
    ensures
        match outcome {
            Ok(row) => r == Ok::<Invitation, ServiceError>(row),
            Err(e) => r == Err::<Invitation, ServiceError>(ServiceError::spec_from_store(e)),
        },
{
    match outcome {
        Ok(row) => Ok(row),
        Err(e) => Err(ServiceError::from_store(e)),
    }
}

} // verus!
