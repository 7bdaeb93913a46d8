//! The public operations, run against a store held in memory: create an
//! invitation, register, log in, and tell who is calling.

use crate::authentication::{authenticate, authenticated};
use crate::clock::local_micros_now;
use crate::errors::ServiceError;
use crate::identity::extract;
use crate::invitation::{
    create_invitation_at, fresh_identifier, invitation_saved, invitation_view, issued_invitation,
};
use crate::models::{AuthData, CreateInvitation, Invitation, RegisterUser, SlimUser, User};
use crate::password::{hash_password, password_matches, MAX_COST, MIN_COST};
use crate::registration::{
    live_invitation, parse_invitation_id, registered, select_invitation, user_for, uuid_of,
};
use crate::store::{
    email_taken, emails_unique, inserted_user_is_found_last, invitations_with_id,
    lookup_finds_what_is_stored, users_with_email, MemoryStore,
};
use crate::token::{create_token, identity_view, issued_for, jwt_claim};
use vstd::prelude::*;

verus! {

/// The invitation that a registration request redeems at `now`: the one stored
/// last under the identifier that the request's text spells, if it has not
/// expired.
pub open spec fn invitation_to_redeem(
    invitations: Seq<Invitation>,
    id_text: Seq<char>,
    now: int,
) -> Option<Invitation> {
    match uuid_of(id_text) {
        Some(id) => live_invitation(invitations_with_id(invitations, id), now),
        None => None,
    }
}

/// What logging in yields against the stored users.
pub open spec fn login_outcome(users: Seq<User>, email: Seq<char>, password: Seq<char>) -> Result<
    Seq<char>,
    ServiceError,
> {
    authenticated(users_with_email(users, email), password)
}

/// Issues an invitation with the given identifier at the instant `now`, and
/// stores it.
pub fn invite_at(store: &mut MemoryStore, msg: &CreateInvitation, id: u128, now: i64) -> (r: Result<
    Invitation,
    ServiceError,
>)
    ensures
        final(store).users() == old(store).users(),
        invitation_view(r) == issued_invitation(id, msg.email@, now as int),
        match r {
            Ok(invitation) => final(store).invitations() == old(store).invitations().push(
                invitation,
            ),
            Err(_) => final(store).invitations() == old(store).invitations(),
        },
{
    match create_invitation_at(msg, id, now) {
        Ok(invitation) => {
            let outcome = store.insert_invitation(invitation);
            invitation_saved(outcome)
        },
        Err(e) => Err(e),
    }
}

/// Issues an invitation with a newly drawn identifier at the current time, and
/// stores it. Whatever was drawn and read, an invitation that comes back is
/// bound to the requested email and is the row added to the store.
pub fn invite(store: &mut MemoryStore, msg: &CreateInvitation) -> (r: Result<
    Invitation,
    ServiceError,
>)
    ensures
        final(store).users() == old(store).users(),
        match r {
            Ok(invitation) => invitation.email@ == msg.email@ && final(store).invitations() == old(store).invitations().push(invitation),
            Err(e) => e == ServiceError::InternalError && final(store).invitations() == old(store).invitations(),
        },
{
    let id = fresh_identifier();
    let now = local_micros_now();
    invite_at(store, msg, id, now)
}

/// What redeeming an invitation yields once the password has been hashed,
/// against the users stored before: a hashing failure is passed on, a taken
/// email is a conflict, and otherwise the invitation's email is registered.
pub open spec fn redeemed(users: Seq<User>, invitation: Invitation, hashed: Result<
    String,
    ServiceError,
>) -> Result<Seq<char>, ServiceError> {
    match hashed {
        Err(e) => Err(e),
        Ok(_) => if email_taken(users, invitation.email@) {
            Err(ServiceError::Conflict)
        } else {
            Ok(invitation.email@)
        },
    }
}

/// What a registration request yields at `now` where the hasher does its
/// work: no live invitation is `InvalidInvitation`, a taken email is
/// `Conflict`, and otherwise the invitation's email is registered.
pub open spec fn registration_when_hashed(
    users: Seq<User>,
    invitations: Seq<Invitation>,
    id_text: Seq<char>,
    now: int,
) -> Result<Seq<char>, ServiceError> {
    match invitation_to_redeem(invitations, id_text, now) {
        None => Err(ServiceError::InvalidInvitation),
        Some(invitation) => if email_taken(users, invitation.email@) {
            Err(ServiceError::Conflict)
        } else {
            Ok(invitation.email@)
        },
    }
}

/// Creates the user for a live invitation, once the password has been hashed.
///
/// On success exactly one user is added: it carries the invitation's email
/// and the credential, and was created at `now`. On failure the store is left
/// as it was. The invitation stays in the store either way.
pub fn redeem(
    store: &mut MemoryStore,
    invitation: Invitation,
    hashed: Result<String, ServiceError>,
    now: i64,
) -> (r: Result<SlimUser, ServiceError>)
    requires
        old(store).wf(),
    ensures
        final(store).wf(),
        final(store).invitations() == old(store).invitations(),
        identity_view(r) == redeemed(old(store).users(), invitation, hashed),
        r is Err ==> final(store).users() == old(store).users(),
        r is Ok ==> hashed is Ok && final(store).users() == old(store).users().push(
            User { email: invitation.email, password: hashed->Ok_0, created_at: now },
        ),
{
    match user_for(invitation, hashed, now) {
        Ok(user) => {
            let outcome = store.insert_user(user);
            registered(outcome)
        },
        Err(e) => Err(e),
    }
}

/// Redeems an invitation at the instant `now`.
///
/// A request whose identifier is malformed or unknown, or whose invitation
/// has expired, is refused as `InvalidInvitation` and changes nothing. With a
/// live invitation, success adds exactly one user: it carries the invitation's
/// email, was created at `now`, and the submitted password verifies against
/// its credential. Where the email is taken already the request fails and
/// changes nothing: as `Conflict`, unless the hasher failed before the store
/// was asked. The invitation stays in the store either way.
pub fn register_at(store: &mut MemoryStore, msg: &RegisterUser, cost: u32, now: i64) -> (r: Result<
    SlimUser,
    ServiceError,
>)
    requires
        old(store).wf(),
    ensures
        final(store).wf(),
        final(store).invitations() == old(store).invitations(),
        identity_view(r) == registration_when_hashed(
            old(store).users(),
            old(store).invitations(),
            msg.invitation_id@,
            now as int,
        ) || (invitation_to_redeem(
            old(store).invitations(),
            msg.invitation_id@,
            now as int,
        ) is Some && (r matches Err(e) && e == ServiceError::InternalError)),
        match invitation_to_redeem(old(store).invitations(), msg.invitation_id@, now as int) {
            None => r matches Err(e) && e == ServiceError::InvalidInvitation && final(store).users() == old(store).users(),
            Some(invitation) => match r {
                Ok(user) => {
                    &&& user.email@ == invitation.email@
                    &&& MIN_COST <= cost <= MAX_COST
                    &&& !email_taken(old(store).users(), invitation.email@)
                    &&& final(store).users().len() == old(store).users().len() + 1
                    &&& final(store).users().drop_last() == old(store).users()
                    &&& final(store).users().last().email == invitation.email
                    &&& final(store).users().last().created_at == now
                    &&& password_matches(msg.password@, final(store).users().last().password@)
                },
                Err(e) => {
                    &&& final(store).users() == old(store).users()
                    &&& (e == ServiceError::InternalError || (e == ServiceError::Conflict
                        && email_taken(old(store).users(), invitation.email@)))
                    &&& !(MIN_COST <= cost <= MAX_COST) ==> e == ServiceError::InternalError
                },
            },
        },
{
    let id = match parse_invitation_id(msg) {
        Ok(id) => id,
        Err(e) => {
            return Err(e);
        },
    };
    let found = store.invitations_by_id(id);
    let invitation = match select_invitation(found, now) {
        Ok(invitation) => invitation,
        Err(e) => {
            return Err(e);
        },
    };
    let hashed = hash_password(msg.password.as_str(), cost);
    let r = redeem(store, invitation, hashed, now);
    proof {
        if r is Ok {
            let user = User { email: invitation.email, password: hashed->Ok_0, created_at: now };
            assert(old(store).users().push(user).drop_last() =~= old(store).users());
        }
    }
    r
}

/// Redeems an invitation at the current time.
///
/// Whatever the clock read: an identifier that is malformed or that no stored
/// invitation has is refused as `InvalidInvitation`; a user that comes back
/// carries the email of the invitation stored last under the identifier and
/// was added to the store under the submitted password, hashed at an
/// acceptable work factor; `Conflict` is answered only where that
/// invitation's email was taken; an unacceptable work factor never answers
/// `Conflict`; the invitations stay as they were, and a failure changes
/// nothing.
pub fn register(store: &mut MemoryStore, msg: &RegisterUser, cost: u32) -> (r: Result<
    SlimUser,
    ServiceError,
>)
    requires
        old(store).wf(),
    ensures
        final(store).wf(),
        final(store).invitations() == old(store).invitations(),
        uuid_of(msg.invitation_id@) is None ==> (r matches Err(e) && e
            == ServiceError::InvalidInvitation),
        (uuid_of(msg.invitation_id@) matches Some(id) && invitations_with_id(
            old(store).invitations(),
            id,
        ).len() == 0) ==> (r matches Err(e) && e == ServiceError::InvalidInvitation),
        r matches Ok(user) ==> MIN_COST <= cost <= MAX_COST && (uuid_of(
            msg.invitation_id@,
        ) matches Some(id) && invitations_with_id(old(store).invitations(), id).len() > 0
            && user.email@ == invitations_with_id(old(store).invitations(), id).last().email@),
        (r matches Err(e) && e == ServiceError::Conflict) ==> MIN_COST <= cost <= MAX_COST && (
        uuid_of(msg.invitation_id@) matches Some(id) && invitations_with_id(
            old(store).invitations(),
            id,
        ).len() > 0 && email_taken(
            old(store).users(),
            invitations_with_id(old(store).invitations(), id).last().email@,
        )),
        match r {
            Ok(user) => {
                &&& !email_taken(old(store).users(), user.email@)
                &&& final(store).users().len() == old(store).users().len() + 1
                &&& final(store).users().drop_last() == old(store).users()
                &&& final(store).users().last().email@ == user.email@
                &&& password_matches(msg.password@, final(store).users().last().password@)
            },
            Err(e) => final(store).users() == old(store).users() && (e
                == ServiceError::InvalidInvitation || e == ServiceError::Conflict || e
                == ServiceError::InternalError),
        },
{
    let now = local_micros_now();
    register_at(store, msg, cost, now)
}

/// Verifies a login against the stored users.
pub fn login_user(store: &MemoryStore, msg: &AuthData) -> (r: Result<SlimUser, ServiceError>)
    ensures
        identity_view(r) == login_outcome(store.users(), msg.email@, msg.password@),
{
    let found = store.users_by_email(msg.email.as_str());
    authenticate(msg, found)
}

/// Logs in: verifies the credentials and issues a token for the identity.
///
/// Credentials that do not verify are `InvalidCredentials`, and no token is
/// made. For those that do, the token carries the user's email and lives for
/// one day from an instant that the clock gave; the only other outcome is an
/// internal error of the signer.
pub fn login(store: &MemoryStore, msg: &AuthData, secret: &str) -> (r: Result<String, ServiceError>)
    ensures
        match login_outcome(store.users(), msg.email@, msg.password@) {
            Ok(email) => match r {
                Ok(token) => issued_for(token@, secret@, email),
                Err(e) => e == ServiceError::InternalError,
            },
            Err(kind) => r matches Err(e) && e == kind,
        },
{
    match login_user(store, msg) {
        Ok(user) => create_token(&user, secret),
        Err(e) => Err(e),
    }
}

/// Logs out: the carrier is cleared. Nothing is kept on the server, so there
/// is nothing else to undo, and a request without a carrier is refused.
pub fn logout(carrier: &mut Option<String>)
    ensures
        *final(carrier) is None,
{
    *carrier = None;
}

/// Tells who is calling, from the token that the request carried.
pub fn who_am_i(carrier: Option<&str>, secret: &str) -> (r: Result<SlimUser, ServiceError>)
    ensures
        carrier is None ==> r is Err,
        carrier matches Some(token) && jwt_claim(token@, secret@) is None ==> r is Err,
        r matches Err(e) ==> e == ServiceError::Unauthorized,
        r matches Ok(user) ==> (carrier matches Some(token) && jwt_claim(
            token@,
            secret@,
        ) matches Some(claim) && claim.email == user.email@),
{
    extract(carrier, secret)
}

/// A user who has just been added under a password can log in with it, and is
/// told its own email: `users` is the store before, `user` the row added.
pub proof fn registered_user_can_log_in(users: Seq<User>, user: User, password: Seq<char>)
    requires
        password_matches(password, user.password@),
    ensures
        login_outcome(users.push(user), user.email@, password) == Ok::<Seq<char>, ServiceError>(
            user.email@,
        ),
{
    inserted_user_is_found_last(users, user);
}

/// Once a user is stored, redeeming any invitation that resolves to the same
/// email is answered with `Conflict`, whatever password was hashed for it:
/// `users` is the store before the first registration, `first` the row that
/// it added.
pub proof fn second_registration_conflicts(
    users: Seq<User>,
    first: User,
    invitation: Invitation,
    hashed: Result<String, ServiceError>,
)
    requires
        invitation.email@ == first.email@,
        hashed is Ok,
    ensures
        redeemed(users.push(first), invitation, hashed) == Err::<Seq<char>, ServiceError>(
            ServiceError::Conflict,
        ),
{
    inserted_user_is_found_last(users, first);
}

/// After a registration has added `first`, a request that redeems a live
/// invitation for the same email, this one or another, is answered with
/// `Conflict` wherever the hasher does its work, and never with
/// `InvalidInvitation`.
pub proof fn registering_twice_conflicts(
    users: Seq<User>,
    first: User,
    invitations: Seq<Invitation>,
    id_text: Seq<char>,
    now: int,
)
    requires
        invitation_to_redeem(invitations, id_text, now) matches Some(invitation)
            && invitation.email@ == first.email@,
    ensures
        registration_when_hashed(users.push(first), invitations, id_text, now) == Err::<
            Seq<char>,
            ServiceError,
        >(ServiceError::Conflict),
{
    inserted_user_is_found_last(users, first);
}

/// A login with an email that no stored user has fails as
/// `InvalidCredentials`, as a wrong password does.
pub proof fn unknown_email_is_invalid_credentials(
    users: Seq<User>,
    email: Seq<char>,
    password: Seq<char>,
)
    requires
        emails_unique(users),
        !email_taken(users, email),
    ensures
        login_outcome(users, email, password) == Err::<Seq<char>, ServiceError>(
            ServiceError::InvalidCredentials,
        ),
{
    lookup_finds_what_is_stored(users, email);
}

} // verus!
