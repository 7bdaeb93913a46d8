//! The authentication service: email and password against stored credentials.

use crate::errors::{ServiceError, StoreError};
use crate::models::{AuthData, SlimUser, User};
use crate::password::{password_matches, verify_password};
use crate::token::identity_view;
use vstd::prelude::*;

verus! {

/// The user to check among the rows that the store returned for an email: the
/// one inserted last.
pub open spec fn latest_user(found: Seq<User>) -> Option<User> {
    if found.len() > 0 {
        Some(found.last())
    } else {
        None
    }
}

/// What a login yields, given the user found and whether the password was
/// accepted for it.
pub open spec fn login_decision(user: Option<User>, accepted: bool) -> Result<
    Seq<char>,
    ServiceError,
> {
    match user {
        Some(u) => if accepted {
            Ok(u.email@)
        } else {
            Err(ServiceError::InvalidCredentials)
        },
        None => Err(ServiceError::InvalidCredentials),
    }
}

/// What `authenticate` returns for the rows found and the password submitted.
pub open spec fn authenticated(found: Seq<User>, password: Seq<char>) -> Result<
    Seq<char>,
    ServiceError,
> {
    match latest_user(found) {
        Some(u) => login_decision(Some(u), password_matches(password, u.password@)),
        None => Err(ServiceError::InvalidCredentials),
    }
}

/// What the store's answer to the lookup of a user becomes: a lookup that
/// failed is a failure of the store, not of the credentials.
pub fn found_users(outcome: Result<Vec<User>, StoreError>) -> (r: Result<Vec<User>, ServiceError>)
    ensures
        match outcome {
            Ok(rows) => r == Ok::<Vec<User>, ServiceError>(rows),
            Err(e) => r == Err::<Vec<User>, ServiceError>(ServiceError::spec_from_store(e)),
        },
{
    match outcome {
        Ok(rows) => Ok(rows),
        Err(e) => Err(ServiceError::from_store(e)),
    }
}

/// Decides a login from the user found and the verdict on the password.
pub fn decide_login(user: Option<User>, accepted: bool) -> (r: Result<SlimUser, ServiceError>)
    ensures
        identity_view(r) == login_decision(user, accepted),
{
    match user {
        Some(u) => {
            if accepted {
                Ok(SlimUser::from(u))
            } else {
                Err(ServiceError::InvalidCredentials)
            }
        },
        None => Err(ServiceError::InvalidCredentials),
    }
}

/// Verifies a login against the rows that the store returned for its email.
///
/// The identity of the user inserted last comes back where the password
/// verifies against that user's credential. Every other case, no user or no
/// match or a credential that cannot be read, is the one error kind
/// `InvalidCredentials`.
pub fn authenticate(msg: &AuthData, found: Vec<User>) -> (r: Result<SlimUser, ServiceError>)
    ensures
        identity_view(r) == authenticated(found@, msg.password@),
{
    let mut rows = found;
    match rows.pop() {
        Some(user) => {
            let accepted = verify_password(msg.password.as_str(), user.password.as_str());
            decide_login(Some(user), accepted)
        },
        None => Err(ServiceError::InvalidCredentials),
    }
}

/// An unknown user and a wrong password are answered alike: a login that
/// fails, fails as `InvalidCredentials`, so that the answer does not tell
/// whether the account exists.
pub proof fn failures_are_indistinguishable(
    found: Seq<User>,
    wrong: Seq<char>,
    unknown_found: Seq<User>,
    anything: Seq<char>,
)
    requires
        unknown_found.len() == 0,
        found.len() > 0,
        !password_matches(wrong, found.last().password@),
    ensures
        authenticated(found, wrong) == authenticated(unknown_found, anything),
        authenticated(found, wrong) == Err::<Seq<char>, ServiceError>(
            ServiceError::InvalidCredentials,
        ),
{
}

/// A login succeeds exactly where a user was found and the password verifies
/// against the credential of the one inserted last.
pub proof fn login_succeeds_iff_password_matches(found: Seq<User>, password: Seq<char>)
    ensures
        authenticated(found, password) is Ok <==> (found.len() > 0 && password_matches(
            password,
            found.last().password@,
        )),
        authenticated(found, password) is Ok ==> authenticated(found, password) == Ok::<
            Seq<char>,
            ServiceError,
        >(found.last().email@),
        authenticated(found, password) is Err ==> authenticated(found, password) == Err::<
            Seq<char>,
            ServiceError,
        >(ServiceError::InvalidCredentials),
{
}

} // verus!
