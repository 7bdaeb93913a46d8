//! The records of the data model and the messages that ask for an operation.
//!
//! Instants are plain integers. A record's `created_at` and `expires_at` count
//! microseconds of local wall-clock time since 1970-01-01T00:00:00.

use vstd::prelude::*;

verus! {

/// A stored account: the email is its key, the password is a hashed credential.
#[derive(Debug, Clone)]
pub struct User {
    pub email: String,
    pub password: String,
    pub created_at: i64,
}

/// The authenticated principal handed to downstream code: the email alone.
#[derive(Debug, Clone)]
pub struct SlimUser {
    pub email: String,
}

/// A time-bounded permission for one email address to register.
#[derive(Debug, Clone)]
pub struct Invitation {
    pub id: u128,
    pub email: String,
    pub expires_at: i64,
}

/// A login request.
#[derive(Debug, Clone)]
pub struct AuthData {
    pub email: String,
    pub password: String,
}

/// A request for a new invitation.
#[derive(Debug, Clone)]
pub struct CreateInvitation {
    pub email: String,
}

/// The body an applicant submits when redeeming an invitation.
#[derive(Debug, Clone)]
pub struct UserData {
    pub password: String,
}

/// A registration request: the invitation's identifier as the applicant sent
/// it, and the password chosen.
#[derive(Debug, Clone)]
pub struct RegisterUser {
    pub invitation_id: String,
    pub password: String,
}

impl User {
    /// A user created at the instant `now`.
    pub fn from_details(email: String, password: String, now: i64) -> (user: User)
        ensures
            user.email == email,
            user.password == password,
            user.created_at == now,
    {
        User { email, password, created_at: now }
    }
}

/// The identity projection of a stored user.
impl From<User> for SlimUser {
    fn from(user: User) -> (slim: SlimUser) {
        SlimUser { email: user.email }
    }
}

impl vstd::std_specs::convert::FromSpecImpl<User> for SlimUser {
    open spec fn obeys_from_spec() -> bool {
        true
    }

    open spec fn from_spec(user: User) -> SlimUser {
        SlimUser { email: user.email }
    }
}

impl RegisterUser {
    /// Joins the identifier from the request path with the submitted body.
    pub fn from_parts(invitation_id: String, body: UserData) -> (msg: RegisterUser)
        ensures
            msg.invitation_id == invitation_id,
            msg.password == body.password,
    {
        RegisterUser { invitation_id, password: body.password }
    }
}

} // verus!
