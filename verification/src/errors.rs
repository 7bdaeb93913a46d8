//! The error kinds that cross the service boundary.

use vstd::prelude::*;

verus! {

/// What a caller of a service operation may be told when it fails.
#[derive(Clone, Copy, Debug, PartialEq, Eq, Structural)]
pub enum ServiceError {
    /// Login failed; unknown user and wrong password are not told apart.
    InvalidCredentials,
    /// The identity token is missing, malformed, forged or expired.
    Unauthorized,
    /// The invitation is malformed, unknown or expired; the three are merged.
    InvalidInvitation,
    /// A user with this email already exists.
    Conflict,
    /// Hashing, signing or the store failed.
    InternalError,
}

/// How an insert into the store can fail.
#[derive(Clone, Copy, Debug, PartialEq, Eq, Structural)]
pub enum StoreError {
    /// The row would break a uniqueness constraint.
    UniqueViolation,
    /// The store could not be reached, timed out, or the pool was exhausted.
    Unavailable,
}

impl ServiceError {
    /// The response status of each kind.
    pub open spec fn spec_status_code(self) -> u16 {
        match self {
            ServiceError::InvalidCredentials => 400,
            ServiceError::Unauthorized => 401,
            ServiceError::InvalidInvitation => 404,
            ServiceError::Conflict => 409,
            ServiceError::InternalError => 500,
        }
    }

    /// The message shown to the client: it names the kind and nothing else.
    pub open spec fn spec_message(self) -> Seq<char> {
        match self {
            ServiceError::InvalidCredentials => "Username and password don't match"@,
            ServiceError::Unauthorized => "Unauthorized"@,
            ServiceError::InvalidInvitation => "Invalid Invitation"@,
            ServiceError::Conflict => "Key already exists"@,
            ServiceError::InternalError => "Internal Server Error, Please try later"@,
        }
    }

    /// What a failed store insert becomes at the service boundary.
    pub open spec fn spec_from_store(e: StoreError) -> ServiceError {
        match e {
            StoreError::UniqueViolation => ServiceError::Conflict,
            StoreError::Unavailable => ServiceError::InternalError,
        }
    }

    pub fn status_code(&self) -> (code: u16)
        ensures
            code == self.spec_status_code(),
    {
        match self {
            ServiceError::InvalidCredentials => 400,
            ServiceError::Unauthorized => 401,
            ServiceError::InvalidInvitation => 404,
            ServiceError::Conflict => 409,
            ServiceError::InternalError => 500,
        }
    }

    pub fn message(&self) -> (text: &'static str)
        ensures
            text@ == self.spec_message(),
    {
        match self {
            ServiceError::InvalidCredentials => "Username and password don't match",
            ServiceError::Unauthorized => "Unauthorized",
            ServiceError::InvalidInvitation => "Invalid Invitation",
            ServiceError::Conflict => "Key already exists",
            ServiceError::InternalError => "Internal Server Error, Please try later",
        }
    }

    /// Maps a store failure to a client-visible kind; no storage detail leaves.
    pub fn from_store(e: StoreError) -> (kind: ServiceError)
        ensures
            kind == Self::spec_from_store(e),
    {
        match e {
            StoreError::UniqueViolation => ServiceError::Conflict,
            StoreError::Unavailable => ServiceError::InternalError,
        }
    }

    /// Two different kinds never share a response status.
    pub proof fn status_codes_are_distinct(a: ServiceError, b: ServiceError)
        requires
            a != b,
        ensures
            a.spec_status_code() != b.spec_status_code(),
    {
    }
}

} // verus!
