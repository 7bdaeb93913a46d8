//! Credential-and-invitation authentication core.
//!
//! Passwords become salted one-way credentials, credentials become signed and
//! time-bounded identity tokens, and accounts are created only by redeeming a
//! time-limited invitation.
//!
//! Each service is written as the decisions around its store round trips: it
//! takes the rows that a store returned and says what to insert or to answer.
//! `service` runs the public operations end to end against `store`, a store
//! held in memory that keeps at most one user per email.

pub mod authentication;
pub mod clock;
pub mod config;
pub mod errors;
pub mod identity;
pub mod invitation;
pub mod models;
pub mod password;
pub mod registration;
pub mod service;
pub mod store;
pub mod token;
