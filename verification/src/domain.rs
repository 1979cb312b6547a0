//! The data model: stored users, registration and login requests, and the
//! claims carried by a bearer token.
//!
//! Identifiers are held as plain strings and timestamps as Unix seconds, so
//! that every field the logic reads is a value the verifier can reason about.

use vstd::prelude::*;

verus! {

/// Seconds a bearer token stays valid after issuance: four hours.
pub const TOKEN_VALIDITY_SECS: i64 = 14400;

/// A stored user row. `username` and `email` are globally unique across the
/// store; `password_hash` is an opaque self-describing digest string and is
/// never serialized outward.
#[derive(Clone, Debug, PartialEq, Eq)]
pub struct User {
    pub id: String,
    pub username: String,
    pub email: String,
    pub password_hash: String,
    pub created_at: i64,
    pub updated_at: i64,
}

impl User {
    /// A field-by-field copy.
    pub fn duplicate(&self) -> (r: User)
        ensures
            r == *self,
    {
        User {
            id: self.id.clone(),
            username: self.username.clone(),
            email: self.email.clone(),
            password_hash: self.password_hash.clone(),
            created_at: self.created_at,
            updated_at: self.updated_at,
        }
    }
}

/// A registration request. The password is plaintext and transient: it is
/// hashed and discarded, never persisted.
#[derive(Clone, Debug)]
pub struct CreateUser {
    pub username: String,
    pub email: String,
    pub password: String,
}

/// A login request.
#[derive(Clone, Debug)]
pub struct FindUser {
    pub username: String,
    pub password: String,
}

/// A password-change request.
#[derive(Clone, Debug)]
pub struct UpdateUser {
    pub username: String,
    pub old_password: String,
    pub new_password: String,
}

/// The payload of a bearer token: the subject (a user id), the issuance time
/// and the expiry time, both in Unix seconds.
#[derive(Clone, Debug)]
pub struct Claims {
    pub sub: String,
    pub iat: i64,
    pub exp: i64,
}

impl Claims {
    /// Claims for `sub`, issued at `now` and expiring four hours later.
    pub fn new(sub: String, now: i64) -> (r: Claims)
        requires
            now <= i64::MAX - TOKEN_VALIDITY_SECS,
        ensures
            r.sub == sub,
            r.iat == now,
            r.exp == now + TOKEN_VALIDITY_SECS,
    {
        Claims { sub, iat: now, exp: now + TOKEN_VALIDITY_SECS }
    }
}

} // verus!
