//! Password hashing and verification through the `argon2` crate (Argon2id
//! with its default parameters).
//!
//! What `hash_password` returns depends on a random salt, so its exact value
//! cannot be named; what the library relies on is stated over two names:
//! [`digest_matches`], whether verification of a digest string against a
//! password succeeds, and [`digest_well_formed`], whether the digest parses as
//! a PHC string. Both are functions of their arguments alone, because
//! verification re-reads every parameter from the digest string itself.

use vstd::prelude::*;

use argon2::password_hash::rand_core::OsRng;
use argon2::password_hash::{PasswordHash, PasswordHasher, PasswordVerifier, SaltString};
use argon2::Argon2;

verus! {

/// Whether Argon2id verification of `digest` against `password` succeeds:
/// names the result of `argon2`'s `PasswordVerifier::verify_password`, which
/// recomputes the digest from the salt and parameters embedded in `digest`
/// and so depends on the two arguments alone.
pub uninterp spec fn digest_matches(password: Seq<u8>, digest: Seq<char>) -> bool;

/// Whether `digest` parses as a PHC-format hash string: names the result of
/// `password_hash`'s `PasswordHash::new`.
pub uninterp spec fn digest_well_formed(digest: Seq<char>) -> bool;

/// The error type hashing and verification report.
#[verifier::external_type_specification]
#[verifier::external_body]
pub struct ExPasswordHashError(argon2::password_hash::Error);

/// Relies on `argon2`'s `PasswordHasher::hash_password` with a fresh random
/// salt: on success the returned PHC string parses back, and verifying it
/// against the same password recomputes the same digest and succeeds.
#[verifier::external_body]
pub fn hash_password(password: &[u8]) -> (r: Result<String, argon2::password_hash::Error>)
    ensures
        r matches Ok(digest) ==> digest_matches(password@, digest@) && digest_well_formed(digest@),
{
    let salt = SaltString::generate(&mut OsRng);
    let argon2 = Argon2::default();
    Ok(argon2.hash_password(password, &salt)?.to_string())
}

/// Relies on `argon2`'s `PasswordVerifier::verify_password` and
/// `password_hash`'s `PasswordHash::new`: the only error is a digest string
/// that does not parse; after a successful parse the outcome is the
/// deterministic comparison named by [`digest_matches`].
#[verifier::external_body]
pub fn verify_password(password: &[u8], password_hash: &str) -> (r: Result<
    bool,
    argon2::password_hash::Error,
>)
    ensures
        r matches Ok(m) ==> m == digest_matches(password@, password_hash@),
        r is Ok <==> digest_well_formed(password_hash@),
{
    let argon2 = Argon2::default();
    let parsed_hash = PasswordHash::new(password_hash)?;
    Ok(argon2.verify_password(password, &parsed_hash).is_ok())
}

} // verus!
