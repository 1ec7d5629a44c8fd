//! Credential codec: one-way password hashing and verification, built on
//! the bcrypt crate. The outcome of checking a password against a stored
//! hash is a pure function of the two strings; it is given a name here and
//! every contract about credentials speaks of that name.
use vstd::prelude::*;

use crate::errors::{ApiError, err_bad_request};

verus! {

/// What bcrypt verification says of a password and a stored hash:
/// `None` when the stored hash is malformed, otherwise `Some` of whether
/// the password matches.
pub uninterp spec fn bcrypt_check(password: Seq<char>, hash: Seq<char>) -> Option<bool>;

/// Relies on bcrypt::hash (default cost): the salt is fresh, the output is
/// the 60-character hash string, and bcrypt::verify recomputes the hash of
/// the same password from that string's own salt and cost, so verification
/// of the hashed password succeeds — and is well-formed for any password.
#[verifier::external_body]
fn bcrypt_hash(password: &str) -> (r: Option<String>)
    ensures
        r matches Some(h) ==> h@.len() == 60 && bcrypt_check(password@, h@) == Some(true)
            && forall|p: Seq<char>| (#[trigger] bcrypt_check(p, h@)) is Some,
{
    bcrypt::hash(password, bcrypt::DEFAULT_COST).ok()
}

/// Relies on bcrypt::verify: the result is determined by the password and
/// the hash string alone; an error arises only from a malformed hash, never
/// from a mismatch.
#[verifier::external_body]
fn bcrypt_verify(password: &str, hash: &str) -> (r: Option<bool>)
    ensures
        r == bcrypt_check(password@, hash@),
{
    bcrypt::verify(password, hash).ok()
}

/// Hashes a plaintext password after checking the codec's own input rules:
/// not empty and at most 72 characters (bcrypt reads at most one block).
pub fn hash_password(password: &str) -> (r: Result<String, ApiError>)
    ensures
        password@.len() == 0 ==> err_bad_request(r, "password must not be empty"@),
        0 < password@.len() <= 72 && r is Err ==> r matches Err(ApiError::Internal),
        password@.len() > 72 ==> err_bad_request(r, "password too long"@),
        r matches Ok(h) ==> h@.len() == 60 && bcrypt_check(password@, h@) == Some(true) && forall|
            p: Seq<char>,
        | (#[trigger] bcrypt_check(p, h@)) is Some,
{
    if password.is_empty() {
        return Err(ApiError::BadRequest(String::from_str("password must not be empty")));
    }
    if password.unicode_len() > 72 {
        return Err(ApiError::BadRequest(String::from_str("password too long")));
    }
    match bcrypt_hash(password) {
        Some(h) => Ok(h),
        None => Err(ApiError::Internal),
    }
}

/// Checks a plaintext password against a stored hash. A mismatch is the
/// normal `false`; only a malformed stored hash is an internal error.
pub fn verify_password(password: &str, hash: &str) -> (r: Result<bool, ApiError>)
    ensures
        match r {
            Ok(b) => bcrypt_check(password@, hash@) == Some(b),
            Err(e) => bcrypt_check(password@, hash@) is None && e matches ApiError::Internal,
        },
{
    match bcrypt_verify(password, hash) {
        Some(b) => Ok(b),
        None => Err(ApiError::Internal),
    }
}

} // verus!
