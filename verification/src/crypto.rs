//! The password-hashing collaborator.
//!
//! Hashing salts from OS randomness, so two hashes of one password differ;
//! what is stable, and all the library relies on, is the verification
//! relation between a password and a hash, named [`bcrypt_matches`].

use vstd::prelude::*;

verus! {

/// Whether the password matches the salted hash: the result of
/// `bcrypt::verify`, a function of the two strings alone.
pub uninterp spec fn bcrypt_matches(password: Seq<char>, hash: Seq<char>) -> bool;

/// Relies on bcrypt::hash: a fresh salted hash of the password, which
/// bcrypt::verify accepts against that password. Fails on a cost outside
/// bcrypt's accepted range or when the system's randomness is unavailable.
#[verifier::external_body]
pub(crate) fn bcrypt_hash(password: &str, cost: u32) -> (r: Result<String, String>)
    ensures
        r matches Ok(h) ==> bcrypt_matches(password@, h@),
{
    bcrypt::hash(password, cost).map_err(|e| e.to_string())
}

/// Relies on bcrypt::verify: whether the password matches the hash. Fails
/// when the hash string is not a well-formed bcrypt hash.
#[verifier::external_body]
pub(crate) fn bcrypt_verify(password: &str, hash: &str) -> (r: Result<bool, String>)
    ensures
        r matches Ok(b) ==> b == bcrypt_matches(password@, hash@),
{
    bcrypt::verify(password, hash).map_err(|e| e.to_string())
}

} // verus!
