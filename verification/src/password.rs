//! Credential hashing. Passwords are stored only as salted bcrypt hashes;
//! verification goes through bcrypt's own constant-time comparison.

use vstd::prelude::*;

verus! {

/// Whether bcrypt's verification routine accepts `password` against the
/// stored `hash`: true exactly when re-hashing `password` with the cost and
/// salt embedded in `hash` reproduces it. This is a pure function of the two
/// strings; it is left unspecified because writing out the bcrypt key
/// schedule here would state nothing a reader could check.
pub uninterp spec fn bcrypt_accepts(password: Seq<char>, hash: Seq<char>) -> bool;

/// Relies on bcrypt::hash with DEFAULT_COST: the result is a salted,
/// well-formed bcrypt hash of the password, so bcrypt::verify accepts the
/// password against it. The salt comes from the operating system's
/// randomness, so nothing links two hashes of one password; the call fails
/// only when that randomness source does.
#[verifier::external_body]
pub(crate) fn hash_password(password: &String) -> (r: Option<String>)
    ensures
        r matches Some(h) ==> bcrypt_accepts(password@, h@),
{
    bcrypt::hash(password.as_bytes(), bcrypt::DEFAULT_COST).ok()
}

/// Relies on bcrypt::verify: deterministic in the password and the hash (the
/// salt is read back out of the hash string). A malformed hash is reported as
/// an error by bcrypt, which this wrapper folds into rejection.
#[verifier::external_body]
pub(crate) fn verify_password(password: &String, hash: &String) -> (r: bool)
    ensures
        r == bcrypt_accepts(password@, hash@),
{
    bcrypt::verify(password.as_bytes(), hash.as_str()).unwrap_or(false)
}

} // verus!
