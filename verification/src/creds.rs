//! Password hashing and verification, built on a salted adaptive hash
//! with a fixed work factor.

use vstd::prelude::*;

verus! {

/// The work factor every password is hashed with.
pub const HASH_COST: u32 = 10;

/// What verifying a password against a stored hash yields: None when
/// the stored hash is malformed, otherwise Some of whether the password
/// matches.  The outcome depends on the password and the hash alone.
pub uninterp spec fn bcrypt_verification(password: Seq<char>, hash: Seq<char>) -> Option<bool>;

/// Relies on bcrypt::hash: it salts at random, so two calls on one
/// password differ, but bcrypt's documented contract is that a hash it
/// produced verifies against the password it was produced from.  A
/// failure of the underlying primitive surfaces as None.
#[verifier::external_body]
pub(crate) fn hash_password(password: &str, cost: u32) -> (r: Option<String>)
    ensures
        r matches Some(h) ==> bcrypt_verification(password@, h@) == Some(true),
{
    match bcrypt::hash(password, cost) {
        Ok(h) => Some(h),
        Err(_) => None,
    }
}

/// Relies on bcrypt::verify: it splits the stored hash into cost, salt
/// and digest (failing on a malformed hash), re-hashes the password
/// with that cost and salt, and compares; the outcome depends on the
/// password and the hash alone.
#[verifier::external_body]
pub(crate) fn verify_password(password: &str, hash: &str) -> (r: Option<bool>)
    ensures
        r == bcrypt_verification(password@, hash@),
{
    match bcrypt::verify(password, hash) {
        Ok(matched) => Some(matched),
        Err(_) => None,
    }
}

/// A password matches a stored hash only when the hash is well formed
/// and verification answers yes.
pub open spec fn password_matches(password: Seq<char>, hash: Seq<char>) -> bool {
    bcrypt_verification(password, hash) == Some(true)
}

} // verus!
