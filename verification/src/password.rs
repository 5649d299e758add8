//! Password hashing primitive, used as a black box: a one-way hash with a
//! cost factor, and a check of a plaintext against a stored hash.

use vstd::prelude::*;

verus! {

/// Whether the bcrypt check of `password` against `hash` succeeds; this is
/// what `bcrypt::verify` returns, a function of its two arguments alone.
pub uninterp spec fn bcrypt_matches(password: Seq<char>, hash: Seq<char>) -> bool;

/// Relies on bcrypt::hash: a hash produced for a password verifies against
/// that password (the cost and salt are recovered from the hash itself),
/// and hashing succeeds whenever the cost lies in bcrypt's accepted range
/// of 4 to 31 — the only argument-dependent failure. One idealization,
/// declared here: the salt is drawn from the operating system's
/// randomness, and a failure of that source (environmental, of the same
/// class as an allocation failure) is left outside this contract.
#[verifier::external_body]
pub(crate) fn hash_password(password: &str, cost: u32) -> (r: Result<String, ()>)
    ensures
        4 <= cost <= 31 ==> r is Ok,
        r matches Ok(h) ==> bcrypt_matches(password@, h@),
{
    bcrypt::hash(password, cost).map_err(|_| ())
}

/// Relies on bcrypt::verify: the check is a pure function of the password
/// and the stored hash; a malformed hash fails the check.
#[verifier::external_body]
pub(crate) fn verify_password(password: &str, hash: &str) -> (r: bool)
    ensures
        r == bcrypt_matches(password@, hash@),
{
    matches!(bcrypt::verify(password, hash), Ok(true))
}

} // verus!
