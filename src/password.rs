use vstd::prelude::*;

use crate::error::ApiError;

verus! {

#[verifier::external_type_specification]
#[verifier::external_body]
pub struct ExBcryptError(bcrypt::BcryptError);

/// Whether bcrypt accepts `plain` against `digest`: the cost and salt are read
/// from the digest, `plain` is hashed with them and the results are compared.
pub uninterp spec fn bcrypt_accepts(plain: Seq<char>, digest: Seq<char>) -> bool;

/// The work factor that bcrypt recommends as its default (`bcrypt::DEFAULT_COST`).
pub const DEFAULT_COST: u32 = 12;

/// Relies on `bcrypt::hash`: it draws a fresh salt and formats
/// `$2b$<cost>$<salt><hash>`, which `bcrypt::verify` splits back into the same
/// cost and salt, so the plaintext it hashed is accepted against the digest.
/// A cost outside 4..=31 is an error, not a panic.
#[verifier::external_body]
fn bcrypt_hash(plain: &str, cost: u32) -> (r: Result<String, bcrypt::BcryptError>)
    ensures
        r matches Ok(d) ==> bcrypt_accepts(plain@, d@),
{
    bcrypt::hash(plain, cost)
}

/// Relies on `bcrypt::verify`; a digest that does not parse counts as a mismatch.
#[verifier::external_body]
fn bcrypt_verify(plain: &str, digest: &str) -> (r: bool)
    ensures
        r == bcrypt_accepts(plain@, digest@),
{
    bcrypt::verify(plain, digest).unwrap_or(false)
}

/// Hashes a password or a recovery code with a fresh salt and work factor
/// `cost`. The digest is one that `verify_password` accepts the same plaintext
/// against.
pub fn hash_password(plain: &str, cost: u32) -> (r: Result<String, ApiError>)
    ensures
        r matches Ok(d) ==> bcrypt_accepts(plain@, d@),
        r matches Err(e) ==> e == ApiError::HashFailure,
{
    match bcrypt_hash(plain, cost) {
        Ok(d) => Ok(d),
        Err(_) => Err(ApiError::HashFailure),
    }
}

/// Checks a plaintext against a stored digest; never fails on a malformed digest.
pub fn verify_password(plain: &str, digest: &str) -> (r: bool)
    ensures
        r == bcrypt_accepts(plain@, digest@),
{
    bcrypt_verify(plain, digest)
}

} // verus!
