use vstd::prelude::*;
use crate::errors::AuthError;

verus! {

/// The work factor used where none is chosen.
pub const DEFAULT_COST: u32 = 12;

/// The least work factor that the hashing scheme takes.
pub const MIN_COST: u32 = 4;

/// The greatest work factor that the hashing scheme takes.
pub const MAX_COST: u32 = 31;

/// Whether the hashing scheme takes a work factor.
pub open spec fn cost_allowed(cost: u32) -> bool {
    MIN_COST <= cost <= MAX_COST
}

/// The character of a decimal digit.
pub open spec fn digit(value: int) -> char {
    ((48 + value) as u8) as char
}

/// Whether a hash is one made under a work factor: sixty characters that
/// begin with the scheme's version, the factor in two decimal digits, and
/// a dollar sign before the salt.
pub open spec fn hashed_under(hash: Seq<char>, cost: u32) -> bool {
    &&& hash.len() == 60
    &&& hash[0] == '$'
    &&& hash[1] == '2'
    &&& hash[2] == 'b'
    &&& hash[3] == '$'
    &&& hash[4] == digit(cost as int / 10)
    &&& hash[5] == digit(cost as int % 10)
    &&& hash[6] == '$'
}

/// The error of `bcrypt`, carried through and never looked into.
#[verifier::external_type_specification]
#[verifier::external_body]
pub struct ExBcryptError(bcrypt::BcryptError);

/// What `bcrypt::verify` answers for a password and a stored hash: whether
/// they match, or `None` where it reports the hash as malformed.
pub uninterp spec fn bcrypt_verified(password: Seq<char>, hash: Seq<char>) -> Option<bool>;

/// Hashes a password with `bcrypt::hash` under a fresh random salt. It
/// reports an error for a work factor outside 4 to 31. The hash differs
/// from call to call; whatever it is, it is spelled `$2b$`, the factor in
/// two digits, `$`, and 53 characters of salt and digest, and
/// `bcrypt::verify` accepts the same password against it.
#[verifier::external_body]
fn bcrypt_hash(password: &str, cost: u32) -> (hashed: Result<String, bcrypt::BcryptError>)
    ensures
        hashed is Ok ==> cost_allowed(cost),
        hashed matches Ok(h) ==> hashed_under(h@, cost),
        hashed matches Ok(h) ==> bcrypt_verified(password@, h@) == Some(true),
{
    bcrypt::hash(password.as_bytes(), cost)
}

/// Checks a password against a stored hash with `bcrypt::verify`.
#[verifier::external_body]
fn bcrypt_verify(password: &str, hash: &str) -> (checked: Result<bool, bcrypt::BcryptError>)
    ensures
        checked matches Ok(b) ==> bcrypt_verified(password@, hash@) == Some(b),
        checked is Err ==> bcrypt_verified(password@, hash@) is None,
{
    bcrypt::verify(password.as_bytes(), hash)
}

/// What checking a password against a stored hash comes to.
pub open spec fn password_check(password: Seq<char>, hash: Seq<char>) -> Result<bool, AuthError> {
    match bcrypt_verified(password, hash) {
        Some(matches) => Ok(matches),
        None => Err(AuthError::HashingFailure),
    }
}

/// One-way hash of a password under the given work factor, which must lie
/// between 4 and 31: the higher, the more work each hash and each check
/// takes. Every hash it returns is made under that factor and verifies
/// against the password it was made from.
pub fn hash_password(password: &str, cost: u32) -> (hashed: Result<String, AuthError>)
    ensures
        !cost_allowed(cost) ==> hashed is Err,
        hashed matches Ok(h) ==> hashed_under(h@, cost),
        hashed matches Ok(h) ==> password_check(password@, h@) == Ok::<bool, AuthError>(true),
        hashed matches Err(e) ==> e == AuthError::HashingFailure,
{
    match bcrypt_hash(password, cost) {
        Ok(h) => Ok(h),
        Err(_) => Err(AuthError::HashingFailure),
    }
}

/// Checks a password against a stored hash. A corrupt hash is a
/// `HashingFailure`, told apart from a mismatch.
pub fn verify_password(password: &str, hash: &str) -> (checked: Result<bool, AuthError>)
    ensures
        checked == password_check(password@, hash@),
{
    match bcrypt_verify(password, hash) {
        Ok(matches) => Ok(matches),
        Err(_) => Err(AuthError::HashingFailure),
    }
}

} // verus!
