//! Password hashing and checking.

use vstd::prelude::*;

use crate::errors::AppError;
use crate::text::{digit_char, natural_text};

verus! {

/// What checking a password (as UTF-8 bytes) against a stored bcrypt hash
/// gives: whether it matches, or the description of why the hash cannot be
/// read.
pub uninterp spec fn bcrypt_check(password: Seq<u8>, hash: Seq<char>) -> Result<bool, Seq<char>>;

/// The bytes of a password as the hash function reads them.
pub open spec fn password_bytes(p: Seq<char>) -> Seq<u8> {
    vstd::utf8::encode_utf8(p)
}

/// The stored hash accepts the password.
pub open spec fn hash_accepts(hash: Seq<char>, password: Seq<char>) -> bool {
    bcrypt_check(password_bytes(password), hash) == Ok::<bool, Seq<char>>(true)
}

/// The work factor of new password hashes.
pub const DEFAULT_COST: u32 = 12;

/// `bcrypt::verify(password, hash)`: re-hashes the password with the cost
/// and salt that the hash names and compares; an unreadable hash is an
/// error, described as `BcryptError` displays it.
#[verifier::external_body]
fn bcrypt_verify(password: &str, hash: &str) -> (res: Result<bool, String>)
    ensures
        match res {
            Ok(b) => bcrypt_check(password_bytes(password@), hash@) == Ok::<bool, Seq<char>>(b),
            Err(m) => bcrypt_check(password_bytes(password@), hash@) == Err::<bool, Seq<char>>(m@),
        },
{
    bcrypt::verify(password, hash).map_err(|e| e.to_string())
}

/// The work factors that bcrypt accepts.
pub open spec fn cost_allowed(cost: u32) -> bool {
    4 <= cost <= 31
}

/// How a bcrypt hash of the given cost begins: the `2b` version and the
/// cost in two digits, each between `$` signs.
pub open spec fn bcrypt_prefix(cost: u32) -> Seq<char> {
    "$2b$"@ + seq![digit_char((cost / 10) as int), digit_char((cost % 10) as int)] + "$"@
}

/// The description of a failure to draw a salt from the system's random
/// source.
pub open spec fn is_random_source_failure(m: Seq<char>) -> bool {
    m.len() >= 12 && m.subrange(0, 12) == "Rand error: "@
}

/// The description of a refused work factor.
pub open spec fn cost_refusal(cost: u32) -> Seq<char> {
    "Cost needs to be between 4 and 31, got "@ + natural_text(cost as nat)
}

/// `bcrypt::hash(password, cost)` with a random salt drawn from the system.
/// It fails where the salt cannot be drawn (`Rand error: ...`) and, after
/// that, where the cost is outside 4 to 31; otherwise it writes a hash of 60
/// characters that begins with `$2b$`, the cost in two digits and `$`. A
/// hash it writes is one that `bcrypt::verify` accepts for the same
/// password: verification re-hashes with the cost and salt written into the
/// hash. Nothing else is stated of the hash, which depends on the salt.
#[verifier::external_body]
fn bcrypt_hash(password: &str, cost: u32) -> (res: Result<String, String>)
    ensures
        res matches Ok(h) ==> hash_accepts(h@, password@),
        res matches Ok(h) ==> cost_allowed(cost) && h@.len() == 60 && h@.subrange(0, 7) == bcrypt_prefix(cost),
        res matches Err(m) ==> is_random_source_failure(m@) || (!cost_allowed(cost) && m@ == cost_refusal(cost)),
        !cost_allowed(cost) ==> res is Err,
{
    bcrypt::hash(password, cost).map_err(|e| e.to_string())
}

/// Hashes a password for storage, with the default cost. It fails only
/// where no salt can be drawn from the system's random source.
pub fn hash_password(password: &str) -> (res: Result<String, AppError>)
    ensures
        res matches Ok(h) ==> hash_accepts(h@, password@),
        res matches Ok(h) ==> h@.len() == 60 && h@.subrange(0, 7) == "$2b$12$"@,
        res matches Err(e) ==> e matches AppError::BcryptError(m) && is_random_source_failure(m@),
{
    proof {
        reveal_strlit("$2b$");
        reveal_strlit("$");
        reveal_strlit("$2b$12$");
        assert(bcrypt_prefix(DEFAULT_COST) =~= "$2b$12$"@);
    }
    match bcrypt_hash(password, DEFAULT_COST) {
        Ok(h) => Ok(h),
        Err(m) => Err(AppError::BcryptError(m)),
    }
}

/// Checks a password against a stored hash.
pub fn password_matches(password: &str, hash: &str) -> (res: Result<bool, AppError>)
    ensures
        match bcrypt_check(password_bytes(password@), hash@) {
            Ok(b) => res == Ok::<bool, AppError>(b),
            Err(m) => res matches Err(e) && e matches AppError::BcryptError(t) && t@ == m,
        },
{
    match bcrypt_verify(password, hash) {
        Ok(b) => Ok(b),
        Err(m) => Err(AppError::BcryptError(m)),
    }
}

} // verus!
