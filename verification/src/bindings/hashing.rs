//! Password hashing, done by `bcrypt`.
//!
//! Nothing in this file is proved: each contract states what the named
//! function of the other crate is relied upon to do.

use crate::services::credentials::is_hash_text;
use vstd::prelude::*;

verus! {

/// `bcrypt::BcryptError`, carried through as an opaque value.
#[verifier::external_type_specification]
#[verifier::external_body]
pub struct ExBcryptError(bcrypt::BcryptError);

/// What `bcrypt::verify` answers for a password and a stored hash: whether the
/// password matches, or `None` where the hash text is refused. It stands for
/// what `verify_password` returns.
pub uninterp spec fn bcrypt_verdict(password: Seq<char>, hash: Seq<char>) -> Option<bool>;

/// Calls `bcrypt::hash` at `bcrypt::DEFAULT_COST`, which is 12. The salt is
/// random, so the hash is not named; the contract claims what the source
/// shows of every hash. It is written as `$2b$`, the cost in two digits,
/// `$`, 22 characters of salt and 31 of digest, 60 characters in all. And
/// `bcrypt::verify` accepts the password against it, since it repeats the
/// computation with the salt and cost that the hash text carries.
#[verifier::external_body]
pub(crate) fn hash_password(password: &str) -> (hashed: Result<String, bcrypt::BcryptError>)
    ensures
        hashed matches Ok(hash) ==> is_hash_text(hash@) && bcrypt_verdict(password@, hash@)
            == Some(true),
{
    bcrypt::hash(password, bcrypt::DEFAULT_COST)
}

/// Calls `bcrypt::verify`. The contract claims only that the outcome is a
/// function of the two texts, named `bcrypt_verdict`.
#[verifier::external_body]
pub(crate) fn verify_password(password: &str, hash: &str) -> (verdict: Result<
    bool,
    bcrypt::BcryptError,
>)
    ensures
        verdict matches Ok(matches) ==> bcrypt_verdict(password@, hash@) == Some(matches),
        verdict is Err ==> bcrypt_verdict(password@, hash@) is None,
{
    bcrypt::verify(password, hash)
}

/// The message that `bcrypt` prints for an error. Nothing is claimed of the
/// text.
#[verifier::external_body]
pub(crate) fn bcrypt_error_text(error: &bcrypt::BcryptError) -> (message: String) {
    error.to_string()
}

} // verus!
