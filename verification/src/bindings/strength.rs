//! Random passwords and their strength, from `passwords` and `rand`.
//!
//! Nothing in this file is proved: each contract states what the named
//! function of the other crate is relied upon to do.

use crate::services::credentials::PasswordPolicy;
use rand::Rng;
use vstd::prelude::*;

verus! {

/// The whole part of the score, from 0 to 100, that `passwords` gives a
/// password. It stands for what `password_score` returns.
pub uninterp spec fn strength_score(password: Seq<char>) -> u8;

/// Calls `rand::Rng::gen_range` on the thread's generator for the range
/// `low..=high`, which must not be empty. The contract claims that the
/// number lies in the range.
#[verifier::external_body]
pub(crate) fn random_between(low: usize, high: usize) -> (drawn: usize)
    requires
        low <= high,
    ensures
        low <= drawn <= high,
{
    rand::thread_rng().gen_range(low..=high)
}

/// Calls `passwords::PasswordGenerator::generate_one` with the policy's
/// settings. The password is random; the contract claims what the
/// generator documents and its source shows of every one, spelled out in
/// `PasswordPolicy::met_by`: it has the policy's length; each character is
/// picked from the pools of the classes that are switched on, which leave
/// the look-alikes out where the policy says so; and under strictness it is
/// drawn again until every such class occurs.
#[verifier::external_body]
pub(crate) fn generate_password(policy: &PasswordPolicy) -> (generated: Result<
    String,
    &'static str,
>)
    ensures
        generated matches Ok(password) ==> policy.met_by(password@),
{
    passwords::PasswordGenerator {
        length: policy.length,
        numbers: policy.numbers,
        lowercase_letters: policy.lowercase_letters,
        uppercase_letters: policy.uppercase_letters,
        symbols: policy.symbols,
        spaces: policy.spaces,
        exclude_similar_characters: policy.exclude_similar_characters,
        strict: policy.strict,
    }.generate_one()
}

/// Calls `passwords::analyzer::analyze` and `passwords::scorer::score`, and
/// hands back the whole part of the score. The contract claims only that it
/// is a function of the password, named `strength_score`.
#[verifier::external_body]
pub(crate) fn password_score(password: &str) -> (score: u8)
    ensures
        score == strength_score(password@),
{
    passwords::scorer::score(&passwords::analyzer::analyze(password)) as u8
}

} // verus!
