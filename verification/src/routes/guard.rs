//! Who may pass: the checks on the token that a request carries.

use crate::bindings::tokens::{read_admin_claims, read_user_claims};
use crate::models::account::AccountView;
use crate::models::admin::Admin;
use crate::routes::reply::{Reply, Status};
use crate::services::credentials::{
    admin_claims_accepted, judge_admin_claims, matches_clear_secret, seconds_of,
    user_claims_at,
};
use crate::utilities::claims::{
    AdminClaims, AdminClaimsFields, AdminClaimsView, UserClaims, UserClaimsFields,
    UserClaimsView,
};
use vstd::prelude::*;

verus! {

/// Why a request may not pass. The cause is for the handler alone: the
/// answer to the client is the same for every cause.
#[derive(Clone, Copy, Debug, PartialEq, Eq, Structural)]
pub enum Denial {
    /// The request carries no token.
    Missing,
    /// The token could not be read: it is malformed, signed by another key,
    /// lapsed, or lacks a claim.
    Unreadable,
    /// The token was read and its claims are refused.
    Refused,
}

impl Denial {
    /// The status of the answer to a request that may not pass: the same
    /// whatever the cause.
    pub open spec fn status(self) -> Status {
        Status::Unauthorized
    }

    /// The words of the answer to a request that may not pass: the same
    /// whatever the cause, so that they do not tell which part of a check
    /// failed.
    pub open spec fn words(self) -> Seq<char> {
        "Invalid token"@
    }

    /// The answer to a request that may not pass.
    pub fn reply<T>(self) -> (reply: Reply<T>)
        ensures
            reply.says(self.status(), self.words()),
    {
        Reply::text(Status::Unauthorized, "Invalid token")
    }
}

/// Every request that may not pass is answered alike.
pub proof fn lemma_denials_answer_alike(one: Denial, other: Denial)
    ensures
        one.status() == other.status(),
        one.words() == other.words(),
{
}

/// A token as it was read; `None` where the reader refused it.
pub type Reading<T> = Option<T>;

/// Whether a member's claims are good at `now_ms`: they have not lapsed.
pub open spec fn user_claims_accepted(claims: UserClaimsView, now_ms: int) -> bool {
    seconds_of(now_ms) <= claims.exp
}

/// A member's token signed at an instant is accepted one second before 24
/// hours have passed and refused one second after.
pub proof fn lemma_user_token_lifetime(account: AccountView, signed_ms: int)
    requires
        user_claims_at(account, signed_ms) is Some,
    ensures
        ({
            let claims = user_claims_at(account, signed_ms)->0;
            &&& user_claims_accepted(claims, signed_ms + 24 * 3_600_000 - 1000)
            &&& !user_claims_accepted(claims, signed_ms + 24 * 3_600_000 + 1000)
        }),
{
}

/// What the check of a member's token comes to, given whether the request
/// carried one and how reading it went: it passes, with its claims, where
/// all of them were read and they have not lapsed at `now_ms`.
pub open spec fn user_pass(carried: bool, read: Reading<UserClaimsFields>, now_ms: int) -> Result<
    UserClaimsView,
    Denial,
> {
    if !carried {
        Err(Denial::Missing)
    } else {
        match read {
            Some(fields) => match fields.complete() {
                Some(claims) => if user_claims_accepted(claims, now_ms) {
                    Ok(claims)
                } else {
                    Err(Denial::Unreadable)
                },
                None => Err(Denial::Unreadable),
            },
            None => Err(Denial::Unreadable),
        }
    }
}

/// Decides on a member's token once it was read.
pub fn user_gate_with(carried: bool, read: Reading<UserClaimsFields>, now_ms: i64) -> (pass:
    Result<UserClaims, Denial>)
    ensures
        match user_pass(carried, read, now_ms as int) {
            Ok(claims) => pass matches Ok(held) && held@ == claims,
            Err(denial) => pass == Err::<UserClaims, Denial>(denial),
        },
{
    if !carried {
        return Err(Denial::Missing);
    }
    match read {
        Some(fields) => match fields.into_claims() {
            Some(claims) => {
                if now_ms < 0 || (now_ms / 1000) as u64 <= claims.exp as u64 {
                    Ok(claims)
                } else {
                    Err(Denial::Unreadable)
                }
            },
            None => Err(Denial::Unreadable),
        },
        None => Err(Denial::Unreadable),
    }
}

/// Checks the member's token that a request carries in its authorization
/// header. The reader holds the token against the clock, so which tokens
/// it reads is up to it. A request without a token never passes, and one
/// that passes carried claims that have not lapsed at `now_ms`.
pub fn user_gate(header: Option<&str>, secret: &str, now_ms: i64) -> (pass: Result<
    UserClaims,
    Denial,
>)
    ensures
        header is None ==> pass == Err::<UserClaims, Denial>(Denial::Missing),
        header is Some ==> pass != Err::<UserClaims, Denial>(Denial::Missing) && pass
            != Err::<UserClaims, Denial>(Denial::Refused),
        pass matches Ok(claims) ==> user_claims_accepted(claims@, now_ms as int),
{
    match header {
        Some(token) => {
            let read = match read_user_claims(token, secret) {
                Ok(fields) => Some(fields),
                Err(_) => None,
            };
            user_gate_with(true, read, now_ms)
        },
        None => Err(Denial::Missing),
    }
}

/// What the check of an administrator's token should come to, given
/// whether the request carried one and how reading it went: it passes,
/// with its claims, where the claims were read, have not lapsed at `now_ms`
/// and carry the secret that the record holds now.
pub open spec fn admin_pass(
    carried: bool,
    read: Reading<AdminClaimsFields>,
    current: Seq<char>,
    now_ms: int,
) -> Result<AdminClaimsView, Denial> {
    if !carried {
        Err(Denial::Missing)
    } else {
        match read {
            Some(fields) => match fields.complete() {
                Some(claims) => if admin_claims_accepted(claims, current, now_ms) {
                    Ok(claims)
                } else {
                    Err(Denial::Refused)
                },
                None => Err(Denial::Unreadable),
            },
            None => Err(Denial::Unreadable),
        }
    }
}

/// Decides on an administrator's token once it was read. Every refusal
/// that `admin_pass` names is made; a token that should pass does pass,
/// unless the hasher fails, and then it is refused.
pub fn admin_gate_with(
    carried: bool,
    read: Reading<AdminClaimsFields>,
    admin: &Admin,
    now_ms: i64,
) -> (pass: Result<AdminClaims, Denial>)
    ensures
        match admin_pass(carried, read, admin@.token, now_ms as int) {
            Err(denial) => pass == Err::<AdminClaims, Denial>(denial),
            Ok(claims) => (pass matches Ok(held) && held@ == claims) || pass == Err::<
                AdminClaims,
                Denial,
            >(Denial::Refused),
        },
{
    if !carried {
        return Err(Denial::Missing);
    }
    match read {
        Some(fields) => match fields.into_claims() {
            Some(claims) => {
                let read_claims = Some(claims);
                match judge_admin_claims(&read_claims, admin.token.as_str(), now_ms) {
                    Ok(true) => match read_claims {
                        Some(claims) => Ok(claims),
                        None => Err(Denial::Refused),
                    },
                    _ => Err(Denial::Refused),
                }
            },
            None => Err(Denial::Unreadable),
        },
        None => Err(Denial::Unreadable),
    }
}

/// Checks the administrator's token that a request carries. The reader
/// holds the token against the clock, so which tokens it reads is up to it.
/// A request without a token never passes, and one that passes carried
/// claims that have not lapsed at `now_ms` and hold the secret that the
/// record holds now.
pub fn admin_gate(header: Option<&str>, secret: &str, admin: &Admin, now_ms: i64) -> (pass:
    Result<AdminClaims, Denial>)
    ensures
        header is None ==> pass == Err::<AdminClaims, Denial>(Denial::Missing),
        header is Some ==> pass != Err::<AdminClaims, Denial>(Denial::Missing),
        pass matches Ok(claims) ==> admin_claims_accepted(
            claims@,
            admin@.token,
            now_ms as int,
        ),
{
    match header {
        Some(token) => {
            let read = match read_admin_claims(token, secret) {
                Ok(fields) => Some(fields),
                Err(_) => None,
            };
            admin_gate_with(true, read, admin, now_ms)
        },
        None => Err(Denial::Missing),
    }
}

/// Checks the secret that a request for an administrator's listing
/// carries: another text than the secret that the record holds now never
/// passes; the secret itself passes, unless the hasher fails.
pub fn listing_gate(token: &str, admin: &Admin) -> (pass: bool)
    ensures
        pass ==> token@ == admin@.token,
{
    match matches_clear_secret(token, admin.token.as_str()) {
        Ok(matches) => matches,
        Err(_) => false,
    }
}

} // verus!
