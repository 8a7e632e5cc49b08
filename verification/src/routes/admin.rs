//! The administrator's sign-in and the check of an administrator's token.

use crate::bindings::tokens::{admin_token_text, read_admin_claims, sign_admin_claims};
use crate::models::admin::{Admin, AdminView};
use crate::routes::guard::{admin_pass, Reading};
use crate::routes::reply::{Body, Reply, Status};
use crate::services::credentials::{
    admin_claims, admin_claims_at, fresh_secrets, is_admin_password, is_rotation_due,
    judge_admin_claims, matches_clear_secret, rotate_if_due, rotated, rotation_due,
    FreshSecrets,
};
use crate::services::db::{secrets_update, writes_secrets, Update};
use crate::utilities::claims::{AdminClaimsFields, Token};
use vstd::prelude::*;

verus! {

/// Whether an administrator's token, as it was read, is good at `now_ms`
/// against the secret that the record holds now: all its claims were read,
/// they have not lapsed, and they carry that secret.
pub open spec fn admin_token_is_good(
    read: Reading<AdminClaimsFields>,
    current: Seq<char>,
    now_ms: int,
) -> bool {
    admin_pass(true, read, current, now_ms) is Ok
}

/// A token whose claims are those signed at an instant for the record is
/// good 59 minutes later while the record still holds the secret, is not
/// good 61 minutes later, and is not good at any instant against a record
/// that holds another secret.
pub proof fn lemma_signed_token_is_good_for_an_hour(
    admin: AdminView,
    signed_ms: int,
    read: Reading<AdminClaimsFields>,
    later: AdminView,
    any_ms: int,
)
    requires
        admin_claims_at(admin, signed_ms) is Some,
        read matches Some(fields) && fields.complete() == admin_claims_at(admin, signed_ms),
    ensures
        admin_token_is_good(read, admin.token, signed_ms + 59 * 60_000),
        !admin_token_is_good(read, admin.token, signed_ms + 61 * 60_000),
        later.token != admin.token ==> !admin_token_is_good(read, later.token, any_ms),
{
}

/// Tells whether an administrator's token is good, once it was read. The
/// answer is a truth value and nothing else: `false` for every token that
/// is not good, whatever it lacks, so that the answer does not tell why;
/// `true` for a good one, unless the hasher fails, and then `false` too.
pub fn verify_admin_with(read: Reading<AdminClaimsFields>, admin: &Admin, now_ms: i64) -> (reply:
    Reply<bool>)
    ensures
        !admin_token_is_good(read, admin@.token, now_ms as int) ==> reply.carries(false),
        reply.carries(true) || reply.carries(false),
{
    let accepted = match read {
        Some(fields) => match fields.into_claims() {
            Some(claims) => {
                let read_claims = Some(claims);
                match judge_admin_claims(&read_claims, admin.token.as_str(), now_ms) {
                    Ok(accepted) => accepted,
                    Err(_) => false,
                }
            },
            None => false,
        },
        None => false,
    };
    Reply::json(accepted)
}

/// Tells whether the administrator's token of a request is good. The
/// reader holds the token against the clock, so which tokens it reads is
/// up to it; the answer is a truth value whatever it read, and the same for
/// every token that is not good.
pub fn verify_admin(request: &Token, secret: &str, admin: &Admin, now_ms: i64) -> (reply: Reply<
    bool,
>)
    ensures
        reply.carries(true) || reply.carries(false),
{
    let read = match read_admin_claims(request.token.as_str(), secret) {
        Ok(fields) => Some(fields),
        Err(_) => None,
    };
    verify_admin_with(read, admin, now_ms)
}

/// What a sign-in came to: whether the secrets were replaced on the way,
/// what to write to the store if they were, and the answer.
#[derive(Debug)]
pub struct AdminSignIn {
    pub replaced: bool,
    pub update: Option<Update>,
    pub reply: Reply<Token>,
}

/// The answer carries the administrator's token signed for `admin` at
/// `now_ms` under `secret`.
pub open spec fn carries_admin_token(
    reply: Reply<Token>,
    admin: AdminView,
    secret: Seq<char>,
    now_ms: int,
) -> bool {
    &&& admin_claims_at(admin, now_ms) is Some
    &&& reply.status == Status::Success
    &&& reply.body matches Body::Json { value }
    &&& value.token@ == admin_token_text(
        admin.token,
        admin_claims_at(admin, now_ms)->0.exp,
        secret,
    )
}

/// The answer to a sign-in with the record's password: the token that
/// carries the record's secret and lasts one hour, or a server error where
/// the clock is out of range.
pub open spec fn answers_admin_token(
    reply: Reply<Token>,
    admin: AdminView,
    secret: Seq<char>,
    now_ms: int,
) -> bool {
    match admin_claims_at(admin, now_ms) {
        Some(_) => carries_admin_token(reply, admin, secret, now_ms),
        None => reply.says(Status::InternalServerError, "Clock out of range."@),
    }
}

/// Answers a sign-in whose password was found to be the record's: makes
/// the claims from the record as it stands, signs them, and hands the token
/// out.
pub fn admin_token_reply(admin: &Admin, secret: &str, now_ms: i64) -> (reply: Reply<Token>)
    ensures
        answers_admin_token(reply, admin@, secret@, now_ms as int),
{
    match admin_claims(admin, now_ms) {
        Some(claims) => match sign_admin_claims(&claims, secret) {
            Ok(token) => Reply::json(Token { token }),
            Err(_) => Reply::text(Status::InternalServerError, "Error signing token."),
        },
        None => Reply::text(Status::InternalServerError, "Clock out of range."),
    }
}

/// Signs the administrator in against the record as it stands: a password
/// that is not the record's is answered with an empty text, the record's
/// password as `admin_token_reply` answers it. Only for the record's
/// password may the hasher fail, and then the answer is a server error.
pub fn admin_sign_in_as(admin: &Admin, supplied: &str, secret: &str, now_ms: i64) -> (reply:
    Reply<Token>)
    ensures
        if supplied@ == admin@.password {
            answers_admin_token(reply, admin@, secret@, now_ms as int) || reply.says(
                Status::InternalServerError,
                "Failed to check password."@,
            )
        } else {
            reply.says_json(Status::Success, ""@)
        },
{
    match matches_clear_secret(supplied, admin.password.as_str()) {
        Ok(true) => admin_token_reply(admin, secret, now_ms),
        Ok(false) => Reply::json_text(Status::Success, ""),
        Err(_) => Reply::text(Status::InternalServerError, "Failed to check password."),
    }
}

/// Signs the administrator in at `now_ms`, given the fresh secrets drawn
/// for the case that the record's are stale. Stale secrets are replaced
/// first, all at once, and the sign-in is then held against the new ones
/// and answered from the new record; what comes back says what to write to
/// the store. Where the secrets are stale and no fresh ones could be drawn,
/// nobody is signed in and nothing changes.
pub fn admin_sign_in_with(
    admin: &mut Admin,
    fresh: Option<FreshSecrets>,
    supplied: &str,
    secret: &str,
    now_ms: i64,
) -> (outcome: AdminSignIn)
    ensures
        outcome.replaced == (rotation_due(old(admin)@.last_reset as int, now_ms as int)
            && fresh is Some),
        outcome.replaced ==> final(admin)@ == rotated(
            old(admin)@,
            fresh->0.token@,
            fresh->0.password@,
            now_ms,
        ),
        !outcome.replaced ==> *final(admin) == *old(admin),
        match outcome.update {
            Some(made) => outcome.replaced && writes_secrets(made, final(admin)@),
            None => !outcome.replaced,
        },
        rotation_due(old(admin)@.last_reset as int, now_ms as int) && fresh is None
            ==> outcome.reply.says(
            Status::InternalServerError,
            "Failed to replace the credentials."@,
        ),
        !(rotation_due(old(admin)@.last_reset as int, now_ms as int) && fresh is None)
            ==> if supplied@ == final(admin)@.password {
            answers_admin_token(outcome.reply, final(admin)@, secret@, now_ms as int)
                || outcome.reply.says(Status::InternalServerError, "Failed to check password."@)
        } else {
            outcome.reply.says_json(Status::Success, ""@)
        },
{
    let mut replaced = false;
    let mut update: Option<Update> = None;
    if is_rotation_due(admin.last_reset, now_ms) {
        match fresh {
            Some(secrets) => {
                replaced = rotate_if_due(admin, secrets, now_ms);
                update = Some(secrets_update(admin));
            },
            None => {
                return AdminSignIn {
                    replaced: false,
                    update: None,
                    reply: Reply::text(
                        Status::InternalServerError,
                        "Failed to replace the credentials.",
                    ),
                };
            },
        }
    }
    let reply = admin_sign_in_as(admin, supplied, secret, now_ms);
    AdminSignIn { replaced, update, reply }
}

/// Signs the administrator in at `now_ms`. Where the record's secrets are
/// stale, fresh ones are drawn first, the password at most `tries` times:
/// a token of 36 characters and a password such as a rotation gives, set
/// together with `now_ms` as the reset instant. Secrets that are not stale
/// are never replaced.
pub fn admin_sign_in(admin: &mut Admin, supplied: &str, secret: &str, now_ms: i64, tries: u32) -> (
    outcome: AdminSignIn)
    ensures
        !rotation_due(old(admin)@.last_reset as int, now_ms as int) ==> !outcome.replaced,
        outcome.replaced ==> {
            &&& final(admin)@.id == old(admin)@.id
            &&& final(admin)@.last_reset == now_ms
            &&& is_admin_password(final(admin)@.password)
            &&& final(admin)@.token.len() == 36
        },
        !outcome.replaced ==> *final(admin) == *old(admin),
        match outcome.update {
            Some(made) => outcome.replaced && writes_secrets(made, final(admin)@),
            None => !outcome.replaced,
        },
        rotation_due(old(admin)@.last_reset as int, now_ms as int) && !outcome.replaced
            ==> outcome.reply.says(
            Status::InternalServerError,
            "Failed to replace the credentials."@,
        ),
        !rotation_due(old(admin)@.last_reset as int, now_ms as int) || outcome.replaced
            ==> if supplied@ == final(admin)@.password {
            answers_admin_token(outcome.reply, final(admin)@, secret@, now_ms as int)
                || outcome.reply.says(Status::InternalServerError, "Failed to check password."@)
        } else {
            outcome.reply.says_json(Status::Success, ""@)
        },
{
    let fresh = if is_rotation_due(admin.last_reset, now_ms) {
        fresh_secrets(tries)
    } else {
        None
    };
    admin_sign_in_with(admin, fresh, supplied, secret, now_ms)
}

} // verus!
