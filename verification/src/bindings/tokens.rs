//! Signed tokens, written and read by `jsonwebtoken`.
//!
//! Nothing in this file is proved: each contract states what the named
//! function of the other crate is relied upon to do.

use crate::utilities::claims::{AdminClaims, AdminClaimsFields, UserClaims, UserClaimsFields};
use vstd::prelude::*;

verus! {

/// `jsonwebtoken::errors::Error`, carried through as an opaque value.
#[verifier::external_type_specification]
#[verifier::external_body]
pub struct ExTokenError(jsonwebtoken::errors::Error);

/// The token that `jsonwebtoken` signs with `secret` for an administrator's
/// claims. It stands for what `sign_admin_claims` returns.
pub uninterp spec fn admin_token_text(token: Seq<char>, exp: int, secret: Seq<char>) -> Seq<char>;

/// The token that `jsonwebtoken` signs with `secret` for a member's claims.
/// It stands for what `sign_user_claims` returns.
pub uninterp spec fn user_token_text(
    username: Seq<char>,
    email: Seq<char>,
    verified: bool,
    exp: int,
    secret: Seq<char>,
) -> Seq<char>;

/// Calls `jsonwebtoken::encode` with the default header on the claims
/// `token` and `exp`, under the key made from `secret`. The contract claims
/// that a token is handed back and that it is a function of claims and
/// secret, named `admin_token_text`: the default header asks for an HMAC,
/// the key is an HMAC key, an object of a text and a number is always
/// written as JSON, and an HMAC signs under any key.
#[verifier::external_body]
pub(crate) fn sign_admin_claims(claims: &AdminClaims, secret: &str) -> (signed: Result<
    String,
    jsonwebtoken::errors::Error,
>)
    ensures
        signed is Ok,
        signed matches Ok(text) ==> text@ == admin_token_text(
            claims.token@,
            claims.exp as int,
            secret@,
        ),
{
    let mut payload = serde_json::Map::new();
    payload.insert("token".to_string(), serde_json::Value::from(claims.token.as_str()));
    payload.insert("exp".to_string(), serde_json::Value::from(claims.exp));
    let key = jsonwebtoken::EncodingKey::from_secret(secret.as_bytes());
    jsonwebtoken::encode(&jsonwebtoken::Header::default(), &payload, &key)
}

/// Calls `jsonwebtoken::encode` with the default header on the claims
/// `username`, `email`, `verified` and `exp`, under the key made from
/// `secret`. The contract claims that a token is handed back and that it is
/// a function of claims and secret, named `user_token_text`: the default
/// header asks for an HMAC, the key is an HMAC key, an object of texts, a
/// truth value and a number is always written as JSON, and an HMAC signs
/// under any key.
#[verifier::external_body]
pub(crate) fn sign_user_claims(claims: &UserClaims, secret: &str) -> (signed: Result<
    String,
    jsonwebtoken::errors::Error,
>)
    ensures
        signed is Ok,
        signed matches Ok(text) ==> text@ == user_token_text(
            claims.username@,
            claims.email@,
            claims.verified,
            claims.exp as int,
            secret@,
        ),
{
    let mut payload = serde_json::Map::new();
    payload.insert("username".to_string(), serde_json::Value::from(claims.username.as_str()));
    payload.insert("email".to_string(), serde_json::Value::from(claims.email.as_str()));
    payload.insert("verified".to_string(), serde_json::Value::from(claims.verified));
    payload.insert("exp".to_string(), serde_json::Value::from(claims.exp));
    let key = jsonwebtoken::EncodingKey::from_secret(secret.as_bytes());
    jsonwebtoken::encode(&jsonwebtoken::Header::default(), &payload, &key)
}

/// Calls `jsonwebtoken::decode` with the default validation under the key
/// made from `secret`, and picks the claims `token` and `exp` out of the
/// payload. The validation reads the clock, so nothing is claimed of the
/// outcome.
#[verifier::external_body]
pub(crate) fn read_admin_claims(token: &str, secret: &str) -> (read: Result<
    AdminClaimsFields,
    jsonwebtoken::errors::Error,
>) {
    let key = jsonwebtoken::DecodingKey::from_secret(secret.as_bytes());
    let validation = jsonwebtoken::Validation::default();
    let payload = jsonwebtoken::decode::<serde_json::Value>(token, &key, &validation)?.claims;
    Ok(AdminClaimsFields {
        token: payload.get("token").and_then(serde_json::Value::as_str).map(str::to_string),
        exp: payload.get("exp").and_then(serde_json::Value::as_u64),
    })
}

/// Calls `jsonwebtoken::decode` with the default validation under the key
/// made from `secret`, and picks the claims `username`, `email`, `verified`
/// and `exp` out of the payload. The validation reads the clock, so nothing
/// is claimed of the outcome.
#[verifier::external_body]
pub(crate) fn read_user_claims(token: &str, secret: &str) -> (read: Result<
    UserClaimsFields,
    jsonwebtoken::errors::Error,
>) {
    let key = jsonwebtoken::DecodingKey::from_secret(secret.as_bytes());
    let validation = jsonwebtoken::Validation::default();
    let payload = jsonwebtoken::decode::<serde_json::Value>(token, &key, &validation)?.claims;
    Ok(UserClaimsFields {
        username: payload.get("username").and_then(serde_json::Value::as_str).map(str::to_string),
        email: payload.get("email").and_then(serde_json::Value::as_str).map(str::to_string),
        verified: payload.get("verified").and_then(serde_json::Value::as_bool),
        exp: payload.get("exp").and_then(serde_json::Value::as_u64),
    })
}

} // verus!
