//! Credentials: hashing and checking secrets, issuing and checking token
//! claims, and replacing the administrator's secrets when they are stale.

use crate::bindings::hashing::{
    bcrypt_error_text, bcrypt_verdict, hash_password, verify_password,
};
use crate::bindings::identity::fresh_uuid_text;
use crate::bindings::strength::{
    generate_password, password_score, random_between, strength_score,
};
use crate::models::account::{Account, AccountView};
use crate::models::admin::{Admin, AdminView};
use crate::text::same_text;
use crate::utilities::claims::{AdminClaims, AdminClaimsView, UserClaims, UserClaimsView};
use vstd::prelude::*;

verus! {

/// How long a member's token lasts: 24 hours, in seconds.
pub const USER_TOKEN_SECONDS: usize = 86_400;

/// How long an administrator's token lasts: one hour, in seconds.
pub const ADMIN_TOKEN_SECONDS: usize = 3_600;

/// How long the administrator's secrets last: six hours, in milliseconds.
pub const ROTATION_WINDOW_MS: i64 = 21_600_000;

/// The least score that a drawn password must reach.
pub const STRENGTH_FLOOR: u8 = 90;

/// The shortest password that a rotation draws.
pub const PASSWORD_LENGTH_MIN: usize = 30;

/// The longest password that a rotation draws.
pub const PASSWORD_LENGTH_MAX: usize = 45;

/// Why a credential could not be made or checked: the words of the failure.
#[derive(Debug)]
pub struct CredentialError {
    pub message: String,
}

/// The whole seconds of an instant given in milliseconds since the Unix
/// epoch.
pub open spec fn seconds_of(now_ms: int) -> int {
    now_ms / 1000
}

/// When a token signed at `now_ms` lapses if it lasts `lifetime` seconds;
/// `None` where the instant lies before the epoch or the expiry does not fit
/// the machine.
pub open spec fn expiry(now_ms: int, lifetime: int) -> Option<int> {
    if 0 <= now_ms && seconds_of(now_ms) + lifetime <= usize::MAX {
        Some(seconds_of(now_ms) + lifetime)
    } else {
        None
    }
}

/// Computes `expiry`.
pub fn expiry_after(now_ms: i64, lifetime: usize) -> (exp: Option<usize>)
    ensures
        match expiry(now_ms as int, lifetime as int) {
            Some(at) => exp == Some(at as usize),
            None => exp is None,
        },
{
    if now_ms < 0 {
        return None;
    }
    let seconds: u64 = (now_ms / 1000) as u64;
    if seconds > usize::MAX as u64 {
        return None;
    }
    (seconds as usize).checked_add(lifetime)
}

/// The claims of a member's token signed at `now_ms`.
pub open spec fn user_claims_at(account: AccountView, now_ms: int) -> Option<UserClaimsView> {
    match expiry(now_ms, USER_TOKEN_SECONDS as int) {
        Some(exp) => Some(
            UserClaimsView {
                username: account.username,
                email: account.email,
                verified: account.verified,
                exp,
            },
        ),
        None => None,
    }
}

/// The claims of an administrator's token signed at `now_ms`: the secret
/// that the record holds at that instant, good for one hour.
pub open spec fn admin_claims_at(admin: AdminView, now_ms: int) -> Option<AdminClaimsView> {
    match expiry(now_ms, ADMIN_TOKEN_SECONDS as int) {
        Some(exp) => Some(AdminClaimsView { token: admin.token, exp }),
        None => None,
    }
}

/// Makes the claims of a member's token signed at `now_ms`.
pub fn user_claims(account: &Account, now_ms: i64) -> (claims: Option<UserClaims>)
    ensures
        match user_claims_at(account@, now_ms as int) {
            Some(view) => claims matches Some(made) && made@ == view,
            None => claims is None,
        },
{
    match expiry_after(now_ms, USER_TOKEN_SECONDS) {
        Some(exp) => Some(
            UserClaims {
                username: account.username.clone(),
                email: account.email.clone(),
                verified: account.verified,
                exp,
            },
        ),
        None => None,
    }
}

/// Makes the claims of an administrator's token signed at `now_ms`.
pub fn admin_claims(admin: &Admin, now_ms: i64) -> (claims: Option<AdminClaims>)
    ensures
        match admin_claims_at(admin@, now_ms as int) {
            Some(view) => claims matches Some(made) && made@ == view,
            None => claims is None,
        },
{
    match expiry_after(now_ms, ADMIN_TOKEN_SECONDS) {
        Some(exp) => Some(AdminClaims { token: admin.token.clone(), exp }),
        None => None,
    }
}

/// Whether an administrator's claims are good at `now_ms` against the
/// secret that the record holds now: they have not lapsed, and they carry
/// that very secret.
pub open spec fn admin_claims_accepted(claims: AdminClaimsView, current: Seq<char>, now_ms: int)
    -> bool {
    seconds_of(now_ms) <= claims.exp && claims.token == current
}

/// How every hash for storage is written: 60 characters, of which the
/// first seven name the scheme and the cost, 12; the salt and the digest
/// follow.
pub open spec fn is_hash_text(hash: Seq<char>) -> bool {
    hash.len() == 60 && hash.subrange(0, 7) == "$2b$12$"@
}

/// Hashes a password for storage, salted afresh, at cost 12. What comes
/// back is a hash text that matches the password. Fails only where the
/// hasher's source of random salt does.
pub fn hash_secret(password: &str) -> (hashed: Result<String, CredentialError>)
    ensures
        hashed matches Ok(hash) ==> is_hash_text(hash@) && bcrypt_verdict(password@, hash@)
            == Some(true),
{
    match hash_password(password) {
        Ok(hash) => Ok(hash),
        Err(error) => Err(CredentialError { message: bcrypt_error_text(&error) }),
    }
}

/// Checks a password against a stored hash. Fails exactly where the hash is
/// no hash.
pub fn check_secret(password: &str, hash: &str) -> (checked: Result<bool, CredentialError>)
    ensures
        match bcrypt_verdict(password@, hash@) {
            Some(matches) => checked matches Ok(found) && found == matches,
            None => checked is Err,
        },
{
    match verify_password(password, hash) {
        Ok(matches) => Ok(matches),
        Err(error) => Err(CredentialError { message: bcrypt_error_text(&error) }),
    }
}

/// Compares a candidate with a secret that is kept in the clear. A
/// candidate that is another text is refused at once. One that is the same
/// text is then checked the way a stored hash would be: the secret is
/// hashed afresh and the candidate held against that hash. The answer is
/// whether the two are the same text; it fails only where the hasher does,
/// and only for a candidate that is the same text.
pub fn matches_clear_secret(candidate: &str, secret: &str) -> (checked: Result<
    bool,
    CredentialError,
>)
    ensures
        checked matches Ok(found) ==> found == (candidate@ == secret@),
        candidate@ != secret@ ==> checked is Ok,
{
    if !same_text(candidate, secret) {
        return Ok(false);
    }
    let hash = match hash_secret(secret) {
        Ok(hash) => hash,
        Err(error) => {
            return Err(error);
        },
    };
    check_secret(candidate, hash.as_str())
}

/// Whether secrets last replaced at `last_reset_ms` are stale at `now_ms`:
/// more than six hours have passed.
pub open spec fn rotation_due(last_reset_ms: int, now_ms: int) -> bool {
    now_ms - last_reset_ms > ROTATION_WINDOW_MS as int
}

/// Decides `rotation_due`.
pub fn is_rotation_due(last_reset_ms: i64, now_ms: i64) -> (due: bool)
    ensures
        due == rotation_due(last_reset_ms as int, now_ms as int),
{
    match now_ms.checked_sub(last_reset_ms) {
        Some(elapsed) => elapsed > ROTATION_WINDOW_MS,
        None => now_ms > last_reset_ms,
    }
}

/// The administrator's record after its secrets were replaced at `now_ms`.
pub open spec fn rotated(admin: AdminView, token: Seq<char>, password: Seq<char>, now_ms: i64)
    -> AdminView {
    AdminView { id: admin.id, token, password, last_reset: now_ms }
}

/// Replaces token, password and reset instant in one step.
pub fn rotate(admin: &mut Admin, token: String, password: String, now_ms: i64)
    ensures
        final(admin)@ == rotated(old(admin)@, token@, password@, now_ms),
{
    admin.token = token;
    admin.password = password;
    admin.last_reset = now_ms;
}

/// What a password generator is asked for.
#[derive(Debug)]
pub struct PasswordPolicy {
    pub length: usize,
    pub numbers: bool,
    pub lowercase_letters: bool,
    pub uppercase_letters: bool,
    pub symbols: bool,
    pub spaces: bool,
    pub exclude_similar_characters: bool,
    /// Every class that is switched on must occur.
    pub strict: bool,
}

/// A class of characters that a password is drawn from.
#[derive(Clone, Copy, Debug)]
pub enum CharClass {
    Number,
    Lowercase,
    Uppercase,
    Symbol,
    Space,
}

impl CharClass {
    /// Membership of `c` in the class.
    pub open spec fn holds(self, c: char) -> bool {
        match self {
            CharClass::Number => '0' <= c <= '9',
            CharClass::Lowercase => 'a' <= c <= 'z',
            CharClass::Uppercase => 'A' <= c <= 'Z',
            CharClass::Symbol => ('!' <= c <= '/') || (':' <= c <= '@') || ('[' <= c <= '`') || (
            '{' <= c <= '~'),
            CharClass::Space => c == ' ',
        }
    }

    /// Some character of the password belongs to the class.
    pub open spec fn occurs_in(self, password: Seq<char>) -> bool {
        exists|i: int| 0 <= i < password.len() && self.holds(#[trigger] password[i])
    }
}

/// The characters that are easily taken for one another.
pub open spec fn is_look_alike(c: char) -> bool {
    c == 'i' || c == 'I' || c == '1' || c == 'l' || c == 'o' || c == 'O' || c == '0' || c == '"'
        || c == '\'' || c == '`' || c == '|'
}

impl PasswordPolicy {
    /// Whether the policy switches a class on.
    pub open spec fn uses(self, class: CharClass) -> bool {
        match class {
            CharClass::Number => self.numbers,
            CharClass::Lowercase => self.lowercase_letters,
            CharClass::Uppercase => self.uppercase_letters,
            CharClass::Symbol => self.symbols,
            CharClass::Space => self.spaces,
        }
    }

    /// Whether a password may hold the character: it belongs to a class
    /// that is switched on, and is no look-alike where those are left out.
    pub open spec fn allows(self, c: char) -> bool {
        &&& exists|class: CharClass| self.uses(class) && #[trigger] class.holds(c)
        &&& self.exclude_similar_characters ==> !is_look_alike(c)
    }

    /// Whether a password is what the policy asks for: it has the length,
    /// holds only characters that the policy allows, and under strictness
    /// holds at least one character of every class that is switched on.
    pub open spec fn met_by(self, password: Seq<char>) -> bool {
        &&& password.len() == self.length
        &&& forall|i: int| 0 <= i < password.len() ==> self.allows(#[trigger] password[i])
        &&& self.strict ==> forall|class: CharClass|
            self.uses(class) ==> #[trigger] class.occurs_in(password)
    }

    /// The policy for the administrator's password: every class, no
    /// look-alike characters, strict.
    pub open spec fn admin(length: usize) -> PasswordPolicy {
        PasswordPolicy {
            length,
            numbers: true,
            lowercase_letters: true,
            uppercase_letters: true,
            symbols: true,
            spaces: true,
            exclude_similar_characters: true,
            strict: true,
        }
    }

    /// The policy for the administrator's password.
    pub fn for_admin(length: usize) -> (policy: PasswordPolicy)
        ensures
            policy == Self::admin(length),
    {
        PasswordPolicy {
            length,
            numbers: true,
            lowercase_letters: true,
            uppercase_letters: true,
            symbols: true,
            spaces: true,
            exclude_similar_characters: true,
            strict: true,
        }
    }
}

/// A password is strong enough for the administrator.
pub open spec fn is_strong(password: Seq<char>) -> bool {
    strength_score(password) >= STRENGTH_FLOOR
}

/// Whether a score reaches the floor.
pub fn reaches_floor(score: u8) -> (enough: bool)
    ensures
        enough == (score >= STRENGTH_FLOOR),
{
    score >= STRENGTH_FLOOR
}

/// A password as a rotation gives the administrator: 30 to 45 characters
/// long, of every class and without look-alikes as the administrator's
/// policy asks, and strong enough.
pub open spec fn is_admin_password(password: Seq<char>) -> bool {
    &&& PASSWORD_LENGTH_MIN <= password.len() <= PASSWORD_LENGTH_MAX
    &&& PasswordPolicy::admin(password.len() as usize).met_by(password)
    &&& is_strong(password)
}

/// Draws passwords of `length` characters under the administrator's policy
/// until one is strong enough, at most `tries` times. A password that
/// comes back is what the policy asks for at that length and reaches the
/// floor; which one it is, and whether any of the draws did, is up to
/// chance. `None` where none of them did, or the generator refused.
pub fn strong_password(length: usize, tries: u32) -> (password: Option<String>)
    ensures
        password matches Some(found) ==> is_strong(found@) && PasswordPolicy::admin(
            length,
        ).met_by(found@),
        tries == 0 ==> password is None,
{
    let policy = PasswordPolicy::for_admin(length);
    let mut left: u32 = tries;
    while left > 0
        invariant
            left <= tries,
            policy == PasswordPolicy::admin(length),
        decreases left,
    {
        match generate_password(&policy) {
            Ok(candidate) => {
                if reaches_floor(password_score(candidate.as_str())) {
                    return Some(candidate);
                }
            },
            Err(_) => {
                return None;
            },
        }
        left -= 1;
    }
    None
}

/// A fresh pair of secrets for the administrator.
#[derive(Debug)]
pub struct FreshSecrets {
    pub token: String,
    pub password: String,
}

/// Draws a fresh pair of secrets: a random token of 36 characters, and a
/// password of a random length from 30 to 45 that holds every class of
/// characters and is strong enough, drawn at most `tries` times. `None`
/// where no draw was strong enough.
pub fn fresh_secrets(tries: u32) -> (secrets: Option<FreshSecrets>)
    ensures
        secrets matches Some(made) ==> is_admin_password(made.password@) && made.token@.len()
            == 36,
        tries == 0 ==> secrets is None,
{
    let length = random_between(PASSWORD_LENGTH_MIN, PASSWORD_LENGTH_MAX);
    match strong_password(length, tries) {
        Some(password) => Some(FreshSecrets { token: fresh_uuid_text(), password }),
        None => None,
    }
}

/// Replaces the administrator's secrets by `fresh` ones if they are stale
/// at `now_ms`, and says whether it did. Where they are not stale the
/// record stays as it is.
pub fn rotate_if_due(admin: &mut Admin, fresh: FreshSecrets, now_ms: i64) -> (replaced: bool)
    ensures
        replaced == rotation_due(old(admin)@.last_reset as int, now_ms as int),
        replaced ==> final(admin)@ == rotated(
            old(admin)@,
            fresh.token@,
            fresh.password@,
            now_ms,
        ),
        !replaced ==> *final(admin) == *old(admin),
{
    if is_rotation_due(admin.last_reset, now_ms) {
        rotate(admin, fresh.token, fresh.password, now_ms);
        true
    } else {
        false
    }
}

/// Once the secrets were replaced at an instant, they are not stale at
/// that instant: a second sign-in right after a rotation replaces nothing.
pub proof fn lemma_rotation_settles(
    admin: AdminView,
    token: Seq<char>,
    password: Seq<char>,
    now_ms: i64,
)
    ensures
        !rotation_due(rotated(admin, token, password, now_ms).last_reset as int, now_ms as int),
{
}

/// The judgement on an administrator's claims as they were read from a
/// token: claims that could not be read are refused, others are held
/// against the clock and the secret that the record holds now.
pub open spec fn admin_judgement(read: Option<AdminClaimsView>, current: Seq<char>, now_ms: int)
    -> bool {
    match read {
        Some(claims) => admin_claims_accepted(claims, current, now_ms),
        None => false,
    }
}

/// Judges an administrator's claims against the clock and the secret that
/// the record holds now. Claims that were not read, that have lapsed or
/// that carry another secret are refused at once; for the others the secret
/// is compared as a stored hash would be, and the judgement fails only
/// where the hasher does.
pub fn judge_admin_claims(read: &Option<AdminClaims>, current: &str, now_ms: i64) -> (judged:
    Result<bool, CredentialError>)
    ensures
        judged matches Ok(accepted) ==> accepted == admin_judgement(
            match read {
                Some(claims) => Some(claims@),
                None => None,
            },
            current@,
            now_ms as int,
        ),
        !admin_judgement(
            match read {
                Some(claims) => Some(claims@),
                None => None,
            },
            current@,
            now_ms as int,
        ) ==> judged is Ok,
{
    match read {
        Some(claims) => {
            let in_time = now_ms < 0 || (now_ms / 1000) as u64 <= claims.exp as u64;
            if !in_time {
                return Ok(false);
            }
            matches_clear_secret(claims.token.as_str(), current)
        },
        None => Ok(false),
    }
}

/// An administrator's token signed at an instant against a secret is
/// accepted 59 minutes later while the record still holds that secret, is
/// refused 61 minutes later, and is refused at any instant once the record
/// holds another secret.
pub proof fn lemma_admin_token_lifetime(
    admin: AdminView,
    signed_ms: int,
    later: AdminView,
    any_ms: int,
)
    requires
        admin_claims_at(admin, signed_ms) is Some,
    ensures
        ({
            let claims = admin_claims_at(admin, signed_ms)->0;
            &&& admin_claims_accepted(claims, admin.token, signed_ms + 59 * 60_000)
            &&& !admin_claims_accepted(claims, admin.token, signed_ms + 61 * 60_000)
            &&& later.token != admin.token ==> !admin_claims_accepted(claims, later.token, any_ms)
        }),
{
}

} // verus!
