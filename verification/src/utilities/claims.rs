//! What a signed token asserts about its bearer.

use vstd::prelude::*;

verus! {

/// What a member's token asserts.
#[derive(Debug)]
pub struct UserClaims {
    pub username: String,
    pub email: String,
    pub verified: bool,
    /// When the token lapses, in seconds since the Unix epoch.
    pub exp: usize,
}

pub struct UserClaimsView {
    pub username: Seq<char>,
    pub email: Seq<char>,
    pub verified: bool,
    pub exp: int,
}

impl View for UserClaims {
    type V = UserClaimsView;

    open spec fn view(&self) -> UserClaimsView {
        UserClaimsView {
            username: self.username@,
            email: self.email@,
            verified: self.verified,
            exp: self.exp as int,
        }
    }
}

/// What an administrator's token asserts.
#[derive(Debug)]
pub struct AdminClaims {
    /// The administrator's secret at the time of signing in.
    pub token: String,
    /// When the token lapses, in seconds since the Unix epoch.
    pub exp: usize,
}

pub struct AdminClaimsView {
    pub token: Seq<char>,
    pub exp: int,
}

impl View for AdminClaims {
    type V = AdminClaimsView;

    open spec fn view(&self) -> AdminClaimsView {
        AdminClaimsView { token: self.token@, exp: self.exp as int }
    }
}

/// A signed token as it travels.
#[derive(Debug)]
pub struct Token {
    pub token: String,
}

/// The claims of a member's token as they were read from it: a claim that
/// is missing, or of another kind than expected, is `None`.
#[derive(Debug)]
pub struct UserClaimsFields {
    pub username: Option<String>,
    pub email: Option<String>,
    pub verified: Option<bool>,
    pub exp: Option<u64>,
}

/// The claims of an administrator's token as they were read from it: a
/// claim that is missing, or of another kind than expected, is `None`.
#[derive(Debug)]
pub struct AdminClaimsFields {
    pub token: Option<String>,
    pub exp: Option<u64>,
}

impl UserClaimsFields {
    /// The claims, where all four were read and the expiry fits the machine.
    pub open spec fn complete(self) -> Option<UserClaimsView> {
        match (self.username, self.email, self.verified, self.exp) {
            (Some(username), Some(email), Some(verified), Some(exp)) if exp <= usize::MAX => Some(
                UserClaimsView { username: username@, email: email@, verified, exp: exp as int },
            ),
            _ => None,
        }
    }

    /// The claims, where all four were read and the expiry fits the machine.
    pub fn into_claims(self) -> (claims: Option<UserClaims>)
        ensures
            match self.complete() {
                Some(view) => claims matches Some(read) && read@ == view,
                None => claims is None,
            },
    {
        match (self.username, self.email, self.verified, self.exp) {
            (Some(username), Some(email), Some(verified), Some(exp)) => {
                if exp <= usize::MAX as u64 {
                    Some(UserClaims { username, email, verified, exp: exp as usize })
                } else {
                    None
                }
            },
            _ => None,
        }
    }
}

impl AdminClaimsFields {
    /// The claims, where both were read and the expiry fits the machine.
    pub open spec fn complete(self) -> Option<AdminClaimsView> {
        match (self.token, self.exp) {
            (Some(token), Some(exp)) if exp <= usize::MAX => Some(
                AdminClaimsView { token: token@, exp: exp as int },
            ),
            _ => None,
        }
    }

    /// The claims, where both were read and the expiry fits the machine.
    pub fn into_claims(self) -> (claims: Option<AdminClaims>)
        ensures
            match self.complete() {
                Some(view) => claims matches Some(read) && read@ == view,
                None => claims is None,
            },
    {
        match (self.token, self.exp) {
            (Some(token), Some(exp)) => {
                if exp <= usize::MAX as u64 {
                    Some(AdminClaims { token, exp: exp as usize })
                } else {
                    None
                }
            },
            _ => None,
        }
    }
}

} // verus!
