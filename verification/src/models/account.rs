//! Accounts: the sign-up request, its rules, and the stored record.

use crate::bindings::dates::rfc3339_millis;
use crate::models::conversion::{parse_date, ConversionError};
use crate::models::id::EntityId;
use crate::rules::{
    check_member_email, check_password, check_username, is_member_email, is_password,
    is_username, unless, Violation, note, verdict,
};
use vstd::prelude::*;

verus! {

/// A stored account.
#[derive(Debug)]
pub struct Account {
    pub _id: EntityId,
    pub username: String,
    pub email: String,
    /// The hash of the password, never the password.
    pub password: String,
    pub verified: bool,
    /// Milliseconds since the Unix epoch.
    pub date_created: i64,
}

pub struct AccountView {
    pub id: EntityId,
    pub username: Seq<char>,
    pub email: Seq<char>,
    pub password: Seq<char>,
    pub verified: bool,
    pub date_created: i64,
}

impl View for Account {
    type V = AccountView;

    open spec fn view(&self) -> AccountView {
        AccountView {
            id: self._id,
            username: self.username@,
            email: self.email@,
            password: self.password@,
            verified: self.verified,
            date_created: self.date_created,
        }
    }
}

/// An account as it travels: the sign-up request, and the listing entry.
#[derive(Debug)]
pub struct AccountRequest {
    pub username: String,
    pub email: String,
    pub password: String,
    pub verified: bool,
    /// An RFC 3339 date-time.
    pub date_created: String,
}

pub struct AccountRequestView {
    pub username: Seq<char>,
    pub email: Seq<char>,
    pub password: Seq<char>,
    pub verified: bool,
    pub date_created: Seq<char>,
}

impl View for AccountRequest {
    type V = AccountRequestView;

    open spec fn view(&self) -> AccountRequestView {
        AccountRequestView {
            username: self.username@,
            email: self.email@,
            password: self.password@,
            verified: self.verified,
            date_created: self.date_created@,
        }
    }
}

impl AccountRequestView {
    /// The rules that the request breaks, in the order of its fields, where
    /// `mailbox` names the club's own mailbox.
    pub open spec fn violations(self, mailbox: Seq<char>) -> Seq<Violation> {
        unless(is_username(self.username), Violation::Username) + unless(
            is_member_email(self.email, mailbox),
            Violation::Email,
        ) + unless(is_password(self.password), Violation::Password)
    }

    /// The request breaks no rule.
    pub open spec fn is_valid(self, mailbox: Seq<char>) -> bool {
        self.violations(mailbox).len() == 0
    }
}

impl AccountRequest {
    /// Holds the request to the rules of its fields: `Ok` where it breaks
    /// none, else every rule it breaks.
    pub fn validate(&self, mailbox: &str) -> (checked: Result<(), Vec<Violation>>)
        ensures
            checked is Ok <==> self@.is_valid(mailbox@),
            checked matches Err(found) ==> found@ == self@.violations(mailbox@),
    {
        let mut found: Vec<Violation> = Vec::new();
        note(&mut found, check_username(self.username.as_str()), Violation::Username);
        note(&mut found, check_member_email(self.email.as_str(), mailbox), Violation::Email);
        note(&mut found, check_password(self.password.as_str()), Violation::Password);
        assert(found@ =~= self@.violations(mailbox@));
        verdict(found)
    }
}

impl Account {
    /// The account that a request becomes under a given identity and creation
    /// instant: every field is taken over as it stands.
    pub open spec fn assembled(item: AccountRequestView, id: EntityId, date_created: i64)
        -> AccountView {
        AccountView {
            id,
            username: item.username,
            email: item.email,
            password: item.password,
            verified: item.verified,
            date_created,
        }
    }

    /// Builds the account from a request, an identity and the instant that
    /// the request's creation date denotes.
    pub fn from_parts(item: AccountRequest, id: EntityId, date_created: i64) -> (account: Account)
        ensures
            account@ == Self::assembled(item@, id, date_created),
    {
        Account {
            _id: id,
            username: item.username,
            email: item.email,
            password: item.password,
            verified: item.verified,
            date_created,
        }
    }

    /// Turns a request into the account with identity `id`. Fails exactly
    /// where the creation date is not an RFC 3339 date-time.
    pub fn convert(item: AccountRequest, id: EntityId) -> (converted: Result<
        Account,
        ConversionError,
    >)
        ensures
            match rfc3339_millis(item.date_created@) {
                Some(millis) => converted matches Ok(account) && account@ == Self::assembled(
                    item@,
                    id,
                    millis,
                ),
                None => converted is Err,
            },
    {
        match parse_date(item.date_created.as_str()) {
            Ok(millis) => Ok(Self::from_parts(item, id, millis)),
            Err(error) => Err(error),
        }
    }

    /// Turns a request into an account under a fresh identity. Fails exactly
    /// where the creation date is not an RFC 3339 date-time.
    pub fn try_from(item: AccountRequest) -> (converted: Result<Account, ConversionError>)
        ensures
            match rfc3339_millis(item.date_created@) {
                Some(millis) => converted matches Ok(account) && account._id.is_valid()
                    && account@ == Self::assembled(item@, account._id, millis),
                None => converted is Err,
            },
    {
        match parse_date(item.date_created.as_str()) {
            Ok(millis) => Ok(Self::from_parts(item, EntityId::fresh(), millis)),
            Err(error) => Err(error),
        }
    }
}

} // verus!
