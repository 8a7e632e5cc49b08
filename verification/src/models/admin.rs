//! The administrator: one record that holds the rotating secrets.

use crate::bindings::dates::rfc3339_millis;
use crate::bindings::identity::fresh_uuid_text;
use crate::models::conversion::{parse_date, ConversionError};
use crate::models::id::EntityId;
use vstd::prelude::*;

verus! {

/// The administrator's record.
#[derive(Debug)]
pub struct Admin {
    pub _id: EntityId,
    /// The secret that every administrator token is bound to.
    pub token: String,
    /// The password that unlocks a sign-in.
    pub password: String,
    /// When token and password were last replaced, in milliseconds since the
    /// Unix epoch.
    pub last_reset: i64,
}

pub struct AdminView {
    pub id: EntityId,
    pub token: Seq<char>,
    pub password: Seq<char>,
    pub last_reset: i64,
}

impl View for Admin {
    type V = AdminView;

    open spec fn view(&self) -> AdminView {
        AdminView {
            id: self._id,
            token: self.token@,
            password: self.password@,
            last_reset: self.last_reset,
        }
    }
}

/// The administrator's record as it travels.
#[derive(Debug)]
pub struct AdminRequest {
    pub token: String,
    pub password: String,
    /// An RFC 3339 date-time.
    pub last_reset: String,
}

pub struct AdminRequestView {
    pub token: Seq<char>,
    pub password: Seq<char>,
    pub last_reset: Seq<char>,
}

impl View for AdminRequest {
    type V = AdminRequestView;

    open spec fn view(&self) -> AdminRequestView {
        AdminRequestView {
            token: self.token@,
            password: self.password@,
            last_reset: self.last_reset@,
        }
    }
}

impl Admin {
    /// The record that a request becomes under a given identity, secret and
    /// instant: only the password is taken from the request.
    pub open spec fn assembled(
        item: AdminRequestView,
        id: EntityId,
        token: Seq<char>,
        last_reset: i64,
    ) -> AdminView {
        AdminView { id, token, password: item.password, last_reset }
    }

    /// Builds the record from a request, an identity, a secret and the
    /// instant that the request's date denotes.
    pub fn from_parts(item: AdminRequest, id: EntityId, token: String, last_reset: i64) -> (admin:
        Admin)
        ensures
            admin@ == Self::assembled(item@, id, token@, last_reset),
    {
        Admin { _id: id, token, password: item.password, last_reset }
    }

    /// Turns a request into the record with identity `id` and secret `token`.
    /// Fails exactly where the date is not an RFC 3339 date-time.
    pub fn convert(item: AdminRequest, id: EntityId, token: String) -> (converted: Result<
        Admin,
        ConversionError,
    >)
        ensures
            match rfc3339_millis(item.last_reset@) {
                Some(millis) => converted matches Ok(admin) && admin@ == Self::assembled(
                    item@,
                    id,
                    token@,
                    millis,
                ),
                None => converted is Err,
            },
    {
        match parse_date(item.last_reset.as_str()) {
            Ok(millis) => Ok(Self::from_parts(item, id, token, millis)),
            Err(error) => Err(error),
        }
    }

    /// Turns a request into a record under a fresh identity and a fresh
    /// secret, whatever secret the request carried. Fails exactly where the
    /// date is not an RFC 3339 date-time.
    pub fn try_from(item: AdminRequest) -> (converted: Result<Admin, ConversionError>)
        ensures
            match rfc3339_millis(item.last_reset@) {
                Some(millis) => converted matches Ok(admin) && admin._id.is_valid()
                    && admin@ == Self::assembled(item@, admin._id, admin.token@, millis),
                None => converted is Err,
            },
    {
        match parse_date(item.last_reset.as_str()) {
            Ok(millis) => Ok(Self::from_parts(item, EntityId::fresh(), fresh_uuid_text(), millis)),
            Err(error) => Err(error),
        }
    }
}

} // verus!
