//! Announcements: what the team posts for everyone.

use crate::bindings::dates::rfc3339_millis;
use crate::models::conversion::{parse_date, ConversionError};
use crate::models::id::EntityId;
use crate::rules::{
    check_system_email, check_team, is_system_email, is_team, unless, Violation, note, verdict,
};
use vstd::prelude::*;

verus! {

/// A stored announcement.
#[derive(Debug)]
pub struct Announcement {
    pub _id: EntityId,
    pub author: String,
    pub email: String,
    /// Milliseconds since the Unix epoch.
    pub date_created: i64,
    pub title: String,
    pub body: String,
}

pub struct AnnouncementView {
    pub id: EntityId,
    pub author: Seq<char>,
    pub email: Seq<char>,
    pub date_created: i64,
    pub title: Seq<char>,
    pub body: Seq<char>,
}

impl View for Announcement {
    type V = AnnouncementView;

    open spec fn view(&self) -> AnnouncementView {
        AnnouncementView {
            id: self._id,
            author: self.author@,
            email: self.email@,
            date_created: self.date_created,
            title: self.title@,
            body: self.body@,
        }
    }
}

/// An announcement as it travels, with its identity written out.
#[derive(Debug)]
pub struct AnnouncementRequest {
    pub id: String,
    pub author: String,
    pub email: String,
    /// An RFC 3339 date-time in a request, the store's own date text in a
    /// listing.
    pub date_created: String,
    pub title: String,
    pub body: String,
}

pub struct AnnouncementRequestView {
    pub id: Seq<char>,
    pub author: Seq<char>,
    pub email: Seq<char>,
    pub date_created: Seq<char>,
    pub title: Seq<char>,
    pub body: Seq<char>,
}

impl View for AnnouncementRequest {
    type V = AnnouncementRequestView;

    open spec fn view(&self) -> AnnouncementRequestView {
        AnnouncementRequestView {
            id: self.id@,
            author: self.author@,
            email: self.email@,
            date_created: self.date_created@,
            title: self.title@,
            body: self.body@,
        }
    }
}

/// What an administrator sends to post an announcement: no identity, and the
/// administrator's token.
#[derive(Debug)]
pub struct AnnouncementRequestRequest {
    pub author: String,
    pub email: String,
    /// An RFC 3339 date-time.
    pub date_created: String,
    pub title: String,
    pub body: String,
    pub token: String,
}

pub struct AnnouncementRequestRequestView {
    pub author: Seq<char>,
    pub email: Seq<char>,
    pub date_created: Seq<char>,
    pub title: Seq<char>,
    pub body: Seq<char>,
    pub token: Seq<char>,
}

impl View for AnnouncementRequestRequest {
    type V = AnnouncementRequestRequestView;

    open spec fn view(&self) -> AnnouncementRequestRequestView {
        AnnouncementRequestRequestView {
            author: self.author@,
            email: self.email@,
            date_created: self.date_created@,
            title: self.title@,
            body: self.body@,
            token: self.token@,
        }
    }
}

/// The rules that an announcement's author and address break: the author is
/// the team, the address the club's own mailbox named `mailbox`.
pub open spec fn signature_violations(author: Seq<char>, email: Seq<char>, mailbox: Seq<char>)
    -> Seq<Violation> {
    unless(is_team(author), Violation::Username) + unless(
        is_system_email(email, mailbox),
        Violation::Email,
    )
}

fn check_signature(author: &str, email: &str, mailbox: &str) -> (checked: Result<
    (),
    Vec<Violation>,
>)
    ensures
        checked is Ok <==> signature_violations(author@, email@, mailbox@).len() == 0,
        checked matches Err(found) ==> found@ == signature_violations(author@, email@, mailbox@),
{
    let mut found: Vec<Violation> = Vec::new();
    note(&mut found, check_team(author), Violation::Username);
    note(&mut found, check_system_email(email, mailbox), Violation::Email);
    assert(found@ =~= signature_violations(author@, email@, mailbox@));
    verdict(found)
}

impl AnnouncementRequestView {
    /// The rules that the request breaks, in the order of its fields.
    pub open spec fn violations(self, mailbox: Seq<char>) -> Seq<Violation> {
        signature_violations(self.author, self.email, mailbox)
    }

    /// The request breaks no rule.
    pub open spec fn is_valid(self, mailbox: Seq<char>) -> bool {
        self.violations(mailbox).len() == 0
    }
}

impl AnnouncementRequestRequestView {
    /// The rules that the request breaks, in the order of its fields.
    pub open spec fn violations(self, mailbox: Seq<char>) -> Seq<Violation> {
        signature_violations(self.author, self.email, mailbox)
    }

    /// The request breaks no rule.
    pub open spec fn is_valid(self, mailbox: Seq<char>) -> bool {
        self.violations(mailbox).len() == 0
    }
}

impl AnnouncementRequest {
    /// Holds the request to the rules of its fields: `Ok` where it breaks
    /// none, else every rule it breaks.
    pub fn validate(&self, mailbox: &str) -> (checked: Result<(), Vec<Violation>>)
        ensures
            checked is Ok <==> self@.is_valid(mailbox@),
            checked matches Err(found) ==> found@ == self@.violations(mailbox@),
    {
        check_signature(self.author.as_str(), self.email.as_str(), mailbox)
    }
}

impl AnnouncementRequestRequest {
    /// Holds the request to the rules of its fields: `Ok` where it breaks
    /// none, else every rule it breaks.
    pub fn validate(&self, mailbox: &str) -> (checked: Result<(), Vec<Violation>>)
        ensures
            checked is Ok <==> self@.is_valid(mailbox@),
            checked matches Err(found) ==> found@ == self@.violations(mailbox@),
    {
        check_signature(self.author.as_str(), self.email.as_str(), mailbox)
    }
}

impl Announcement {
    /// The announcement that a request becomes under a given identity and
    /// creation instant: the identity written in the request is left aside.
    pub open spec fn assembled(item: AnnouncementRequestView, id: EntityId, date_created: i64)
        -> AnnouncementView {
        AnnouncementView {
            id,
            author: item.author,
            email: item.email,
            date_created,
            title: item.title,
            body: item.body,
        }
    }

    /// Builds the announcement from a request, an identity and the instant
    /// that the request's creation date denotes.
    pub fn from_parts(item: AnnouncementRequest, id: EntityId, date_created: i64) -> (announcement:
        Announcement)
        ensures
            announcement@ == Self::assembled(item@, id, date_created),
    {
        Announcement {
            _id: id,
            author: item.author,
            email: item.email,
            date_created,
            title: item.title,
            body: item.body,
        }
    }

    /// Turns a request into the announcement with identity `id`. Fails
    /// exactly where the creation date is not an RFC 3339 date-time.
    pub fn convert(item: AnnouncementRequest, id: EntityId) -> (converted: Result<
        Announcement,
        ConversionError,
    >)
        ensures
            match rfc3339_millis(item.date_created@) {
                Some(millis) => converted matches Ok(announcement) && announcement@
                    == Self::assembled(item@, id, millis),
                None => converted is Err,
            },
    {
        match parse_date(item.date_created.as_str()) {
            Ok(millis) => Ok(Self::from_parts(item, id, millis)),
            Err(error) => Err(error),
        }
    }

    /// Turns a request into an announcement under a fresh identity. Fails
    /// exactly where the creation date is not an RFC 3339 date-time.
    pub fn try_from(item: AnnouncementRequest) -> (converted: Result<
        Announcement,
        ConversionError,
    >)
        ensures
            match rfc3339_millis(item.date_created@) {
                Some(millis) => converted matches Ok(announcement) && announcement._id.is_valid()
                    && announcement@ == Self::assembled(item@, announcement._id, millis),
                None => converted is Err,
            },
    {
        match parse_date(item.date_created.as_str()) {
            Ok(millis) => Ok(Self::from_parts(item, EntityId::fresh(), millis)),
            Err(error) => Err(error),
        }
    }
}

} // verus!
