//! Applications for general membership.

use crate::bindings::dates::rfc3339_millis;
use crate::models::conversion::{parse_date, ConversionError};
use crate::models::id::EntityId;
use crate::rules::{
    check_full_name, check_grade, check_line, check_school_email, check_skills, is_full_name,
    is_grade, is_line, is_school_email, is_skills, unless, Violation, note, verdict,
};
use vstd::prelude::*;

verus! {

/// A stored application for general membership.
#[derive(Debug)]
pub struct GeneralMember {
    pub _id: EntityId,
    pub full_name: String,
    pub email: String,
    pub grade: u8,
    pub skills: u8,
    pub extra: String,
    /// Milliseconds since the Unix epoch.
    pub date_created: i64,
}

pub struct GeneralMemberView {
    pub id: EntityId,
    pub full_name: Seq<char>,
    pub email: Seq<char>,
    pub grade: u8,
    pub skills: u8,
    pub extra: Seq<char>,
    pub date_created: i64,
}

impl View for GeneralMember {
    type V = GeneralMemberView;

    open spec fn view(&self) -> GeneralMemberView {
        GeneralMemberView {
            id: self._id,
            full_name: self.full_name@,
            email: self.email@,
            grade: self.grade,
            skills: self.skills,
            extra: self.extra@,
            date_created: self.date_created,
        }
    }
}

/// An application for general membership as it travels.
#[derive(Debug)]
pub struct GeneralMemberRequest {
    pub full_name: String,
    pub email: String,
    pub grade: u8,
    pub skills: u8,
    pub extra: String,
    /// An RFC 3339 date-time in a request, the store's own date text in a
    /// listing.
    pub date_created: String,
}

pub struct GeneralMemberRequestView {
    pub full_name: Seq<char>,
    pub email: Seq<char>,
    pub grade: u8,
    pub skills: u8,
    pub extra: Seq<char>,
    pub date_created: Seq<char>,
}

impl View for GeneralMemberRequest {
    type V = GeneralMemberRequestView;

    open spec fn view(&self) -> GeneralMemberRequestView {
        GeneralMemberRequestView {
            full_name: self.full_name@,
            email: self.email@,
            grade: self.grade,
            skills: self.skills,
            extra: self.extra@,
            date_created: self.date_created@,
        }
    }
}

impl GeneralMemberRequestView {
    /// The rules that the request breaks, in the order of its fields: a full
    /// name, a school address, a grade from 9 to 12, a skills score up to
    /// 100, and at most one line of 350 characters on top.
    pub open spec fn violations(self) -> Seq<Violation> {
        unless(is_full_name(self.full_name), Violation::FullName) + unless(
            is_school_email(self.email),
            Violation::Email,
        ) + unless(is_grade(self.grade), Violation::Grade) + unless(
            is_skills(self.skills),
            Violation::Skills,
        ) + unless(is_line(self.extra, 0, 350), Violation::MemberExtra)
    }

    /// The request breaks no rule.
    pub open spec fn is_valid(self) -> bool {
        self.violations().len() == 0
    }
}

impl GeneralMemberRequest {
    /// Holds the request to the rules of its fields: `Ok` where it breaks
    /// none, else every rule it breaks.
    pub fn validate(&self) -> (checked: Result<(), Vec<Violation>>)
        ensures
            checked is Ok <==> self@.is_valid(),
            checked matches Err(found) ==> found@ == self@.violations(),
    {
        let mut found: Vec<Violation> = Vec::new();
        note(&mut found, check_full_name(self.full_name.as_str()), Violation::FullName);
        note(&mut found, check_school_email(self.email.as_str()), Violation::Email);
        note(&mut found, check_grade(self.grade), Violation::Grade);
        note(&mut found, check_skills(self.skills), Violation::Skills);
        note(&mut found, check_line(self.extra.as_str(), 0, 350), Violation::MemberExtra);
        assert(found@ =~= self@.violations());
        verdict(found)
    }
}

impl GeneralMember {
    /// The application that a request becomes under a given identity and
    /// creation instant: every field is taken over as it stands.
    pub open spec fn assembled(item: GeneralMemberRequestView, id: EntityId, date_created: i64)
        -> GeneralMemberView {
        GeneralMemberView {
            id,
            full_name: item.full_name,
            email: item.email,
            grade: item.grade,
            skills: item.skills,
            extra: item.extra,
            date_created,
        }
    }

    /// Builds the application from a request, an identity and the instant
    /// that the request's creation date denotes.
    pub fn from_parts(item: GeneralMemberRequest, id: EntityId, date_created: i64) -> (member:
        GeneralMember)
        ensures
            member@ == Self::assembled(item@, id, date_created),
    {
        GeneralMember {
            _id: id,
            full_name: item.full_name,
            email: item.email,
            grade: item.grade,
            skills: item.skills,
            extra: item.extra,
            date_created,
        }
    }

    /// Turns a request into the application with identity `id`. Fails
    /// exactly where the creation date is not an RFC 3339 date-time.
    pub fn convert(item: GeneralMemberRequest, id: EntityId) -> (converted: Result<
        GeneralMember,
        ConversionError,
    >)
        ensures
            match rfc3339_millis(item.date_created@) {
                Some(millis) => converted matches Ok(member) && member@ == Self::assembled(
                    item@,
                    id,
                    millis,
                ),
                None => converted is Err,
            },
    {
        match parse_date(item.date_created.as_str()) {
            Ok(millis) => Ok(Self::from_parts(item, id, millis)),
            Err(error) => Err(error),
        }
    }

    /// Turns a request into an application under a fresh identity. Fails
    /// exactly where the creation date is not an RFC 3339 date-time.
    pub fn try_from(item: GeneralMemberRequest) -> (converted: Result<
        GeneralMember,
        ConversionError,
    >)
        ensures
            match rfc3339_millis(item.date_created@) {
                Some(millis) => converted matches Ok(member) && member._id.is_valid() && member@
                    == Self::assembled(item@, member._id, millis),
                None => converted is Err,
            },
    {
        match parse_date(item.date_created.as_str()) {
            Ok(millis) => Ok(Self::from_parts(item, EntityId::fresh(), millis)),
            Err(error) => Err(error),
        }
    }
}

} // verus!
