//! Applications for a seat on one of the executive teams.

use crate::bindings::dates::rfc3339_millis;
use crate::models::conversion::{parse_date, ConversionError};
use crate::models::id::EntityId;
use crate::rules::{
    check_exec_type, check_full_name, check_grade, check_line, check_portfolio,
    check_school_email, is_exec_type, is_full_name, is_grade, is_line, is_portfolio,
    is_school_email, unless, Violation, note, verdict,
};
use vstd::prelude::*;

verus! {

/// A stored application for an executive seat.
#[derive(Debug)]
pub struct ExecutiveMember {
    pub _id: EntityId,
    pub full_name: String,
    pub email: String,
    pub grade: u8,
    pub exec_type: String,
    pub why: String,
    pub experience: String,
    pub portfolio: String,
    pub extra: String,
    /// Milliseconds since the Unix epoch.
    pub date_created: i64,
}

pub struct ExecutiveMemberView {
    pub id: EntityId,
    pub full_name: Seq<char>,
    pub email: Seq<char>,
    pub grade: u8,
    pub exec_type: Seq<char>,
    pub why: Seq<char>,
    pub experience: Seq<char>,
    pub portfolio: Seq<char>,
    pub extra: Seq<char>,
    pub date_created: i64,
}

impl View for ExecutiveMember {
    type V = ExecutiveMemberView;

    open spec fn view(&self) -> ExecutiveMemberView {
        ExecutiveMemberView {
            id: self._id,
            full_name: self.full_name@,
            email: self.email@,
            grade: self.grade,
            exec_type: self.exec_type@,
            why: self.why@,
            experience: self.experience@,
            portfolio: self.portfolio@,
            extra: self.extra@,
            date_created: self.date_created,
        }
    }
}

/// An application for an executive seat as it travels.
#[derive(Debug)]
pub struct ExecutiveMemberRequest {
    pub full_name: String,
    pub email: String,
    pub grade: u8,
    pub exec_type: String,
    pub why: String,
    pub experience: String,
    pub portfolio: String,
    pub extra: String,
    /// An RFC 3339 date-time in a request, the store's own date text in a
    /// listing.
    pub date_created: String,
}

pub struct ExecutiveMemberRequestView {
    pub full_name: Seq<char>,
    pub email: Seq<char>,
    pub grade: u8,
    pub exec_type: Seq<char>,
    pub why: Seq<char>,
    pub experience: Seq<char>,
    pub portfolio: Seq<char>,
    pub extra: Seq<char>,
    pub date_created: Seq<char>,
}

impl View for ExecutiveMemberRequest {
    type V = ExecutiveMemberRequestView;

    open spec fn view(&self) -> ExecutiveMemberRequestView {
        ExecutiveMemberRequestView {
            full_name: self.full_name@,
            email: self.email@,
            grade: self.grade,
            exec_type: self.exec_type@,
            why: self.why@,
            experience: self.experience@,
            portfolio: self.portfolio@,
            extra: self.extra@,
            date_created: self.date_created@,
        }
    }
}

impl ExecutiveMemberRequestView {
    /// The rules that the request breaks, in the order of its fields: a full
    /// name, a school address, a grade from 9 to 12, one of the three teams,
    /// one line of 1 to 600 characters each on why and on experience, a
    /// portfolio link or none, and at most one line of 200 characters on top.
    pub open spec fn violations(self) -> Seq<Violation> {
        unless(is_full_name(self.full_name), Violation::FullName) + unless(
            is_school_email(self.email),
            Violation::Email,
        ) + unless(is_grade(self.grade), Violation::Grade) + unless(
            is_exec_type(self.exec_type),
            Violation::ExecType,
        ) + unless(is_line(self.why, 1, 600), Violation::Why) + unless(
            is_line(self.experience, 1, 600),
            Violation::Experience,
        ) + unless(is_portfolio(self.portfolio), Violation::Portfolio) + unless(
            is_line(self.extra, 0, 200),
            Violation::ExecutiveExtra,
        )
    }

    /// The request breaks no rule.
    pub open spec fn is_valid(self) -> bool {
        self.violations().len() == 0
    }
}

impl ExecutiveMemberRequest {
    /// Holds the request to the rules of its fields: `Ok` where it breaks
    /// none, else every rule it breaks.
    pub fn validate(&self) -> (checked: Result<(), Vec<Violation>>)
        ensures
            checked is Ok <==> self@.is_valid(),
            checked matches Err(found) ==> found@ == self@.violations(),
    {
        let mut found: Vec<Violation> = Vec::new();
        note(&mut found, check_full_name(self.full_name.as_str()), Violation::FullName);
        note(&mut found, check_school_email(self.email.as_str()), Violation::Email);
        note(&mut found, check_grade(self.grade), Violation::Grade);
        note(&mut found, check_exec_type(self.exec_type.as_str()), Violation::ExecType);
        note(&mut found, check_line(self.why.as_str(), 1, 600), Violation::Why);
        note(&mut found, check_line(self.experience.as_str(), 1, 600), Violation::Experience);
        note(&mut found, check_portfolio(self.portfolio.as_str()), Violation::Portfolio);
        note(&mut found, check_line(self.extra.as_str(), 0, 200), Violation::ExecutiveExtra);
        assert(found@ =~= self@.violations());
        verdict(found)
    }
}

impl ExecutiveMember {
    /// The application that a request becomes under a given identity and
    /// creation instant: every field is taken over as it stands.
    pub open spec fn assembled(item: ExecutiveMemberRequestView, id: EntityId, date_created: i64)
        -> ExecutiveMemberView {
        ExecutiveMemberView {
            id,
            full_name: item.full_name,
            email: item.email,
            grade: item.grade,
            exec_type: item.exec_type,
            why: item.why,
            experience: item.experience,
            portfolio: item.portfolio,
            extra: item.extra,
            date_created,
        }
    }

    /// Builds the application from a request, an identity and the instant
    /// that the request's creation date denotes.
    pub fn from_parts(item: ExecutiveMemberRequest, id: EntityId, date_created: i64) -> (member:
        ExecutiveMember)
        ensures
            member@ == Self::assembled(item@, id, date_created),
    {
        ExecutiveMember {
            _id: id,
            full_name: item.full_name,
            email: item.email,
            grade: item.grade,
            exec_type: item.exec_type,
            why: item.why,
            experience: item.experience,
            portfolio: item.portfolio,
            extra: item.extra,
            date_created,
        }
    }

    /// Turns a request into the application with identity `id`. Fails
    /// exactly where the creation date is not an RFC 3339 date-time.
    pub fn convert(item: ExecutiveMemberRequest, id: EntityId) -> (converted: Result<
        ExecutiveMember,
        ConversionError,
    >)
        ensures
            match rfc3339_millis(item.date_created@) {
                Some(millis) => converted matches Ok(member) && member@ == Self::assembled(
                    item@,
                    id,
                    millis,
                ),
                None => converted is Err,
            },
    {
        match parse_date(item.date_created.as_str()) {
            Ok(millis) => Ok(Self::from_parts(item, id, millis)),
            Err(error) => Err(error),
        }
    }

    /// Turns a request into an application under a fresh identity. Fails
    /// exactly where the creation date is not an RFC 3339 date-time.
    pub fn try_from(item: ExecutiveMemberRequest) -> (converted: Result<
        ExecutiveMember,
        ConversionError,
    >)
        ensures
            match rfc3339_millis(item.date_created@) {
                Some(millis) => converted matches Ok(member) && member._id.is_valid() && member@
                    == Self::assembled(item@, member._id, millis),
                None => converted is Err,
            },
    {
        match parse_date(item.date_created.as_str()) {
            Ok(millis) => Ok(Self::from_parts(item, EntityId::fresh(), millis)),
            Err(error) => Err(error),
        }
    }
}

} // verus!
