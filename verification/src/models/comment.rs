//! Comments: the notes under a forum post. A comment has no collection of
//! its own; it lives in the list of its post.

use crate::bindings::dates::rfc3339_millis;
use crate::models::conversion::{parse_date, ConversionError};
use crate::models::id::EntityId;
use crate::rules::{
    check_line, check_member_email, check_username, is_line, is_member_email, is_username,
    unless, Violation, note, verdict,
};
use vstd::prelude::*;

verus! {

/// A stored comment.
#[derive(Debug)]
pub struct Comment {
    pub _id: EntityId,
    pub author: String,
    pub email: String,
    /// Milliseconds since the Unix epoch.
    pub date_created: i64,
    pub body: String,
}

pub struct CommentView {
    pub id: EntityId,
    pub author: Seq<char>,
    pub email: Seq<char>,
    pub date_created: i64,
    pub body: Seq<char>,
}

impl View for Comment {
    type V = CommentView;

    open spec fn view(&self) -> CommentView {
        CommentView {
            id: self._id,
            author: self.author@,
            email: self.email@,
            date_created: self.date_created,
            body: self.body@,
        }
    }
}

impl Clone for Comment {
    fn clone(&self) -> (copy: Comment)
        ensures
            copy@ == self@,
    {
        Comment {
            _id: self._id,
            author: self.author.clone(),
            email: self.email.clone(),
            date_created: self.date_created,
            body: self.body.clone(),
        }
    }
}

/// A comment as it travels, with its identity written out.
#[derive(Debug)]
pub struct CommentRequest {
    pub id: String,
    pub author: String,
    pub email: String,
    /// An RFC 3339 date-time in a request, the store's own date text in a
    /// listing.
    pub date_created: String,
    pub body: String,
}

pub struct CommentRequestView {
    pub id: Seq<char>,
    pub author: Seq<char>,
    pub email: Seq<char>,
    pub date_created: Seq<char>,
    pub body: Seq<char>,
}

impl View for CommentRequest {
    type V = CommentRequestView;

    open spec fn view(&self) -> CommentRequestView {
        CommentRequestView {
            id: self.id@,
            author: self.author@,
            email: self.email@,
            date_created: self.date_created@,
            body: self.body@,
        }
    }
}

impl Clone for CommentRequest {
    fn clone(&self) -> (copy: CommentRequest)
        ensures
            copy@ == self@,
    {
        CommentRequest {
            id: self.id.clone(),
            author: self.author.clone(),
            email: self.email.clone(),
            date_created: self.date_created.clone(),
            body: self.body.clone(),
        }
    }
}

/// What a member sends to comment: a comment without an identity.
#[derive(Debug)]
pub struct CommentRequestRequest {
    pub author: String,
    pub email: String,
    /// An RFC 3339 date-time.
    pub date_created: String,
    pub body: String,
}

pub struct CommentRequestRequestView {
    pub author: Seq<char>,
    pub email: Seq<char>,
    pub date_created: Seq<char>,
    pub body: Seq<char>,
}

impl View for CommentRequestRequest {
    type V = CommentRequestRequestView;

    open spec fn view(&self) -> CommentRequestRequestView {
        CommentRequestRequestView {
            author: self.author@,
            email: self.email@,
            date_created: self.date_created@,
            body: self.body@,
        }
    }
}

impl Clone for CommentRequestRequest {
    fn clone(&self) -> (copy: CommentRequestRequest)
        ensures
            copy@ == self@,
    {
        CommentRequestRequest {
            author: self.author.clone(),
            email: self.email.clone(),
            date_created: self.date_created.clone(),
            body: self.body.clone(),
        }
    }
}

/// The rules that a comment's fields break, in the order of the fields: the
/// author a user name, the address a member's, the body one line of 20 to 600
/// characters.
pub open spec fn comment_violations(
    author: Seq<char>,
    email: Seq<char>,
    body: Seq<char>,
    mailbox: Seq<char>,
) -> Seq<Violation> {
    unless(is_username(author), Violation::Username) + unless(
        is_member_email(email, mailbox),
        Violation::Email,
    ) + unless(is_line(body, 20, 600), Violation::Body)
}

fn check_comment(author: &str, email: &str, body: &str, mailbox: &str) -> (checked: Result<
    (),
    Vec<Violation>,
>)
    ensures
        checked is Ok <==> comment_violations(author@, email@, body@, mailbox@).len() == 0,
        checked matches Err(found) ==> found@ == comment_violations(
            author@,
            email@,
            body@,
            mailbox@,
        ),
{
    let mut found: Vec<Violation> = Vec::new();
    note(&mut found, check_username(author), Violation::Username);
    note(&mut found, check_member_email(email, mailbox), Violation::Email);
    note(&mut found, check_line(body, 20, 600), Violation::Body);
    assert(found@ =~= comment_violations(author@, email@, body@, mailbox@));
    verdict(found)
}

impl CommentRequestView {
    /// The rules that the request breaks, in the order of its fields.
    pub open spec fn violations(self, mailbox: Seq<char>) -> Seq<Violation> {
        comment_violations(self.author, self.email, self.body, mailbox)
    }

    /// The request breaks no rule.
    pub open spec fn is_valid(self, mailbox: Seq<char>) -> bool {
        self.violations(mailbox).len() == 0
    }
}

impl CommentRequestRequestView {
    /// The rules that the request breaks, in the order of its fields.
    pub open spec fn violations(self, mailbox: Seq<char>) -> Seq<Violation> {
        comment_violations(self.author, self.email, self.body, mailbox)
    }

    /// The request breaks no rule.
    pub open spec fn is_valid(self, mailbox: Seq<char>) -> bool {
        self.violations(mailbox).len() == 0
    }
}

impl CommentRequest {
    /// Holds the request to the rules of its fields: `Ok` where it breaks
    /// none, else every rule it breaks.
    pub fn validate(&self, mailbox: &str) -> (checked: Result<(), Vec<Violation>>)
        ensures
            checked is Ok <==> self@.is_valid(mailbox@),
            checked matches Err(found) ==> found@ == self@.violations(mailbox@),
    {
        check_comment(self.author.as_str(), self.email.as_str(), self.body.as_str(), mailbox)
    }
}

impl CommentRequestRequest {
    /// Holds the request to the rules of its fields: `Ok` where it breaks
    /// none, else every rule it breaks.
    pub fn validate(&self, mailbox: &str) -> (checked: Result<(), Vec<Violation>>)
        ensures
            checked is Ok <==> self@.is_valid(mailbox@),
            checked matches Err(found) ==> found@ == self@.violations(mailbox@),
    {
        check_comment(self.author.as_str(), self.email.as_str(), self.body.as_str(), mailbox)
    }
}

/// A comment as it is found in the store, where any field may be missing.
#[derive(Debug)]
pub struct CommentDocument {
    pub id: Option<EntityId>,
    pub author: Option<String>,
    pub email: Option<String>,
    pub date_created: Option<i64>,
    pub body: Option<String>,
}

/// The text of an optional field: empty where the field is missing.
pub open spec fn text_or_empty(field: Option<String>) -> Seq<char> {
    match field {
        Some(text) => text@,
        None => Seq::empty(),
    }
}

fn or_empty(field: Option<String>) -> (text: String)
    ensures
        text@ == text_or_empty(field),
{
    match field {
        Some(text) => text,
        None => String::new(),
    }
}

impl Comment {
    /// The comment that a request becomes under a given identity and creation
    /// instant: the identity written in the request is left aside.
    pub open spec fn assembled(item: CommentRequestView, id: EntityId, date_created: i64)
        -> CommentView {
        CommentView {
            id,
            author: item.author,
            email: item.email,
            date_created,
            body: item.body,
        }
    }

    /// Builds the comment from a request, an identity and the instant that
    /// the request's creation date denotes.
    pub fn from_parts(item: CommentRequest, id: EntityId, date_created: i64) -> (comment: Comment)
        ensures
            comment@ == Self::assembled(item@, id, date_created),
    {
        Comment {
            _id: id,
            author: item.author,
            email: item.email,
            date_created,
            body: item.body,
        }
    }

    /// Turns a request into the comment with identity `id`. Fails exactly
    /// where the creation date is not an RFC 3339 date-time.
    pub fn convert(item: CommentRequest, id: EntityId) -> (converted: Result<
        Comment,
        ConversionError,
    >)
        ensures
            match rfc3339_millis(item.date_created@) {
                Some(millis) => converted matches Ok(comment) && comment@ == Self::assembled(
                    item@,
                    id,
                    millis,
                ),
                None => converted is Err,
            },
    {
        match parse_date(item.date_created.as_str()) {
            Ok(millis) => Ok(Self::from_parts(item, id, millis)),
            Err(error) => Err(error),
        }
    }

    /// Turns a request into a comment under a fresh identity. Fails exactly
    /// where the creation date is not an RFC 3339 date-time.
    pub fn try_from(item: CommentRequest) -> (converted: Result<Comment, ConversionError>)
        ensures
            match rfc3339_millis(item.date_created@) {
                Some(millis) => converted matches Ok(comment) && comment._id.is_valid()
                    && comment@ == Self::assembled(item@, comment._id, millis),
                None => converted is Err,
            },
    {
        match parse_date(item.date_created.as_str()) {
            Ok(millis) => Ok(Self::from_parts(item, EntityId::fresh(), millis)),
            Err(error) => Err(error),
        }
    }

    /// The document under which a comment is stored: every field is there.
    pub open spec fn documented(comment: CommentView, document: CommentDocument) -> bool {
        &&& document.id == Some(comment.id)
        &&& document.author matches Some(author) && author@ == comment.author
        &&& document.email matches Some(email) && email@ == comment.email
        &&& document.date_created == Some(comment.date_created)
        &&& document.body matches Some(body) && body@ == comment.body
    }

    /// Writes the comment out as the document under which it is stored.
    /// Reading that document gives the comment back, whatever stands ready
    /// for missing fields.
    pub fn to_bson(&self) -> (document: CommentDocument)
        ensures
            Self::documented(self@, document),
            forall|spare_id: EntityId, now: i64|
                #[trigger] Self::restored(document, spare_id, now) == self@,
    {
        CommentDocument {
            id: Some(self._id),
            author: Some(self.author.clone()),
            email: Some(self.email.clone()),
            date_created: Some(self.date_created),
            body: Some(self.body.clone()),
        }
    }

    /// The comment that a stored document stands for: a missing text is
    /// empty, a missing identity is `spare_id`, a missing date is `now`.
    pub open spec fn restored(document: CommentDocument, spare_id: EntityId, now: i64)
        -> CommentView {
        CommentView {
            id: match document.id {
                Some(id) => id,
                None => spare_id,
            },
            author: text_or_empty(document.author),
            email: text_or_empty(document.email),
            date_created: match document.date_created {
                Some(millis) => millis,
                None => now,
            },
            body: text_or_empty(document.body),
        }
    }

    /// Reads a comment from a stored document, filling what is missing.
    pub fn from_document(document: CommentDocument, spare_id: EntityId, now: i64) -> (comment:
        Comment)
        ensures
            comment@ == Self::restored(document, spare_id, now),
    {
        Comment {
            _id: match document.id {
                Some(id) => id,
                None => spare_id,
            },
            author: or_empty(document.author),
            email: or_empty(document.email),
            date_created: match document.date_created {
                Some(millis) => millis,
                None => now,
            },
            body: or_empty(document.body),
        }
    }
}

} // verus!
