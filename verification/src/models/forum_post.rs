//! Forum posts: what members write, each with the list of its comments.

use crate::bindings::dates::rfc3339_millis;
use crate::models::comment::{Comment, CommentView};
use crate::models::conversion::{parse_date, ConversionError};
use crate::models::id::EntityId;
use crate::rules::{
    check_line, check_member_email, check_username, is_line, is_member_email, is_username,
    unless, Violation, note, verdict,
};
use vstd::prelude::*;

verus! {

/// The comments of a list, each by its view, in order.
pub open spec fn comment_views(comments: Seq<Comment>) -> Seq<CommentView> {
    comments.map_values(|comment: Comment| comment@)
}

/// A stored forum post.
#[derive(Debug)]
pub struct Post {
    pub _id: EntityId,
    pub author: String,
    pub email: String,
    /// Milliseconds since the Unix epoch.
    pub date_created: i64,
    pub title: String,
    pub body: String,
    /// Oldest first.
    pub comments: Vec<Comment>,
}

pub struct PostView {
    pub id: EntityId,
    pub author: Seq<char>,
    pub email: Seq<char>,
    pub date_created: i64,
    pub title: Seq<char>,
    pub body: Seq<char>,
    pub comments: Seq<CommentView>,
}

impl View for Post {
    type V = PostView;

    open spec fn view(&self) -> PostView {
        PostView {
            id: self._id,
            author: self.author@,
            email: self.email@,
            date_created: self.date_created,
            title: self.title@,
            body: self.body@,
            comments: comment_views(self.comments@),
        }
    }
}

/// A forum post as it travels, with its identity written out.
#[derive(Debug)]
pub struct PostRequest {
    pub id: String,
    pub author: String,
    pub email: String,
    /// An RFC 3339 date-time in a request, the store's own date text in a
    /// listing.
    pub date_created: String,
    pub title: String,
    pub body: String,
    /// Oldest first.
    pub comments: Vec<Comment>,
}

pub struct PostRequestView {
    pub id: Seq<char>,
    pub author: Seq<char>,
    pub email: Seq<char>,
    pub date_created: Seq<char>,
    pub title: Seq<char>,
    pub body: Seq<char>,
    pub comments: Seq<CommentView>,
}

impl View for PostRequest {
    type V = PostRequestView;

    open spec fn view(&self) -> PostRequestView {
        PostRequestView {
            id: self.id@,
            author: self.author@,
            email: self.email@,
            date_created: self.date_created@,
            title: self.title@,
            body: self.body@,
            comments: comment_views(self.comments@),
        }
    }
}

/// What a member sends to post: a post without identity or comments.
#[derive(Debug)]
pub struct PostRequestRequest {
    pub author: String,
    pub email: String,
    /// An RFC 3339 date-time.
    pub date_created: String,
    pub title: String,
    pub body: String,
}

pub struct PostRequestRequestView {
    pub author: Seq<char>,
    pub email: Seq<char>,
    pub date_created: Seq<char>,
    pub title: Seq<char>,
    pub body: Seq<char>,
}

impl View for PostRequestRequest {
    type V = PostRequestRequestView;

    open spec fn view(&self) -> PostRequestRequestView {
        PostRequestRequestView {
            author: self.author@,
            email: self.email@,
            date_created: self.date_created@,
            title: self.title@,
            body: self.body@,
        }
    }
}

/// The rules that a post's fields break, in the order of the fields: the
/// author a user name, the address a member's, the title one line of 5 to 20
/// characters, the body one line of 20 to 600.
pub open spec fn post_violations(
    author: Seq<char>,
    email: Seq<char>,
    title: Seq<char>,
    body: Seq<char>,
    mailbox: Seq<char>,
) -> Seq<Violation> {
    unless(is_username(author), Violation::Username) + unless(
        is_member_email(email, mailbox),
        Violation::Email,
    ) + unless(is_line(title, 5, 20), Violation::Title) + unless(
        is_line(body, 20, 600),
        Violation::Body,
    )
}

fn check_post(author: &str, email: &str, title: &str, body: &str, mailbox: &str) -> (checked:
    Result<(), Vec<Violation>>)
    ensures
        checked is Ok <==> post_violations(author@, email@, title@, body@, mailbox@).len() == 0,
        checked matches Err(found) ==> found@ == post_violations(
            author@,
            email@,
            title@,
            body@,
            mailbox@,
        ),
{
    let mut found: Vec<Violation> = Vec::new();
    note(&mut found, check_username(author), Violation::Username);
    note(&mut found, check_member_email(email, mailbox), Violation::Email);
    note(&mut found, check_line(title, 5, 20), Violation::Title);
    note(&mut found, check_line(body, 20, 600), Violation::Body);
    assert(found@ =~= post_violations(author@, email@, title@, body@, mailbox@));
    verdict(found)
}

impl PostRequestView {
    /// The rules that the request breaks, in the order of its fields.
    pub open spec fn violations(self, mailbox: Seq<char>) -> Seq<Violation> {
        post_violations(self.author, self.email, self.title, self.body, mailbox)
    }

    /// The request breaks no rule.
    pub open spec fn is_valid(self, mailbox: Seq<char>) -> bool {
        self.violations(mailbox).len() == 0
    }
}

impl PostRequestRequestView {
    /// The rules that the request breaks, in the order of its fields.
    pub open spec fn violations(self, mailbox: Seq<char>) -> Seq<Violation> {
        post_violations(self.author, self.email, self.title, self.body, mailbox)
    }

    /// The request breaks no rule.
    pub open spec fn is_valid(self, mailbox: Seq<char>) -> bool {
        self.violations(mailbox).len() == 0
    }
}

impl PostRequest {
    /// Holds the request to the rules of its fields: `Ok` where it breaks
    /// none, else every rule it breaks.
    pub fn validate(&self, mailbox: &str) -> (checked: Result<(), Vec<Violation>>)
        ensures
            checked is Ok <==> self@.is_valid(mailbox@),
            checked matches Err(found) ==> found@ == self@.violations(mailbox@),
    {
        check_post(
            self.author.as_str(),
            self.email.as_str(),
            self.title.as_str(),
            self.body.as_str(),
            mailbox,
        )
    }
}

impl PostRequestRequest {
    /// Holds the request to the rules of its fields: `Ok` where it breaks
    /// none, else every rule it breaks.
    pub fn validate(&self, mailbox: &str) -> (checked: Result<(), Vec<Violation>>)
        ensures
            checked is Ok <==> self@.is_valid(mailbox@),
            checked matches Err(found) ==> found@ == self@.violations(mailbox@),
    {
        check_post(
            self.author.as_str(),
            self.email.as_str(),
            self.title.as_str(),
            self.body.as_str(),
            mailbox,
        )
    }
}

impl Post {
    /// The post that a request becomes under a given identity and creation
    /// instant: it starts without comments, whatever the request carried.
    pub open spec fn assembled(item: PostRequestView, id: EntityId, date_created: i64)
        -> PostView {
        PostView {
            id,
            author: item.author,
            email: item.email,
            date_created,
            title: item.title,
            body: item.body,
            comments: Seq::empty(),
        }
    }

    /// Builds the post from a request, an identity and the instant that the
    /// request's creation date denotes.
    pub fn from_parts(item: PostRequest, id: EntityId, date_created: i64) -> (post: Post)
        ensures
            post@ == Self::assembled(item@, id, date_created),
            post.comments@.len() == 0,
    {
        let post = Post {
            _id: id,
            author: item.author,
            email: item.email,
            date_created,
            title: item.title,
            body: item.body,
            comments: Vec::new(),
        };
        assert(post@.comments =~= Seq::empty());
        post
    }

    /// Turns a request into the post with identity `id`. Fails exactly where
    /// the creation date is not an RFC 3339 date-time.
    pub fn convert(item: PostRequest, id: EntityId) -> (converted: Result<Post, ConversionError>)
        ensures
            match rfc3339_millis(item.date_created@) {
                Some(millis) => converted matches Ok(post) && post@ == Self::assembled(
                    item@,
                    id,
                    millis,
                ),
                None => converted is Err,
            },
    {
        match parse_date(item.date_created.as_str()) {
            Ok(millis) => Ok(Self::from_parts(item, id, millis)),
            Err(error) => Err(error),
        }
    }

    /// Turns a request into a post under a fresh identity. Fails exactly
    /// where the creation date is not an RFC 3339 date-time.
    pub fn try_from(item: PostRequest) -> (converted: Result<Post, ConversionError>)
        ensures
            match rfc3339_millis(item.date_created@) {
                Some(millis) => converted matches Ok(post) && post._id.is_valid() && post@
                    == Self::assembled(item@, post._id, millis),
                None => converted is Err,
            },
    {
        match parse_date(item.date_created.as_str()) {
            Ok(millis) => Ok(Self::from_parts(item, EntityId::fresh(), millis)),
            Err(error) => Err(error),
        }
    }
}

} // verus!
