//! What a handler answers: a status and a body.

use vstd::prelude::*;

verus! {

/// The status of an answer.
#[derive(Clone, Copy, Debug, PartialEq, Eq, Structural)]
pub enum Status {
    Success,
    BadRequest,
    Unauthorized,
    NotFound,
    Conflict,
    InternalServerError,
}

impl Status {
    /// The status as HTTP numbers it.
    pub open spec fn number(self) -> int {
        match self {
            Status::Success => 200,
            Status::BadRequest => 400,
            Status::Unauthorized => 401,
            Status::NotFound => 404,
            Status::Conflict => 409,
            Status::InternalServerError => 500,
        }
    }

    /// The status as HTTP numbers it.
    pub fn code(self) -> (code: u16)
        ensures
            code == self.number(),
    {
        match self {
            Status::Success => 200,
            Status::BadRequest => 400,
            Status::Unauthorized => 401,
            Status::NotFound => 404,
            Status::Conflict => 409,
            Status::InternalServerError => 500,
        }
    }
}

/// The body of an answer.
#[derive(Debug)]
pub enum Body<T> {
    /// Plain text.
    Text { text: String },
    /// A text, written as a JSON string.
    JsonText { text: String },
    /// A value, written as JSON.
    Json { value: T },
}

/// An answer.
#[derive(Debug)]
pub struct Reply<T> {
    pub status: Status,
    pub body: Body<T>,
}

impl<T> Reply<T> {
    /// The answer has this status and this plain text as its body.
    pub open spec fn says(self, status: Status, text: Seq<char>) -> bool {
        self.status == status && (self.body matches Body::Text { text: said } && said@ == text)
    }

    /// The answer has this status and this text, as a JSON string, as its
    /// body.
    pub open spec fn says_json(self, status: Status, text: Seq<char>) -> bool {
        self.status == status && (self.body matches Body::JsonText { text: said } && said@
            == text)
    }

    /// The answer is a success that carries this value.
    pub open spec fn carries(self, value: T) -> bool {
        self.status == Status::Success && self.body == (Body::Json { value })
    }

    /// An answer of plain text.
    pub fn text(status: Status, text: &str) -> (reply: Reply<T>)
        ensures
            reply.says(status, text@),
    {
        Reply { status, body: Body::Text { text: text.to_string() } }
    }

    /// An answer of plain text that is already at hand.
    pub fn message(status: Status, text: String) -> (reply: Reply<T>)
        ensures
            reply.says(status, text@),
    {
        Reply { status, body: Body::Text { text } }
    }

    /// An answer of a text written as a JSON string.
    pub fn json_text(status: Status, text: &str) -> (reply: Reply<T>)
        ensures
            reply.says_json(status, text@),
    {
        Reply { status, body: Body::JsonText { text: text.to_string() } }
    }

    /// A success that carries a value.
    pub fn json(value: T) -> (reply: Reply<T>)
        ensures
            reply.carries(value),
    {
        Reply { status: Status::Success, body: Body::Json { value } }
    }
}

} // verus!
