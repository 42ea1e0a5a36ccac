//! The answers the service gives: a status and a body.

use vstd::prelude::*;

use crate::models::{Book, Loan, LoanCreated, Member};

verus! {

/// The HTTP status of an answer.
#[derive(Clone, Copy, Debug, PartialEq, Eq, Structural)]
pub enum Status {
    Success,
    InternalServerError,
}

impl Status {
    /// The numeric HTTP status code.
    pub open spec fn spec_code(self) -> u16 {
        match self {
            Status::Success => 200,
            Status::InternalServerError => 500,
        }
    }

    /// The numeric HTTP status code: 200 or 500.
    pub fn code(&self) -> (c: u16)
        ensures
            c == self.spec_code(),
    {
        match self {
            Status::Success => 200,
            Status::InternalServerError => 500,
        }
    }
}

/// The body of an answer: plain text, or records sent as JSON.
#[derive(Clone, Debug, PartialEq, Eq)]
pub enum Body {
    Text(String),
    Book(Book),
    Books(Vec<Book>),
    Member(Member),
    Members(Vec<Member>),
    Loans(Vec<Loan>),
    LoanCreated(LoanCreated),
}

/// An answer to a request.
#[derive(Clone, Debug, PartialEq, Eq)]
pub struct Reply {
    pub status: Status,
    pub body: Body,
}

/// `r` has status `status` and the plain-text body `text`.
pub open spec fn is_text_reply(r: Reply, status: Status, text: Seq<char>) -> bool {
    &&& r.status == status
    &&& r.body matches Body::Text(t)
    &&& t@ == text
}

/// A plain-text answer.
pub fn text_reply(status: Status, text: String) -> (r: Reply)
    ensures
        is_text_reply(r, status, text@),
{
    Reply { status, body: Body::Text(text) }
}

/// The answer to a failed database or service call: status 500 with the
/// error's text.
pub fn failure_reply(error: String) -> (r: Reply)
    ensures
        is_text_reply(r, Status::InternalServerError, error@),
{
    text_reply(Status::InternalServerError, error)
}

} // verus!
