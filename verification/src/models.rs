//! The records the service stores and the payloads its requests carry.

use vstd::prelude::*;

verus! {

/// A book of the library.
#[derive(Clone, Debug, PartialEq, Eq)]
pub struct Book {
    pub book_id: i32,
    pub title: String,
    pub author: String,
    pub genre: String,
    pub published_year: String,
    pub status: String,
}

/// A loan of a book to a member.
#[derive(Clone, Debug, PartialEq, Eq)]
pub struct Loan {
    pub loan_id: i32,
    pub book_id: i32,
    pub member_id: i32,
    pub issue_date: String,
    pub return_date: String,
    pub status: String,
}

/// A member of the library.
#[derive(Clone, Debug, PartialEq, Eq)]
pub struct Member {
    pub member_id: i32,
    pub name: String,
    pub phone: String,
    pub email: String,
    pub join_date: String,
}

/// The payload of a request that adds a book.
#[derive(Clone, Debug, PartialEq, Eq)]
pub struct PostRequestBook {
    pub title: String,
    pub author: String,
    pub genre: String,
    pub published_year: String,
}

/// The payload of a request that changes some fields of a book.
#[derive(Clone, Debug, PartialEq, Eq)]
pub struct PutRequestBook {
    pub title: Option<String>,
    pub author: Option<String>,
    pub genre: Option<String>,
    pub published_year: Option<String>,
    pub status: Option<String>,
}

/// The payload of a request that adds a member.
#[derive(Clone, Debug, PartialEq, Eq)]
pub struct PostRequestMember {
    pub name: String,
    pub phone: String,
    pub email: String,
    pub join_date: String,
}

/// The payload of a request that changes some fields of a member.
#[derive(Clone, Debug, PartialEq, Eq)]
pub struct PutRequestMember {
    pub name: Option<String>,
    pub phone: Option<String>,
    pub email: Option<String>,
    pub join_date: Option<String>,
}

/// The payload of a request that lends a book to a member.
#[derive(Clone, Copy, Debug, PartialEq, Eq, Structural)]
pub struct PostRequestLoan {
    pub book_id: i32,
    pub member_id: i32,
}

/// The payload of a request that changes a loan: its return date, or its
/// status (which also returns the book).
#[derive(Clone, Debug, PartialEq, Eq)]
pub struct PutRequestLoan {
    pub return_date: Option<String>,
    pub status: Option<String>,
}

/// The payload sent to the book service to change a book's status.
#[derive(Clone, Debug, PartialEq, Eq)]
pub struct PutBookStatus {
    pub status: String,
}

/// The answer to a loan that was recorded: its id and its status.
#[derive(Clone, Debug, PartialEq, Eq)]
pub struct LoanCreated {
    pub loan_id: u64,
    pub status: String,
}

} // verus!
