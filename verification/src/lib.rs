//! A small lending-library service: books, members and loans.
//!
//! The library holds the service's logic: which SQL statements each request
//! runs and with which values, how each outcome is answered, how a loan is
//! opened step by step, and how dates and numbers are written out.

pub mod date;
pub mod text;
pub mod models;
pub mod statement;
pub mod reply;
pub mod books;
pub mod members;
pub mod loans;
