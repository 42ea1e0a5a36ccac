//! Books: the statements each book request runs and how its outcome is
//! answered.

use vstd::prelude::*;

use crate::models::{Book, PostRequestBook, PutRequestBook};
use crate::reply::{failure_reply, is_text_reply, text_reply, Body, Reply, Status};
use crate::statement::{
    append_assignment, assignment, assignment_list, assigns, binds_every_placeholder, column_names,
    column_values, given_field, lemma_given_field, lemma_given_field_assigned,
    lemma_given_fields_concat, lemma_placeholders_concat, lemma_placeholders_trim_commas,
    lemma_terminated_concat, lemma_trim_terminated, names_free_of_placeholders,
    optional_assignment, optional_param, params_view, placeholders, placeholders_from, push_param,
    statement, terminated_assignments, ParamView, SqlValue, Statement, StatementView,
};
use crate::text::{decimal, signed_decimal, signed_text, trim_end_char, trim_end_matching, unsigned_text};

verus! {

/// The text of the statement that changes the given fields of a book.
pub open spec fn update_book_sql(req: PutRequestBook) -> Seq<char> {
    trim_end_char(
        "UPDATE books SET "@ + optional_assignment(req.title, "title = ?,"@)
            + optional_assignment(req.author, "author = ?,"@)
            + optional_assignment(req.genre, "genre = ?,"@)
            + optional_assignment(req.published_year, "published_year = ?,"@)
            + optional_assignment(req.status, "status = ?,"@),
        ',',
    ) + " WHERE book_id = ?;"@
}

/// The values bound by the statement that changes a book: the given fields
/// in order, then the book's id.
pub open spec fn update_book_params(req: PutRequestBook, book_id: i32) -> Seq<ParamView> {
    optional_param(req.title) + optional_param(req.author) + optional_param(req.genre)
        + optional_param(req.published_year) + optional_param(req.status)
        + seq![ParamView::Int(book_id as int)]
}

/// The fields given in a book update as (column, value), in the order title,
/// author, genre, published_year, status.
pub open spec fn book_fields_given(req: PutRequestBook) -> Seq<(Seq<char>, Seq<char>)> {
    given_field("title"@, req.title) + given_field("author"@, req.author) + given_field(
        "genre"@,
        req.genre,
    ) + given_field("published_year"@, req.published_year) + given_field("status"@, req.status)
}

/// How many fields a book update gives.
pub open spec fn book_fields_count(req: PutRequestBook) -> nat {
    (if req.title is Some { 1nat } else { 0nat }) + (if req.author is Some { 1nat } else { 0nat })
        + (if req.genre is Some { 1nat } else { 0nat }) + (if req.published_year is Some {
        1nat
    } else {
        0nat
    }) + (if req.status is Some { 1nat } else { 0nat })
}

proof fn lemma_book_texts()
    ensures
        "title = ?,"@ == assignment(Seq::empty(), "title"@) + seq![','],
        "author = ?,"@ == assignment(Seq::empty(), "author"@) + seq![','],
        "genre = ?,"@ == assignment(Seq::empty(), "genre"@) + seq![','],
        "published_year = ?,"@ == assignment(Seq::empty(), "published_year"@) + seq![','],
        "status = ?,"@ == assignment(Seq::empty(), "status"@) + seq![','],
        "title = ?"@ == assignment(Seq::empty(), "title"@),
        "author = ?"@ == assignment(Seq::empty(), "author"@),
        "genre = ?"@ == assignment(Seq::empty(), "genre"@),
        "published_year = ?"@ == assignment(Seq::empty(), "published_year"@),
        "status = ?"@ == assignment(Seq::empty(), "status"@),
        placeholders("title"@) == 0,
        placeholders("author"@) == 0,
        placeholders("genre"@) == 0,
        placeholders("published_year"@) == 0,
        placeholders("status"@) == 0,
        placeholders("UPDATE books SET "@) == 0,
        "UPDATE books SET "@.len() > 0,
        "UPDATE books SET "@.last() == ' ',
        placeholders(Seq::<char>::empty()) == 0,
{
    reveal_strlit("title = ?,");
    reveal_strlit("author = ?,");
    reveal_strlit("genre = ?,");
    reveal_strlit("published_year = ?,");
    reveal_strlit("status = ?,");
    reveal_strlit("title = ?");
    reveal_strlit("author = ?");
    reveal_strlit("genre = ?");
    reveal_strlit("published_year = ?");
    reveal_strlit("status = ?");
    reveal_strlit("title");
    reveal_strlit("author");
    reveal_strlit("genre");
    reveal_strlit("published_year");
    reveal_strlit("status");
    reveal_strlit("UPDATE books SET ");
    reveal_with_fuel(placeholders_from, 20);
    assert("title = ?,"@ =~= assignment(Seq::empty(), "title"@) + seq![',']);
    assert("author = ?,"@ =~= assignment(Seq::empty(), "author"@) + seq![',']);
    assert("genre = ?,"@ =~= assignment(Seq::empty(), "genre"@) + seq![',']);
    assert("published_year = ?,"@ =~= assignment(Seq::empty(), "published_year"@) + seq![',']);
    assert("status = ?,"@ =~= assignment(Seq::empty(), "status"@) + seq![',']);
    assert("title = ?"@ =~= assignment(Seq::empty(), "title"@));
    assert("author = ?"@ =~= assignment(Seq::empty(), "author"@));
    assert("genre = ?"@ =~= assignment(Seq::empty(), "genre"@));
    assert("published_year = ?"@ =~= assignment(Seq::empty(), "published_year"@));
    assert("status = ?"@ =~= assignment(Seq::empty(), "status"@));
}

proof fn lemma_book_given_pieces(req: PutRequestBook)
    ensures
        ({
            let e = Seq::<char>::empty();
            let g1 = given_field("title"@, req.title);
            let g2 = given_field("author"@, req.author);
            let g3 = given_field("genre"@, req.genre);
            let g4 = given_field("published_year"@, req.published_year);
            let g5 = given_field("status"@, req.status);
            &&& optional_assignment(req.title, "title = ?,"@) == terminated_assignments(e, column_names(g1))
            &&& optional_assignment(req.author, "author = ?,"@) == terminated_assignments(e, column_names(g2))
            &&& optional_assignment(req.genre, "genre = ?,"@) == terminated_assignments(e, column_names(g3))
            &&& optional_assignment(req.published_year, "published_year = ?,"@)
                == terminated_assignments(e, column_names(g4))
            &&& optional_assignment(req.status, "status = ?,"@) == terminated_assignments(e, column_names(g5))
            &&& optional_param(req.title) == column_values(g1)
            &&& optional_param(req.author) == column_values(g2)
            &&& optional_param(req.genre) == column_values(g3)
            &&& optional_param(req.published_year) == column_values(g4)
            &&& optional_param(req.status) == column_values(g5)
            &&& column_names(book_fields_given(req)) == column_names(g1) + column_names(g2) + column_names(g3)
                + column_names(g4) + column_names(g5)
            &&& column_values(book_fields_given(req)) == column_values(g1) + column_values(g2)
                + column_values(g3) + column_values(g4) + column_values(g5)
            &&& names_free_of_placeholders(book_fields_given(req))
        }),
{
    let e = Seq::<char>::empty();
    lemma_book_texts();
    let g1 = given_field("title"@, req.title);
    let g2 = given_field("author"@, req.author);
    let g3 = given_field("genre"@, req.genre);
    let g4 = given_field("published_year"@, req.published_year);
    let g5 = given_field("status"@, req.status);
    lemma_given_field(e, "title"@, req.title, "title = ?,"@);
    lemma_given_field(e, "author"@, req.author, "author = ?,"@);
    lemma_given_field(e, "genre"@, req.genre, "genre = ?,"@);
    lemma_given_field(e, "published_year"@, req.published_year, "published_year = ?,"@);
    lemma_given_field(e, "status"@, req.status, "status = ?,"@);
    lemma_given_fields_concat(g1, g2);
    lemma_given_fields_concat(g1 + g2, g3);
    lemma_given_fields_concat(g1 + g2 + g3, g4);
    lemma_given_fields_concat(g1 + g2 + g3 + g4, g5);
}

/// A book update sets exactly the given fields: its text is `UPDATE books
/// SET `, the assignments `column = ?` of the given fields in the order
/// title, author, genre, published_year, status, separated by commas, then
/// ` WHERE book_id = ?;`; the given fields' values are bound in the same
/// order, then the book's id.
pub proof fn law_update_book_shape(req: PutRequestBook, book_id: i32)
    ensures
        update_book_sql(req) == "UPDATE books SET "@ + assignment_list(
            Seq::empty(),
            column_names(book_fields_given(req)),
        ) + " WHERE book_id = ?;"@,
        update_book_params(req, book_id) == column_values(book_fields_given(req)) + seq![
            ParamView::Int(book_id as int),
        ],
        names_free_of_placeholders(book_fields_given(req)),
        column_values(book_fields_given(req)).len() == book_fields_count(req),
{
    let e = Seq::<char>::empty();
    lemma_book_texts();
    lemma_book_given_pieces(req);
    let n1 = column_names(given_field("title"@, req.title));
    let n2 = column_names(given_field("author"@, req.author));
    let n3 = column_names(given_field("genre"@, req.genre));
    let n4 = column_names(given_field("published_year"@, req.published_year));
    let n5 = column_names(given_field("status"@, req.status));
    lemma_terminated_concat(e, n1, n2);
    lemma_terminated_concat(e, n1 + n2, n3);
    lemma_terminated_concat(e, n1 + n2 + n3, n4);
    lemma_terminated_concat(e, n1 + n2 + n3 + n4, n5);
    let prefix = "UPDATE books SET "@;
    let names = column_names(book_fields_given(req));
    let t1 = terminated_assignments(e, n1);
    let t2 = terminated_assignments(e, n2);
    let t3 = terminated_assignments(e, n3);
    let t4 = terminated_assignments(e, n4);
    let t5 = terminated_assignments(e, n5);
    assert(terminated_assignments(e, names) == t1 + t2 + t3 + t4 + t5);
    assert(prefix + t1 + t2 + t3 + t4 + t5 =~= prefix + (t1 + t2 + t3 + t4 + t5));
    lemma_trim_terminated(prefix, e, names);
    assert(update_book_params(req, book_id) =~= column_values(book_fields_given(req)) + seq![
        ParamView::Int(book_id as int),
    ]);
    assert(column_values(book_fields_given(req)).len() == book_fields_given(req).len());
}

/// Each field given in a book update is set in its own column: the statement
/// holds `column = ?` for it, and its value is bound to that placeholder;
/// the book's id is bound last, after one value per given field.
pub proof fn law_update_book_assigns_given_fields(req: PutRequestBook, book_id: i32)
    ensures
        ({
            let st = StatementView {
                sql: update_book_sql(req),
                params: update_book_params(req, book_id),
            };
            &&& req.title matches Some(v) ==> assigns(st, "title = ?"@, v@)
            &&& req.author matches Some(v) ==> assigns(st, "author = ?"@, v@)
            &&& req.genre matches Some(v) ==> assigns(st, "genre = ?"@, v@)
            &&& req.published_year matches Some(v) ==> assigns(st, "published_year = ?"@, v@)
            &&& req.status matches Some(v) ==> assigns(st, "status = ?"@, v@)
            &&& st.params.len() == book_fields_count(req) + 1
            &&& st.params.last() == ParamView::Int(book_id as int)
        }),
{
    law_update_book_shape(req, book_id);
    lemma_book_texts();
    let e = Seq::<char>::empty();
    let prefix = "UPDATE books SET "@;
    let suffix = " WHERE book_id = ?;"@;
    let tail = seq![ParamView::Int(book_id as int)];
    let g1 = given_field("title"@, req.title);
    let g2 = given_field("author"@, req.author);
    let g3 = given_field("genre"@, req.genre);
    let g4 = given_field("published_year"@, req.published_year);
    let g5 = given_field("status"@, req.status);
    let all = book_fields_given(req);
    let none = Seq::<(Seq<char>, Seq<char>)>::empty();
    if let Some(v) = req.title {
        assert(all =~= none + seq![("title"@, v@)] + (g2 + g3 + g4 + g5));
        lemma_given_field_assigned(prefix, e, suffix, none, "title"@, v@, g2 + g3 + g4 + g5, tail);
    }
    if let Some(v) = req.author {
        assert(all =~= g1 + seq![("author"@, v@)] + (g3 + g4 + g5));
        lemma_given_field_assigned(prefix, e, suffix, g1, "author"@, v@, g3 + g4 + g5, tail);
    }
    if let Some(v) = req.genre {
        assert(all =~= (g1 + g2) + seq![("genre"@, v@)] + (g4 + g5));
        lemma_given_field_assigned(prefix, e, suffix, g1 + g2, "genre"@, v@, g4 + g5, tail);
    }
    if let Some(v) = req.published_year {
        assert(all =~= (g1 + g2 + g3) + seq![("published_year"@, v@)] + g5);
        lemma_given_field_assigned(prefix, e, suffix, g1 + g2 + g3, "published_year"@, v@, g5, tail);
    }
    if let Some(v) = req.status {
        assert(all =~= (g1 + g2 + g3 + g4) + seq![("status"@, v@)] + none);
        lemma_given_field_assigned(prefix, e, suffix, g1 + g2 + g3 + g4, "status"@, v@, none, tail);
    }
}

/// The statement that lists every book.
pub fn get_books_statement() -> (st: Statement)
    ensures
        st@.sql == "select book_id, title, author, genre, published_year, status from books"@,
        st@.params == Seq::<ParamView>::empty(),
        binds_every_placeholder(st@),
{
    let sql = "select book_id, title, author, genre, published_year, status from books";
    proof {
        reveal_strlit("select book_id, title, author, genre, published_year, status from books");
        assert(placeholders(sql@) == 0) by {
            reveal_with_fuel(placeholders_from, 80);
        }
    }
    let st = statement(sql, Vec::new());
    assert(st@.params =~= Seq::<ParamView>::empty());
    st
}

/// The statement that reads one book.
pub fn get_book_by_id_statement(book_id: i32) -> (st: Statement)
    ensures
        st@.sql == "SELECT * FROM books WHERE book_id = ?"@,
        st@.params == seq![ParamView::Int(book_id as int)],
        binds_every_placeholder(st@),
{
    let sql = "SELECT * FROM books WHERE book_id = ?";
    proof {
        reveal_strlit("SELECT * FROM books WHERE book_id = ?");
        assert(placeholders(sql@) == 1) by {
            reveal_with_fuel(placeholders_from, 40);
        }
    }
    let mut params = Vec::new();
    push_param(&mut params, SqlValue::Int(book_id));
    let st = statement(sql, params);
    assert(st@.params =~= seq![ParamView::Int(book_id as int)]);
    st
}

/// The statement that adds a book; its status is left to the database.
pub fn add_book_statement(req: &PostRequestBook) -> (st: Statement)
    ensures
        st@.sql == "INSERT INTO books (title, author, genre, published_year) VALUES(?, ?, ?, ?)"@,
        st@.params == seq![
            ParamView::Text(req.title@),
            ParamView::Text(req.author@),
            ParamView::Text(req.genre@),
            ParamView::Text(req.published_year@),
        ],
        binds_every_placeholder(st@),
{
    let sql = "INSERT INTO books (title, author, genre, published_year) VALUES(?, ?, ?, ?)";
    proof {
        reveal_strlit("INSERT INTO books (title, author, genre, published_year) VALUES(?, ?, ?, ?)");
        assert(placeholders(sql@) == 4) by {
            reveal_with_fuel(placeholders_from, 80);
        }
    }
    let mut params = Vec::new();
    push_param(&mut params, SqlValue::Text(req.title.clone()));
    push_param(&mut params, SqlValue::Text(req.author.clone()));
    push_param(&mut params, SqlValue::Text(req.genre.clone()));
    push_param(&mut params, SqlValue::Text(req.published_year.clone()));
    let st = statement(sql, params);
    assert(st@.params =~= seq![
        ParamView::Text(req.title@),
        ParamView::Text(req.author@),
        ParamView::Text(req.genre@),
        ParamView::Text(req.published_year@),
    ]);
    st
}

proof fn lemma_book_update_placeholders()
    ensures
        placeholders("UPDATE books SET "@) == 0,
        placeholders("title = ?,"@) == 1,
        placeholders("author = ?,"@) == 1,
        placeholders("genre = ?,"@) == 1,
        placeholders("published_year = ?,"@) == 1,
        placeholders("status = ?,"@) == 1,
        placeholders(" WHERE book_id = ?;"@) == 1,
{
    reveal_strlit("UPDATE books SET ");
    reveal_strlit("title = ?,");
    reveal_strlit("author = ?,");
    reveal_strlit("genre = ?,");
    reveal_strlit("published_year = ?,");
    reveal_strlit("status = ?,");
    reveal_strlit(" WHERE book_id = ?;");
    reveal_with_fuel(placeholders_from, 24);
}

/// The statement that changes the fields given in `req` of one book. With no
/// field given the statement sets nothing, and the database refuses it.
pub fn update_book_statement(req: &PutRequestBook, book_id: i32) -> (st: Statement)
    ensures
        st@.sql == update_book_sql(*req),
        st@.params == update_book_params(*req, book_id),
        binds_every_placeholder(st@),
        req.title matches Some(v) ==> assigns(st@, "title = ?"@, v@),
        req.author matches Some(v) ==> assigns(st@, "author = ?"@, v@),
        req.genre matches Some(v) ==> assigns(st@, "genre = ?"@, v@),
        req.published_year matches Some(v) ==> assigns(st@, "published_year = ?"@, v@),
        req.status matches Some(v) ==> assigns(st@, "status = ?"@, v@),
        st@.params.len() == book_fields_count(*req) + 1,
        st@.params.last() == ParamView::Int(book_id as int),
{
    proof {
        law_update_book_assigns_given_fields(*req, book_id);
    }
    let mut sql = String::from_str("UPDATE books SET ");
    let mut params: Vec<SqlValue> = Vec::new();
    proof {
        lemma_book_update_placeholders();
        assert(params_view(params@) =~= Seq::<ParamView>::empty());
    }
    append_assignment(&mut sql, &mut params, &req.title, "title = ?,");
    append_assignment(&mut sql, &mut params, &req.author, "author = ?,");
    append_assignment(&mut sql, &mut params, &req.genre, "genre = ?,");
    append_assignment(&mut sql, &mut params, &req.published_year, "published_year = ?,");
    append_assignment(&mut sql, &mut params, &req.status, "status = ?,");
    let ghost assignments = sql@;
    let mut sql = trim_end_matching(sql.as_str(), ',');
    sql.append(" WHERE book_id = ?;");
    push_param(&mut params, SqlValue::Int(book_id));
    proof {
        lemma_placeholders_trim_commas(assignments);
        lemma_placeholders_concat(trim_end_char(assignments, ','), " WHERE book_id = ?;"@);
        assert(params_view(params@) =~= update_book_params(*req, book_id));
    }
    Statement { sql, params }
}

/// The statement that removes one book.
pub fn delete_book_by_id_statement(book_id: i32) -> (st: Statement)
    ensures
        st@.sql == "DELETE FROM books WHERE book_id = ?"@,
        st@.params == seq![ParamView::Int(book_id as int)],
        binds_every_placeholder(st@),
{
    let sql = "DELETE FROM books WHERE book_id = ?";
    proof {
        reveal_strlit("DELETE FROM books WHERE book_id = ?");
        assert(placeholders(sql@) == 1) by {
            reveal_with_fuel(placeholders_from, 40);
        }
    }
    let mut params = Vec::new();
    push_param(&mut params, SqlValue::Int(book_id));
    let st = statement(sql, params);
    assert(st@.params =~= seq![ParamView::Int(book_id as int)]);
    st
}

/// The answer to the listing of every book: the books as JSON, or status 500
/// with the error.
pub fn get_books_reply(outcome: Result<Vec<Book>, String>) -> (r: Reply)
    ensures
        match outcome {
            Ok(books) => r.status == Status::Success && r.body == Body::Books(books),
            Err(e) => is_text_reply(r, Status::InternalServerError, e@),
        },
{
    match outcome {
        Ok(books) => Reply { status: Status::Success, body: Body::Books(books) },
        Err(e) => failure_reply(e),
    }
}

/// The answer to the reading of one book: the book as JSON, or status 500
/// with the error (also when no book has that id).
pub fn get_book_by_id_reply(outcome: Result<Book, String>) -> (r: Reply)
    ensures
        match outcome {
            Ok(book) => r.status == Status::Success && r.body == Body::Book(book),
            Err(e) => is_text_reply(r, Status::InternalServerError, e@),
        },
{
    match outcome {
        Ok(book) => Reply { status: Status::Success, body: Body::Book(book) },
        Err(e) => failure_reply(e),
    }
}

/// The answer to adding a book, given its title and the id the database gave
/// it: `<title> added to the library. Id is <id>`, or status 500 with the
/// error.
pub fn add_book_reply(title: &String, outcome: Result<u64, String>) -> (r: Reply)
    ensures
        match outcome {
            Ok(id) => is_text_reply(
                r,
                Status::Success,
                title@ + " added to the library. Id is "@ + decimal(id as nat),
            ),
            Err(e) => is_text_reply(r, Status::InternalServerError, e@),
        },
{
    match outcome {
        Ok(id) => {
            let mut text = title.clone();
            text.append(" added to the library. Id is ");
            let digits = unsigned_text(id);
            text.append(digits.as_str());
            text_reply(Status::Success, text)
        },
        Err(e) => failure_reply(e),
    }
}

/// The answer to changing a book: `book <id> is updated`, or status 500 with
/// the error.
pub fn update_book_reply(book_id: i32, outcome: Result<(), String>) -> (r: Reply)
    ensures
        match outcome {
            Ok(_) => is_text_reply(
                r,
                Status::Success,
                "book "@ + signed_decimal(book_id as int) + " is updated"@,
            ),
            Err(e) => is_text_reply(r, Status::InternalServerError, e@),
        },
{
    match outcome {
        Ok(_) => {
            let mut text = String::from_str("book ");
            let digits = signed_text(book_id);
            text.append(digits.as_str());
            text.append(" is updated");
            text_reply(Status::Success, text)
        },
        Err(e) => failure_reply(e),
    }
}

/// The answer to removing a book: `book <id> removed from library`, or status
/// 500 with the error.
pub fn delete_book_by_id_reply(book_id: i32, outcome: Result<(), String>) -> (r: Reply)
    ensures
        match outcome {
            Ok(_) => is_text_reply(
                r,
                Status::Success,
                "book "@ + signed_decimal(book_id as int) + " removed from library"@,
            ),
            Err(e) => is_text_reply(r, Status::InternalServerError, e@),
        },
{
    match outcome {
        Ok(_) => {
            let mut text = String::from_str("book ");
            let digits = signed_text(book_id);
            text.append(digits.as_str());
            text.append(" removed from library");
            text_reply(Status::Success, text)
        },
        Err(e) => failure_reply(e),
    }
}

} // verus!
