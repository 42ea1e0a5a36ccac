use library_service::books::{
    add_book_reply, add_book_statement, delete_book_by_id_reply, delete_book_by_id_statement,
    get_book_by_id_reply, get_book_by_id_statement, get_books_reply, get_books_statement,
    update_book_reply, update_book_statement,
};
use library_service::models::{Book, PostRequestBook, PutRequestBook};
use library_service::reply::{Body, Reply, Status};
use library_service::statement::{SqlValue, Statement};

fn text(s: &str) -> SqlValue {
    SqlValue::Text(s.to_string())
}

fn placeholders(st: &Statement) -> usize {
    st.sql.chars().filter(|c| *c == '?').count()
}

fn text_reply(status: Status, s: &str) -> Reply {
    Reply { status, body: Body::Text(s.to_string()) }
}

fn sample_book() -> Book {
    Book {
        book_id: 3,
        title: "Dune".to_string(),
        author: "Frank Herbert".to_string(),
        genre: "Science fiction".to_string(),
        published_year: "1965".to_string(),
        status: "available".to_string(),
    }
}

fn no_change() -> PutRequestBook {
    PutRequestBook { title: None, author: None, genre: None, published_year: None, status: None }
}

#[test]
fn books_are_listed_with_their_columns() {
    let st = get_books_statement();
    assert_eq!(st.sql, "select book_id, title, author, genre, published_year, status from books");
    assert!(st.params.is_empty());
}

#[test]
fn one_book_is_read_by_id() {
    let st = get_book_by_id_statement(12);
    assert_eq!(st.sql, "SELECT * FROM books WHERE book_id = ?");
    assert_eq!(st.params, vec![SqlValue::Int(12)]);
}

#[test]
fn a_new_book_binds_its_four_fields() {
    let req = PostRequestBook {
        title: "Dune".to_string(),
        author: "Frank Herbert".to_string(),
        genre: "Science fiction".to_string(),
        published_year: "1965".to_string(),
    };
    let st = add_book_statement(&req);
    assert_eq!(st.sql, "INSERT INTO books (title, author, genre, published_year) VALUES(?, ?, ?, ?)");
    assert_eq!(st.params, vec![text("Dune"), text("Frank Herbert"), text("Science fiction"), text("1965")]);
    assert_eq!(placeholders(&st), st.params.len());
}

#[test]
fn an_update_sets_only_the_given_fields() {
    let req = PutRequestBook {
        title: Some("Dune Messiah".to_string()),
        status: Some("issued".to_string()),
        ..no_change()
    };
    let st = update_book_statement(&req, 7);
    assert_eq!(st.sql, "UPDATE books SET title = ?,status = ? WHERE book_id = ?;");
    assert_eq!(st.params, vec![text("Dune Messiah"), text("issued"), SqlValue::Int(7)]);
    assert_eq!(placeholders(&st), st.params.len());
}

#[test]
fn an_update_of_every_field_keeps_their_order() {
    let req = PutRequestBook {
        title: Some("T".to_string()),
        author: Some("A".to_string()),
        genre: Some("G".to_string()),
        published_year: Some("Y".to_string()),
        status: Some("S".to_string()),
    };
    let st = update_book_statement(&req, -1);
    assert_eq!(
        st.sql,
        "UPDATE books SET title = ?,author = ?,genre = ?,published_year = ?,status = ? WHERE book_id = ?;"
    );
    assert_eq!(
        st.params,
        vec![text("T"), text("A"), text("G"), text("Y"), text("S"), SqlValue::Int(-1)]
    );
}

#[test]
fn an_update_without_fields_sets_nothing() {
    let st = update_book_statement(&no_change(), 4);
    assert_eq!(st.sql, "UPDATE books SET  WHERE book_id = ?;");
    assert_eq!(st.params, vec![SqlValue::Int(4)]);
}

#[test]
fn a_book_is_removed_by_id() {
    let st = delete_book_by_id_statement(9);
    assert_eq!(st.sql, "DELETE FROM books WHERE book_id = ?");
    assert_eq!(st.params, vec![SqlValue::Int(9)]);
}

#[test]
fn listed_books_are_sent_as_records() {
    let r = get_books_reply(Ok(vec![sample_book()]));
    assert_eq!(r, Reply { status: Status::Success, body: Body::Books(vec![sample_book()]) });
    assert_eq!(r.status.code(), 200);
    let r = get_books_reply(Err("pool timed out".to_string()));
    assert_eq!(r, text_reply(Status::InternalServerError, "pool timed out"));
    assert_eq!(r.status.code(), 500);
}

#[test]
fn a_read_book_is_sent_as_a_record() {
    let r = get_book_by_id_reply(Ok(sample_book()));
    assert_eq!(r, Reply { status: Status::Success, body: Body::Book(sample_book()) });
    let r = get_book_by_id_reply(Err("no rows returned".to_string()));
    assert_eq!(r, text_reply(Status::InternalServerError, "no rows returned"));
}

#[test]
fn an_added_book_is_announced_with_its_id() {
    let r = add_book_reply(&"Dune".to_string(), Ok(31));
    assert_eq!(r, text_reply(Status::Success, "Dune added to the library. Id is 31"));
    let r = add_book_reply(&"Dune".to_string(), Err("duplicate".to_string()));
    assert_eq!(r, text_reply(Status::InternalServerError, "duplicate"));
}

#[test]
fn an_updated_book_is_announced() {
    assert_eq!(update_book_reply(7, Ok(())), text_reply(Status::Success, "book 7 is updated"));
    assert_eq!(
        update_book_reply(7, Err("syntax error".to_string())),
        text_reply(Status::InternalServerError, "syntax error")
    );
}

#[test]
fn a_removed_book_is_announced() {
    assert_eq!(
        delete_book_by_id_reply(-3, Ok(())),
        text_reply(Status::Success, "book -3 removed from library")
    );
    assert_eq!(
        delete_book_by_id_reply(3, Err("locked".to_string())),
        text_reply(Status::InternalServerError, "locked")
    );
}
