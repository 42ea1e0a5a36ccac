use library_service::date::Date;
use library_service::loans::{
    add_loan_statement, advance_loan, book_url, delete_loan_by_id_reply,
    delete_loan_by_id_statement, get_loan_by_id_reply, get_loan_by_id_statement, get_loans_reply,
    get_loans_statement, plan_loan_update, start_loan, update_loan_return_date_reply,
    update_loan_status_reply, LoanAction, LoanEvent, LoanFlow, LoanUpdatePlan,
};
use library_service::models::{Book, Loan, LoanCreated, PostRequestLoan, PutBookStatus, PutRequestLoan};
use library_service::reply::{Body, Reply, Status};
use library_service::statement::SqlValue;

fn text(s: &str) -> SqlValue {
    SqlValue::Text(s.to_string())
}

fn text_reply(status: Status, s: &str) -> Reply {
    Reply { status, body: Body::Text(s.to_string()) }
}

fn date(y: i32, m: u32, d: u32) -> Date {
    Date::from_ymd(y, m, d).expect("a valid date")
}

fn book_with_status(status: &str) -> Book {
    Book {
        book_id: 3,
        title: "Dune".to_string(),
        author: "Frank Herbert".to_string(),
        genre: "Science fiction".to_string(),
        published_year: "1965".to_string(),
        status: status.to_string(),
    }
}

fn request() -> PostRequestLoan {
    PostRequestLoan { book_id: 3, member_id: 8 }
}

#[test]
fn loans_are_listed_read_and_removed() {
    let st = get_loans_statement();
    assert_eq!(st.sql, "SELECT * FROM loans");
    assert!(st.params.is_empty());
    let st = get_loan_by_id_statement(4);
    assert_eq!(st.sql, "SELECT * FROM loans WHERE loan_id = ?");
    assert_eq!(st.params, vec![SqlValue::Int(4)]);
    let st = delete_loan_by_id_statement(4);
    assert_eq!(st.sql, "DELETE * FROM loans WHERE loan_id = ?");
    assert_eq!(st.params, vec![SqlValue::Int(4)]);
}

#[test]
fn book_addresses_point_at_the_book_service() {
    assert_eq!(book_url(3), "http://localhost:8080/books/3");
    assert_eq!(book_url(-20), "http://localhost:8080/books/-20");
}

#[test]
fn a_loan_records_both_dates() {
    let st = add_loan_statement(request(), &date(2024, 1, 31), &date(2024, 2, 29));
    assert_eq!(
        st.sql,
        "INSERT INTO loans(book_id, member_id, issue_date, return_date) VALUES(?,?,?,?)"
    );
    assert_eq!(
        st.params,
        vec![SqlValue::Int(3), SqlValue::Int(8), text("2024-01-31"), text("2024-02-29")]
    );
}

#[test]
fn an_available_book_is_lent_for_one_month() {
    let (flow, action) = start_loan(request());
    assert_eq!(flow, LoanFlow::FetchingBook(request()));
    assert_eq!(action, LoanAction::FetchBook("http://localhost:8080/books/3".to_string()));

    let (flow, action) = advance_loan(flow, LoanEvent::BookFetched(Ok(book_with_status("available"))));
    assert_eq!(flow, LoanFlow::MarkingIssued(request()));
    assert_eq!(
        action,
        LoanAction::MarkBookIssued(
            "http://localhost:8080/books/3".to_string(),
            PutBookStatus { status: "issued".to_string() }
        )
    );

    let (flow, action) = advance_loan(flow, LoanEvent::BookMarked(date(2024, 1, 31)));
    assert_eq!(flow, LoanFlow::Inserting);
    match action {
        LoanAction::Insert(st) => {
            assert_eq!(
                st.params,
                vec![SqlValue::Int(3), SqlValue::Int(8), text("2024-01-31"), text("2024-02-29")]
            );
        }
        other => panic!("expected an insert, got {:?}", other),
    }

    let (flow, action) = advance_loan(flow, LoanEvent::LoanInserted(Ok(17)));
    assert_eq!(flow, LoanFlow::Done);
    assert_eq!(
        action,
        LoanAction::Respond(Reply {
            status: Status::Success,
            body: Body::LoanCreated(LoanCreated { loan_id: 17, status: "active".to_string() }),
        })
    );

    let (flow, action) = advance_loan(flow, LoanEvent::LoanInserted(Ok(18)));
    assert_eq!(flow, LoanFlow::Done);
    assert_eq!(action, LoanAction::Nothing);
}

#[test]
fn an_issued_book_is_not_lent() {
    let (flow, _) = start_loan(request());
    let (flow, action) = advance_loan(flow, LoanEvent::BookFetched(Ok(book_with_status("issued"))));
    assert_eq!(flow, LoanFlow::Done);
    assert_eq!(action, LoanAction::Respond(text_reply(Status::Success, "Book already issued")));
}

#[test]
fn failed_calls_end_the_loan_with_their_error() {
    let (flow, _) = start_loan(request());
    let (flow, action) = advance_loan(flow, LoanEvent::BookFetched(Err("connection refused".to_string())));
    assert_eq!(flow, LoanFlow::Done);
    assert_eq!(action, LoanAction::Respond(text_reply(Status::InternalServerError, "connection refused")));

    let (flow, action) = advance_loan(LoanFlow::Inserting, LoanEvent::LoanInserted(Err("fk".to_string())));
    assert_eq!(flow, LoanFlow::Done);
    assert_eq!(action, LoanAction::Respond(text_reply(Status::InternalServerError, "fk")));
}

#[test]
fn events_out_of_turn_change_nothing() {
    let (flow, _) = start_loan(request());
    let (same, action) = advance_loan(flow, LoanEvent::LoanInserted(Ok(1)));
    assert_eq!(same, flow);
    assert_eq!(action, LoanAction::Nothing);
    let (same, action) = advance_loan(flow, LoanEvent::BookMarked(date(2024, 5, 1)));
    assert_eq!(same, flow);
    assert_eq!(action, LoanAction::Nothing);
}

#[test]
fn a_new_return_date_wins_over_a_status() {
    let req = PutRequestLoan {
        return_date: Some("2024-06-01".to_string()),
        status: Some("returned".to_string()),
    };
    match plan_loan_update(&req, 4, &date(2024, 5, 20)) {
        LoanUpdatePlan::SetReturnDate(st) => {
            assert_eq!(st.sql, "UPDATE loans SET return_date = ? WHERE loan_id = ?");
            assert_eq!(st.params, vec![text("2024-06-01"), SqlValue::Int(4)]);
        }
        other => panic!("unexpected plan {:?}", other),
    }
}

#[test]
fn a_status_change_returns_the_book() {
    let req = PutRequestLoan { return_date: None, status: Some("returned".to_string()) };
    match plan_loan_update(&req, 4, &date(2024, 5, 20)) {
        LoanUpdatePlan::ChangeStatus(first, second) => {
            assert_eq!(first.sql, "UPDATE loans SET status = ?, return_date = ? WHERE loan_id = ?");
            assert_eq!(first.params, vec![text("returned"), text("24-05-20"), SqlValue::Int(4)]);
            assert_eq!(
                second.sql,
                "UPDATE books SET status = 'available' WHERE book_id = (SELECT book_id FROM loans WHERE loan_id = ?);"
            );
            assert_eq!(second.params, vec![SqlValue::Int(4)]);
        }
        other => panic!("unexpected plan {:?}", other),
    }
}

#[test]
fn an_empty_loan_change_is_refused() {
    let req = PutRequestLoan { return_date: None, status: None };
    assert_eq!(
        plan_loan_update(&req, 4, &date(2024, 5, 20)),
        LoanUpdatePlan::Refuse(text_reply(
            Status::InternalServerError,
            "Expected a status or return_date in JSON body"
        ))
    );
}

#[test]
fn loan_replies() {
    let loan = Loan {
        loan_id: 4,
        book_id: 3,
        member_id: 8,
        issue_date: "2024-01-31".to_string(),
        return_date: "2024-02-29".to_string(),
        status: "active".to_string(),
    };
    assert_eq!(
        get_loans_reply(Ok(vec![loan.clone()])),
        Reply { status: Status::Success, body: Body::Loans(vec![loan.clone()]) }
    );
    assert_eq!(
        get_loan_by_id_reply(Ok(vec![])),
        Reply { status: Status::Success, body: Body::Loans(vec![]) }
    );
    assert_eq!(
        get_loan_by_id_reply(Err("down".to_string())),
        text_reply(Status::InternalServerError, "down")
    );
    assert_eq!(
        update_loan_return_date_reply(4, Ok(())),
        text_reply(Status::Success, "Loan 4, return date updated")
    );
    assert_eq!(
        update_loan_return_date_reply(4, Err("bad".to_string())),
        text_reply(Status::InternalServerError, "bad")
    );
    assert_eq!(update_loan_status_reply(4, Ok(())), text_reply(Status::Success, "Loan 4, status changed"));
    assert_eq!(
        update_loan_status_reply(4, Err("deadlock".to_string())),
        text_reply(Status::Success, "deadlock")
    );
    assert_eq!(
        delete_loan_by_id_reply(4, Ok(())),
        text_reply(Status::Success, "Loan 4 deleted from loans record")
    );
}
