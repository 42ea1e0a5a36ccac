//! Loans: the statements each loan request runs, how its outcome is
//! answered, the steps that open a loan, and the plan that changes one.

use vstd::prelude::*;

use crate::date::{
    is_before, is_one_month_after, iso_date_text, iso_text, law_iso_date_text_injective,
    lemma_one_month_after, months_after,
    one_month_later, short_date_text, short_text, Date,
};
use crate::models::{Book, Loan, LoanCreated, PostRequestLoan, PutBookStatus, PutRequestLoan};
use crate::reply::{failure_reply, is_text_reply, text_reply, Body, Reply, Status};
use crate::statement::{
    binds_every_placeholder, placeholders, placeholders_from, push_param, statement, ParamView,
    SqlValue, Statement,
};
use crate::text::{signed_decimal, signed_text};

verus! {

/// The address of a book on the book service.
pub open spec fn book_url_text(book_id: i32) -> Seq<char> {
    "http://localhost:8080/books/"@ + signed_decimal(book_id as int)
}

/// The text of the statement that records a loan.
pub open spec fn add_loan_sql() -> Seq<char> {
    "INSERT INTO loans(book_id, member_id, issue_date, return_date) VALUES(?,?,?,?)"@
}

/// The values bound by the statement that records a loan: the book, the
/// member, the issue date and the return date, both as `%Y-%m-%d`.
pub open spec fn add_loan_params(req: PostRequestLoan, issued: Date, due: Date) -> Seq<ParamView> {
    seq![
        ParamView::Int(req.book_id as int),
        ParamView::Int(req.member_id as int),
        ParamView::Text(iso_date_text(issued)),
        ParamView::Text(iso_date_text(due)),
    ]
}

/// The statement that lists every loan.
pub fn get_loans_statement() -> (st: Statement)
    ensures
        st@.sql == "SELECT * FROM loans"@,
        st@.params == Seq::<ParamView>::empty(),
        binds_every_placeholder(st@),
{
    let sql = "SELECT * FROM loans";
    proof {
        reveal_strlit("SELECT * FROM loans");
        assert(placeholders(sql@) == 0) by {
            reveal_with_fuel(placeholders_from, 22);
        }
    }
    let st = statement(sql, Vec::new());
    assert(st@.params =~= Seq::<ParamView>::empty());
    st
}

/// The statement that reads the loans with one id.
pub fn get_loan_by_id_statement(loan_id: i32) -> (st: Statement)
    ensures
        st@.sql == "SELECT * FROM loans WHERE loan_id = ?"@,
        st@.params == seq![ParamView::Int(loan_id as int)],
        binds_every_placeholder(st@),
{
    let sql = "SELECT * FROM loans WHERE loan_id = ?";
    proof {
        reveal_strlit("SELECT * FROM loans WHERE loan_id = ?");
        assert(placeholders(sql@) == 1) by {
            reveal_with_fuel(placeholders_from, 40);
        }
    }
    let mut params = Vec::new();
    push_param(&mut params, SqlValue::Int(loan_id));
    let st = statement(sql, params);
    assert(st@.params =~= seq![ParamView::Int(loan_id as int)]);
    st
}

/// The statement that removes one loan (as the service writes it:
/// `DELETE * FROM`, which MySQL refuses).
pub fn delete_loan_by_id_statement(loan_id: i32) -> (st: Statement)
    ensures
        st@.sql == "DELETE * FROM loans WHERE loan_id = ?"@,
        st@.params == seq![ParamView::Int(loan_id as int)],
        binds_every_placeholder(st@),
{
    let sql = "DELETE * FROM loans WHERE loan_id = ?";
    proof {
        reveal_strlit("DELETE * FROM loans WHERE loan_id = ?");
        assert(placeholders(sql@) == 1) by {
            reveal_with_fuel(placeholders_from, 40);
        }
    }
    let mut params = Vec::new();
    push_param(&mut params, SqlValue::Int(loan_id));
    let st = statement(sql, params);
    assert(st@.params =~= seq![ParamView::Int(loan_id as int)]);
    st
}

proof fn lemma_add_loan_sql_placeholders()
    ensures
        placeholders(add_loan_sql()) == 4,
{
    reveal_strlit("INSERT INTO loans(book_id, member_id, issue_date, return_date) VALUES(?,?,?,?)");
    reveal_with_fuel(placeholders_from, 80);
}

/// The statement that records a loan of `req.book_id` to `req.member_id`,
/// issued on `issued` and due back on `due`.
pub fn add_loan_statement(req: PostRequestLoan, issued: &Date, due: &Date) -> (st: Statement)
    requires
        issued.valid(),
        due.valid(),
    ensures
        st@.sql == add_loan_sql(),
        st@.sql == "INSERT INTO loans(book_id, member_id, issue_date, return_date) VALUES(?,?,?,?)"@,
        st@.params == add_loan_params(req, *issued, *due),
        binds_every_placeholder(st@),
        st@.params.len() == 4,
        st@.params[0] == ParamView::Int(req.book_id as int),
        st@.params[1] == ParamView::Int(req.member_id as int),
        st@.params[2] == ParamView::Text(iso_date_text(*issued)),
        st@.params[3] == ParamView::Text(iso_date_text(*due)),
        *issued != *due ==> st@.params[3] != st@.params[2],
{
    proof {
        if iso_date_text(*issued) == iso_date_text(*due) {
            law_iso_date_text_injective(*issued, *due);
        }
    }
    let sql = "INSERT INTO loans(book_id, member_id, issue_date, return_date) VALUES(?,?,?,?)";
    proof {
        lemma_add_loan_sql_placeholders();
    }
    let mut params = Vec::new();
    push_param(&mut params, SqlValue::Int(req.book_id));
    push_param(&mut params, SqlValue::Int(req.member_id));
    push_param(&mut params, SqlValue::Text(iso_text(issued)));
    push_param(&mut params, SqlValue::Text(iso_text(due)));
    let st = statement(sql, params);
    assert(st@.params =~= add_loan_params(req, *issued, *due));
    st
}

/// The address of a book on the book service.
pub fn book_url(book_id: i32) -> (url: String)
    ensures
        url@ == book_url_text(book_id),
        url@ == "http://localhost:8080/books/"@ + signed_decimal(book_id as int),
{
    let mut url = String::from_str("http://localhost:8080/books/");
    let digits = signed_text(book_id);
    url.append(digits.as_str());
    url
}

/// The answer to the listing of every loan: the loans as JSON, or status 500
/// with the error.
pub fn get_loans_reply(outcome: Result<Vec<Loan>, String>) -> (r: Reply)
    ensures
        match outcome {
            Ok(loans) => r.status == Status::Success && r.body == Body::Loans(loans),
            Err(e) => is_text_reply(r, Status::InternalServerError, e@),
        },
{
    match outcome {
        Ok(loans) => Reply { status: Status::Success, body: Body::Loans(loans) },
        Err(e) => failure_reply(e),
    }
}

/// The answer to the reading of the loans with one id: the list of them as
/// JSON (empty when there is none), or status 500 with the error.
pub fn get_loan_by_id_reply(outcome: Result<Vec<Loan>, String>) -> (r: Reply)
    ensures
        match outcome {
            Ok(loans) => r.status == Status::Success && r.body == Body::Loans(loans),
            Err(e) => is_text_reply(r, Status::InternalServerError, e@),
        },
{
    get_loans_reply(outcome)
}

/// The answer to removing a loan: `Loan <id> deleted from loans record`, or
/// status 500 with the error.
pub fn delete_loan_by_id_reply(loan_id: i32, outcome: Result<(), String>) -> (r: Reply)
    ensures
        match outcome {
            Ok(_) => is_text_reply(
                r,
                Status::Success,
                "Loan "@ + signed_decimal(loan_id as int) + " deleted from loans record"@,
            ),
            Err(e) => is_text_reply(r, Status::InternalServerError, e@),
        },
{
    match outcome {
        Ok(_) => {
            let mut text = String::from_str("Loan ");
            let digits = signed_text(loan_id);
            text.append(digits.as_str());
            text.append(" deleted from loans record");
            text_reply(Status::Success, text)
        },
        Err(e) => failure_reply(e),
    }
}

/// The text of the statement that sets a loan's return date.
pub open spec fn set_return_date_sql() -> Seq<char> {
    "UPDATE loans SET return_date = ? WHERE loan_id = ?"@
}

/// The text of the statement that sets a loan's status and return date.
pub open spec fn set_status_sql() -> Seq<char> {
    "UPDATE loans SET status = ?, return_date = ? WHERE loan_id = ?"@
}

/// The text of the statement that makes a loan's book available again.
pub open spec fn release_book_sql() -> Seq<char> {
    "UPDATE books SET status = 'available' WHERE book_id = (SELECT book_id FROM loans WHERE loan_id = ?);"@
}

proof fn lemma_update_loan_sql_placeholders()
    ensures
        placeholders(set_return_date_sql()) == 2,
        placeholders(set_status_sql()) == 3,
        placeholders(release_book_sql()) == 1,
{
    reveal_strlit("UPDATE loans SET return_date = ? WHERE loan_id = ?");
    reveal_strlit("UPDATE loans SET status = ?, return_date = ? WHERE loan_id = ?");
    reveal_with_fuel(placeholders_from, 65);
    lemma_release_book_sql_placeholders();
}

proof fn lemma_release_book_sql_placeholders()
    ensures
        placeholders(release_book_sql()) == 1,
{
    reveal_strlit(
        "UPDATE books SET status = 'available' WHERE book_id = (SELECT book_id FROM loans WHERE loan_id = ?);",
    );
    let s = release_book_sql();
    assert(s.len() == 100);
    assert(placeholders_from(s, 50) == 1) by {
        reveal_with_fuel(placeholders_from, 55);
    }
    assert(placeholders_from(s, 0) == placeholders_from(s, 50)) by {
        reveal_with_fuel(placeholders_from, 55);
    }
}

/// What a request to change a loan runs.
#[derive(Clone, Debug, PartialEq, Eq)]
pub enum LoanUpdatePlan {
    /// Run this statement.
    SetReturnDate(Statement),
    /// Run both statements in one transaction, in this order.
    ChangeStatus(Statement, Statement),
    /// Run nothing and answer this.
    Refuse(Reply),
}

/// The plan for a request that changes loan `loan_id`, received on `today`.
/// A new return date, when given, is all that is set. Otherwise a new status
/// is set together with today's date (as `%y-%m-%d`) as the return date, and
/// in the same transaction the loan's book is made available again. With
/// neither, the request is refused with status 500.
pub fn plan_loan_update(req: &PutRequestLoan, loan_id: i32, today: &Date) -> (plan: LoanUpdatePlan)
    requires
        today.valid(),
    ensures
        match req.return_date {
            Some(return_date) => {
                &&& plan matches LoanUpdatePlan::SetReturnDate(st)
                &&& st@.sql == set_return_date_sql()
                &&& st@.sql == "UPDATE loans SET return_date = ? WHERE loan_id = ?"@
                &&& st@.params == seq![ParamView::Text(return_date@), ParamView::Int(loan_id as int)]
                &&& binds_every_placeholder(st@)
            },
            None => match req.status {
                Some(status) => {
                    &&& plan matches LoanUpdatePlan::ChangeStatus(first, second)
                    &&& first@.sql == set_status_sql()
                    &&& first@.sql == "UPDATE loans SET status = ?, return_date = ? WHERE loan_id = ?"@
                    &&& first@.params == seq![
                        ParamView::Text(status@),
                        ParamView::Text(short_date_text(*today)),
                        ParamView::Int(loan_id as int),
                    ]
                    &&& binds_every_placeholder(first@)
                    &&& second@.sql == release_book_sql()
                    &&& second@.sql
                        == "UPDATE books SET status = 'available' WHERE book_id = (SELECT book_id FROM loans WHERE loan_id = ?);"@
                    &&& second@.params == seq![ParamView::Int(loan_id as int)]
                    &&& binds_every_placeholder(second@)
                },
                None => {
                    &&& plan matches LoanUpdatePlan::Refuse(r)
                    &&& is_text_reply(
                        r,
                        Status::InternalServerError,
                        "Expected a status or return_date in JSON body"@,
                    )
                },
            },
        },
{
    proof {
        lemma_update_loan_sql_placeholders();
    }
    match &req.return_date {
        Some(return_date) => {
            let mut params = Vec::new();
            push_param(&mut params, SqlValue::Text(return_date.clone()));
            push_param(&mut params, SqlValue::Int(loan_id));
            let st = statement("UPDATE loans SET return_date = ? WHERE loan_id = ?", params);
            assert(st@.params =~= seq![ParamView::Text(return_date@), ParamView::Int(loan_id as int)]);
            LoanUpdatePlan::SetReturnDate(st)
        },
        None => match &req.status {
            Some(status) => {
                let mut params = Vec::new();
                push_param(&mut params, SqlValue::Text(status.clone()));
                push_param(&mut params, SqlValue::Text(short_text(today)));
                push_param(&mut params, SqlValue::Int(loan_id));
                let first = statement(
                    "UPDATE loans SET status = ?, return_date = ? WHERE loan_id = ?",
                    params,
                );
                let mut params = Vec::new();
                push_param(&mut params, SqlValue::Int(loan_id));
                let second = statement(
                    "UPDATE books SET status = 'available' WHERE book_id = (SELECT book_id FROM loans WHERE loan_id = ?);",
                    params,
                );
                assert(first@.params =~= seq![
                    ParamView::Text(status@),
                    ParamView::Text(short_date_text(*today)),
                    ParamView::Int(loan_id as int),
                ]);
                assert(second@.params =~= seq![ParamView::Int(loan_id as int)]);
                LoanUpdatePlan::ChangeStatus(first, second)
            },
            None => {
                let text = String::from_str("Expected a status or return_date in JSON body");
                LoanUpdatePlan::Refuse(failure_reply(text))
            },
        },
    }
}

/// The answer to setting a loan's return date: `Loan <id>, return date
/// updated`, or status 500 with the error.
pub fn update_loan_return_date_reply(loan_id: i32, outcome: Result<(), String>) -> (r: Reply)
    ensures
        match outcome {
            Ok(_) => is_text_reply(
                r,
                Status::Success,
                "Loan "@ + signed_decimal(loan_id as int) + ", return date updated"@,
            ),
            Err(e) => is_text_reply(r, Status::InternalServerError, e@),
        },
{
    match outcome {
        Ok(_) => {
            let mut text = String::from_str("Loan ");
            let digits = signed_text(loan_id);
            text.append(digits.as_str());
            text.append(", return date updated");
            text_reply(Status::Success, text)
        },
        Err(e) => failure_reply(e),
    }
}

/// The answer to the commit of a loan's status change: `Loan <id>, status
/// changed`, or the commit's error, with status 200 either way.
pub fn update_loan_status_reply(loan_id: i32, commit: Result<(), String>) -> (r: Reply)
    ensures
        match commit {
            Ok(_) => is_text_reply(
                r,
                Status::Success,
                "Loan "@ + signed_decimal(loan_id as int) + ", status changed"@,
            ),
            Err(e) => is_text_reply(r, Status::Success, e@),
        },
{
    match commit {
        Ok(_) => {
            let mut text = String::from_str("Loan ");
            let digits = signed_text(loan_id);
            text.append(digits.as_str());
            text.append(", status changed");
            text_reply(Status::Success, text)
        },
        Err(e) => text_reply(Status::Success, e),
    }
}

/// Where the opening of a loan stands.
#[derive(Clone, Copy, Debug, PartialEq, Eq, Structural)]
pub enum LoanFlow {
    /// The book is being read from the book service.
    FetchingBook(PostRequestLoan),
    /// The book was available and is being marked as issued.
    MarkingIssued(PostRequestLoan),
    /// The loan is being recorded.
    Inserting,
    /// The request has been answered.
    Done,
}

/// What the outside world reports to the opening of a loan.
#[derive(Debug)]
pub enum LoanEvent {
    /// The book service answered with the book, or the error of the call or
    /// of reading its answer.
    BookFetched(Result<Book, String>),
    /// The book service took the new status; the date is today's.
    BookMarked(Date),
    /// The loan was recorded with the given id, or the error.
    LoanInserted(Result<u64, String>),
}

/// What the opening of a loan asks the outside world to do next.
#[derive(Clone, Debug, PartialEq, Eq)]
pub enum LoanAction {
    /// Read the book at this address.
    FetchBook(String),
    /// Send this status change to the book at this address.
    MarkBookIssued(String, PutBookStatus),
    /// Run this statement.
    Insert(Statement),
    /// Answer the request.
    Respond(Reply),
    /// Nothing: the event did not belong to this step.
    Nothing,
}

/// The action answers with the plain text `text` and status `status`.
pub open spec fn responds_text(action: LoanAction, status: Status, text: Seq<char>) -> bool {
    action matches LoanAction::Respond(r) && is_text_reply(r, status, text)
}

/// An event that the opening of a loan can take in its present step: today's
/// date, when it comes, must have a date one month later.
pub open spec fn loan_event_acceptable(flow: LoanFlow, event: LoanEvent) -> bool {
    match (flow, event) {
        (LoanFlow::MarkingIssued(_), LoanEvent::BookMarked(today)) => {
            today.valid() && months_after(today, 1) is Some
        },
        _ => true,
    }
}

/// One step of the opening of a loan: from `flow`, on `event`, to `next`
/// with `action`.
pub open spec fn loan_transition(
    flow: LoanFlow,
    event: LoanEvent,
    next: LoanFlow,
    action: LoanAction,
) -> bool {
    match (flow, event) {
        (LoanFlow::FetchingBook(req), LoanEvent::BookFetched(Err(e))) => {
            next == LoanFlow::Done && responds_text(action, Status::InternalServerError, e@)
        },
        (LoanFlow::FetchingBook(req), LoanEvent::BookFetched(Ok(book))) => {
            if book.status@ == "available"@ {
                &&& next == LoanFlow::MarkingIssued(req)
                &&& action matches LoanAction::MarkBookIssued(url, payload)
                &&& url@ == book_url_text(req.book_id)
                &&& payload.status@ == "issued"@
            } else {
                next == LoanFlow::Done && responds_text(action, Status::Success, "Book already issued"@)
            }
        },
        (LoanFlow::MarkingIssued(req), LoanEvent::BookMarked(today)) => {
            &&& next == LoanFlow::Inserting
            &&& action matches LoanAction::Insert(st)
            &&& st@.sql == add_loan_sql()
            &&& st@.params == add_loan_params(req, today, months_after(today, 1)->0)
        },
        (LoanFlow::Inserting, LoanEvent::LoanInserted(Ok(id))) => {
            &&& next == LoanFlow::Done
            &&& action matches LoanAction::Respond(r)
            &&& r.status == Status::Success
            &&& r.body matches Body::LoanCreated(created)
            &&& created.loan_id == id
            &&& created.status@ == "active"@
        },
        (LoanFlow::Inserting, LoanEvent::LoanInserted(Err(e))) => {
            next == LoanFlow::Done && responds_text(action, Status::InternalServerError, e@)
        },
        _ => next == flow && action is Nothing,
    }
}

/// Starts the opening of a loan: read the requested book first.
pub fn start_loan(req: PostRequestLoan) -> (r: (LoanFlow, LoanAction))
    ensures
        r.0 == LoanFlow::FetchingBook(req),
        r.1 matches LoanAction::FetchBook(url) && url@ == book_url_text(req.book_id),
{
    (LoanFlow::FetchingBook(req), LoanAction::FetchBook(book_url(req.book_id)))
}

/// Takes one step of the opening of a loan. A book is lent only when the book
/// service reports it `available`: it is then marked `issued`, and the loan is
/// recorded with today as its issue date and the date one month later as its
/// return date. A failed call is answered with status 500 and its error.
pub fn advance_loan(flow: LoanFlow, event: LoanEvent) -> (r: (LoanFlow, LoanAction))
    requires
        loan_event_acceptable(flow, event),
    ensures
        loan_transition(flow, event, r.0, r.1),
{
    match (flow, event) {
        (LoanFlow::FetchingBook(req), LoanEvent::BookFetched(Err(e))) => {
            (LoanFlow::Done, LoanAction::Respond(failure_reply(e)))
        },
        (LoanFlow::FetchingBook(req), LoanEvent::BookFetched(Ok(book))) => {
            let available = String::from_str("available");
            if book.status == available {
                let issued = String::from_str("issued");
                (
                    LoanFlow::MarkingIssued(req),
                    LoanAction::MarkBookIssued(book_url(req.book_id), PutBookStatus { status: issued }),
                )
            } else {
                let text = String::from_str("Book already issued");
                (LoanFlow::Done, LoanAction::Respond(text_reply(Status::Success, text)))
            }
        },
        (LoanFlow::MarkingIssued(req), LoanEvent::BookMarked(today)) => {
            let due = one_month_later(&today);
            match due {
                Some(due) => {
                    (LoanFlow::Inserting, LoanAction::Insert(add_loan_statement(req, &today, &due)))
                },
                None => (LoanFlow::MarkingIssued(req), LoanAction::Nothing),
            }
        },
        (LoanFlow::Inserting, LoanEvent::LoanInserted(Ok(id))) => {
            let created = LoanCreated { loan_id: id, status: String::from_str("active") };
            (
                LoanFlow::Done,
                LoanAction::Respond(Reply { status: Status::Success, body: Body::LoanCreated(created) }),
            )
        },
        (LoanFlow::Inserting, LoanEvent::LoanInserted(Err(e))) => {
            (LoanFlow::Done, LoanAction::Respond(failure_reply(e)))
        },
        (other, _) => (other, LoanAction::Nothing),
    }
}

/// Step `i` of a run follows `loan_transition`.
pub open spec fn loan_step_at(
    flows: Seq<LoanFlow>,
    events: Seq<LoanEvent>,
    actions: Seq<LoanAction>,
    i: int,
) -> bool {
    loan_transition(flows[i], events[i], flows[i + 1], actions[i])
}

/// A run of the opening of a loan: the steps it went through, each taken by
/// `advance_loan`, starting from the request `req`.
pub open spec fn is_loan_run(
    req: PostRequestLoan,
    flows: Seq<LoanFlow>,
    events: Seq<LoanEvent>,
    actions: Seq<LoanAction>,
) -> bool {
    &&& flows.len() == events.len() + 1
    &&& actions.len() == events.len()
    &&& flows[0] == LoanFlow::FetchingBook(req)
    &&& forall|i: int| 0 <= i < events.len() ==> #[trigger] loan_step_at(flows, events, actions, i)
}

/// The book service reported the book available.
pub open spec fn reports_available(event: LoanEvent) -> bool {
    event matches LoanEvent::BookFetched(Ok(book)) && book.status@ == "available"@
}

/// The action marks the book issued.
pub open spec fn marks_issued(action: LoanAction) -> bool {
    action matches LoanAction::MarkBookIssued(_, payload) && payload.status@ == "issued"@
}

proof fn lemma_loan_run_states(
    req: PostRequestLoan,
    flows: Seq<LoanFlow>,
    events: Seq<LoanEvent>,
    actions: Seq<LoanAction>,
    i: int,
)
    requires
        is_loan_run(req, flows, events, actions),
        0 <= i <= events.len(),
    ensures
        flows[i] is FetchingBook ==> flows[i] == LoanFlow::FetchingBook(req),
        flows[i] is MarkingIssued ==> {
            &&& flows[i] == LoanFlow::MarkingIssued(req)
            &&& exists|j: int| 0 <= j < i && reports_available(events[j]) && marks_issued(actions[j])
        },
        flows[i] is Inserting ==> exists|j: int| 0 <= j < i && #[trigger] actions[j] is Insert,
    decreases i,
{
    if i > 0 {
        lemma_loan_run_states(req, flows, events, actions, i - 1);
        assert(loan_step_at(flows, events, actions, i - 1));
        if flows[i] is MarkingIssued && !(flows[i - 1] is MarkingIssued) {
            assert(reports_available(events[i - 1]) && marks_issued(actions[i - 1]));
        }
        if flows[i] is Inserting && !(flows[i - 1] is Inserting) {
            assert(actions[i - 1] is Insert);
        }
    }
}

/// A loan is recorded only for the requested book and member, only after the
/// book service reported the book available, and only after the book was
/// marked issued.
pub proof fn lemma_loan_recorded_only_for_available_book(
    req: PostRequestLoan,
    flows: Seq<LoanFlow>,
    events: Seq<LoanEvent>,
    actions: Seq<LoanAction>,
    k: int,
)
    requires
        is_loan_run(req, flows, events, actions),
        0 <= k < actions.len(),
        actions[k] is Insert,
    ensures
        exists|j: int| 0 <= j < k && reports_available(events[j]) && marks_issued(actions[j]),
        actions[k] matches LoanAction::Insert(st) && st@.params.len() == 4
            && st@.params[0] == ParamView::Int(req.book_id as int)
            && st@.params[1] == ParamView::Int(req.member_id as int),
{
    lemma_loan_run_states(req, flows, events, actions, k);
    assert(loan_step_at(flows, events, actions, k));
}

/// A loan is announced as created only with the id the database gave it, and
/// only after the statement that records it was run.
pub proof fn lemma_loan_created_only_after_insert(
    req: PostRequestLoan,
    flows: Seq<LoanFlow>,
    events: Seq<LoanEvent>,
    actions: Seq<LoanAction>,
    k: int,
)
    requires
        is_loan_run(req, flows, events, actions),
        0 <= k < actions.len(),
        actions[k] matches LoanAction::Respond(r) && r.body is LoanCreated,
    ensures
        exists|j: int| 0 <= j < k && #[trigger] actions[j] is Insert,
        events[k] matches LoanEvent::LoanInserted(Ok(id)) && actions[k] matches LoanAction::Respond(r)
            && r.body matches Body::LoanCreated(created) && created.loan_id == id,
{
    lemma_loan_run_states(req, flows, events, actions, k);
    assert(loan_step_at(flows, events, actions, k));
}

/// The loan a run records is issued on the day the book was marked issued
/// and due back on the date one month later, which comes after it: the issue
/// date is bound as the text of that day and the return date as the text of
/// the date one month later.
pub proof fn law_loan_return_date_one_month_after_issue(
    req: PostRequestLoan,
    flows: Seq<LoanFlow>,
    events: Seq<LoanEvent>,
    actions: Seq<LoanAction>,
    k: int,
)
    requires
        is_loan_run(req, flows, events, actions),
        0 <= k < actions.len(),
        actions[k] is Insert,
    ensures
        events[k] matches LoanEvent::BookMarked(today) && actions[k] matches LoanAction::Insert(st)
            && st@.params.len() == 4
            && st@.params[0] == ParamView::Int(req.book_id as int)
            && st@.params[1] == ParamView::Int(req.member_id as int)
            && st@.params[2] == ParamView::Text(iso_date_text(today))
            && st@.params[3] == ParamView::Text(iso_date_text(months_after(today, 1)->0))
            && (loan_event_acceptable(flows[k], events[k]) ==> {
                &&& is_one_month_after(today, months_after(today, 1)->0)
                &&& is_before(today, months_after(today, 1)->0)
                &&& st@.params[3] != st@.params[2]
            }),
{
    lemma_loan_run_states(req, flows, events, actions, k);
    assert(loan_step_at(flows, events, actions, k));
    if let LoanEvent::BookMarked(today) = events[k] {
        if loan_event_acceptable(flows[k], events[k]) {
            law_loan_insert_dates(req, today, flows[k + 1], actions[k]);
        }
    }
}

/// One step that records a loan binds the request's book and member, the
/// day the book was marked issued, and the date one month after it, which
/// comes after it.
pub proof fn law_loan_insert_dates(
    req: PostRequestLoan,
    today: Date,
    next: LoanFlow,
    action: LoanAction,
)
    requires
        loan_transition(LoanFlow::MarkingIssued(req), LoanEvent::BookMarked(today), next, action),
        loan_event_acceptable(LoanFlow::MarkingIssued(req), LoanEvent::BookMarked(today)),
    ensures
        action matches LoanAction::Insert(st) && st@.params.len() == 4
            && st@.params[0] == ParamView::Int(req.book_id as int)
            && st@.params[1] == ParamView::Int(req.member_id as int)
            && st@.params[2] == ParamView::Text(iso_date_text(today))
            && st@.params[3] == ParamView::Text(iso_date_text(months_after(today, 1)->0))
            && is_one_month_after(today, months_after(today, 1)->0)
            && is_before(today, months_after(today, 1)->0)
            && st@.params[3] != st@.params[2],
{
    lemma_one_month_after(today);
    let due = months_after(today, 1)->0;
    if iso_date_text(today) == iso_date_text(due) {
        law_iso_date_text_injective(today, due);
    }
}

/// A loan request is answered at most once: once an answer is given the
/// opening is done, and every later step does nothing.
pub proof fn lemma_loan_answered_once(
    req: PostRequestLoan,
    flows: Seq<LoanFlow>,
    events: Seq<LoanEvent>,
    actions: Seq<LoanAction>,
    k: int,
    m: int,
)
    requires
        is_loan_run(req, flows, events, actions),
        0 <= k < m < actions.len(),
        actions[k] is Respond,
    ensures
        flows[m] == LoanFlow::Done,
        actions[m] is Nothing,
    decreases m - k,
{
    assert(loan_step_at(flows, events, actions, k));
    if m > k + 1 {
        lemma_loan_answered_once(req, flows, events, actions, k, m - 1);
    }
    assert(loan_step_at(flows, events, actions, m - 1));
    assert(flows[m] == LoanFlow::Done);
    assert(loan_step_at(flows, events, actions, m));
}

} // verus!
