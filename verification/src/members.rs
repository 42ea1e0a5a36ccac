//! Members: the statements each member request runs and how its outcome is
//! answered.

use vstd::prelude::*;

use crate::models::{Member, PostRequestMember, PutRequestMember};
use crate::reply::{failure_reply, is_text_reply, text_reply, Body, Reply, Status};
use crate::statement::{
    append_assignment, assignment, assignment_list, assigns, binds_every_placeholder, column_names,
    column_values, given_field, lemma_given_field, lemma_given_field_assigned,
    lemma_given_fields_concat, lemma_placeholders_concat, lemma_placeholders_trim_commas,
    lemma_terminated_concat, lemma_trim_terminated, names_free_of_placeholders,
    optional_assignment, optional_param, params_view, placeholders, placeholders_from, push_param,
    statement, terminated_assignments, ParamView, SqlValue, Statement, StatementView,
};
use crate::text::{decimal, signed_decimal, signed_text, trim_end_char, trim_end_matching, unsigned_text};

verus! {

/// The text of the statement that changes the given fields of a member.
pub open spec fn update_member_sql(req: PutRequestMember) -> Seq<char> {
    trim_end_char(
        "UPDATE members SET "@ + optional_assignment(req.name, " name = ?,"@)
            + optional_assignment(req.phone, " phone = ?,"@)
            + optional_assignment(req.email, " email = ?,"@)
            + optional_assignment(req.join_date, " join_date = ?,"@),
        ',',
    ) + " WHERE member_id = ?;"@
}

/// The values bound by the statement that changes a member: the given fields
/// in order, then the member's id.
pub open spec fn update_member_params(req: PutRequestMember, member_id: i32) -> Seq<ParamView> {
    optional_param(req.name) + optional_param(req.phone) + optional_param(req.email)
        + optional_param(req.join_date) + seq![ParamView::Int(member_id as int)]
}

/// The fields given in a member update as (column, value), in the order
/// name, phone, email, join_date.
pub open spec fn member_fields_given(req: PutRequestMember) -> Seq<(Seq<char>, Seq<char>)> {
    given_field("name"@, req.name) + given_field("phone"@, req.phone) + given_field(
        "email"@,
        req.email,
    ) + given_field("join_date"@, req.join_date)
}

/// How many fields a member update gives.
pub open spec fn member_fields_count(req: PutRequestMember) -> nat {
    (if req.name is Some { 1nat } else { 0nat }) + (if req.phone is Some { 1nat } else { 0nat })
        + (if req.email is Some { 1nat } else { 0nat }) + (if req.join_date is Some {
        1nat
    } else {
        0nat
    })
}

proof fn lemma_member_texts()
    ensures
        " name = ?,"@ == assignment(seq![' '], "name"@) + seq![','],
        " phone = ?,"@ == assignment(seq![' '], "phone"@) + seq![','],
        " email = ?,"@ == assignment(seq![' '], "email"@) + seq![','],
        " join_date = ?,"@ == assignment(seq![' '], "join_date"@) + seq![','],
        " name = ?"@ == assignment(seq![' '], "name"@),
        " phone = ?"@ == assignment(seq![' '], "phone"@),
        " email = ?"@ == assignment(seq![' '], "email"@),
        " join_date = ?"@ == assignment(seq![' '], "join_date"@),
        placeholders("name"@) == 0,
        placeholders("phone"@) == 0,
        placeholders("email"@) == 0,
        placeholders("join_date"@) == 0,
        placeholders("UPDATE members SET "@) == 0,
        "UPDATE members SET "@.len() > 0,
        "UPDATE members SET "@.last() == ' ',
        placeholders(seq![' ']) == 0,
{
    reveal_strlit(" name = ?,");
    reveal_strlit(" phone = ?,");
    reveal_strlit(" email = ?,");
    reveal_strlit(" join_date = ?,");
    reveal_strlit(" name = ?");
    reveal_strlit(" phone = ?");
    reveal_strlit(" email = ?");
    reveal_strlit(" join_date = ?");
    reveal_strlit("name");
    reveal_strlit("phone");
    reveal_strlit("email");
    reveal_strlit("join_date");
    reveal_strlit("UPDATE members SET ");
    reveal_with_fuel(placeholders_from, 22);
    assert(" name = ?,"@ =~= assignment(seq![' '], "name"@) + seq![',']);
    assert(" phone = ?,"@ =~= assignment(seq![' '], "phone"@) + seq![',']);
    assert(" email = ?,"@ =~= assignment(seq![' '], "email"@) + seq![',']);
    assert(" join_date = ?,"@ =~= assignment(seq![' '], "join_date"@) + seq![',']);
    assert(" name = ?"@ =~= assignment(seq![' '], "name"@));
    assert(" phone = ?"@ =~= assignment(seq![' '], "phone"@));
    assert(" email = ?"@ =~= assignment(seq![' '], "email"@));
    assert(" join_date = ?"@ =~= assignment(seq![' '], "join_date"@));
}

proof fn lemma_member_given_pieces(req: PutRequestMember)
    ensures
        ({
            let e = seq![' '];
            let g1 = given_field("name"@, req.name);
            let g2 = given_field("phone"@, req.phone);
            let g3 = given_field("email"@, req.email);
            let g4 = given_field("join_date"@, req.join_date);
            &&& optional_assignment(req.name, " name = ?,"@) == terminated_assignments(e, column_names(g1))
            &&& optional_assignment(req.phone, " phone = ?,"@) == terminated_assignments(e, column_names(g2))
            &&& optional_assignment(req.email, " email = ?,"@) == terminated_assignments(e, column_names(g3))
            &&& optional_assignment(req.join_date, " join_date = ?,"@)
                == terminated_assignments(e, column_names(g4))
            &&& optional_param(req.name) == column_values(g1)
            &&& optional_param(req.phone) == column_values(g2)
            &&& optional_param(req.email) == column_values(g3)
            &&& optional_param(req.join_date) == column_values(g4)
            &&& column_names(member_fields_given(req)) == column_names(g1) + column_names(g2)
                + column_names(g3) + column_names(g4)
            &&& column_values(member_fields_given(req)) == column_values(g1) + column_values(g2)
                + column_values(g3) + column_values(g4)
            &&& names_free_of_placeholders(member_fields_given(req))
        }),
{
    let e = seq![' '];
    lemma_member_texts();
    let g1 = given_field("name"@, req.name);
    let g2 = given_field("phone"@, req.phone);
    let g3 = given_field("email"@, req.email);
    let g4 = given_field("join_date"@, req.join_date);
    lemma_given_field(e, "name"@, req.name, " name = ?,"@);
    lemma_given_field(e, "phone"@, req.phone, " phone = ?,"@);
    lemma_given_field(e, "email"@, req.email, " email = ?,"@);
    lemma_given_field(e, "join_date"@, req.join_date, " join_date = ?,"@);
    lemma_given_fields_concat(g1, g2);
    lemma_given_fields_concat(g1 + g2, g3);
    lemma_given_fields_concat(g1 + g2 + g3, g4);
}

/// A member update sets exactly the given fields: its text is `UPDATE
/// members SET `, the assignments ` column = ?` of the given fields in the
/// order name, phone, email, join_date, separated by commas, then ` WHERE
/// member_id = ?;`; the given fields' values are bound in the same order,
/// then the member's id.
pub proof fn law_update_member_shape(req: PutRequestMember, member_id: i32)
    ensures
        update_member_sql(req) == "UPDATE members SET "@ + assignment_list(
            seq![' '],
            column_names(member_fields_given(req)),
        ) + " WHERE member_id = ?;"@,
        update_member_params(req, member_id) == column_values(member_fields_given(req)) + seq![
            ParamView::Int(member_id as int),
        ],
        names_free_of_placeholders(member_fields_given(req)),
        column_values(member_fields_given(req)).len() == member_fields_count(req),
{
    let e = seq![' '];
    lemma_member_texts();
    lemma_member_given_pieces(req);
    let n1 = column_names(given_field("name"@, req.name));
    let n2 = column_names(given_field("phone"@, req.phone));
    let n3 = column_names(given_field("email"@, req.email));
    let n4 = column_names(given_field("join_date"@, req.join_date));
    lemma_terminated_concat(e, n1, n2);
    lemma_terminated_concat(e, n1 + n2, n3);
    lemma_terminated_concat(e, n1 + n2 + n3, n4);
    let prefix = "UPDATE members SET "@;
    let names = column_names(member_fields_given(req));
    let t1 = terminated_assignments(e, n1);
    let t2 = terminated_assignments(e, n2);
    let t3 = terminated_assignments(e, n3);
    let t4 = terminated_assignments(e, n4);
    assert(terminated_assignments(e, names) == t1 + t2 + t3 + t4);
    assert(prefix + t1 + t2 + t3 + t4 =~= prefix + (t1 + t2 + t3 + t4));
    lemma_trim_terminated(prefix, e, names);
    assert(update_member_params(req, member_id) =~= column_values(member_fields_given(req)) + seq![
        ParamView::Int(member_id as int),
    ]);
    assert(column_values(member_fields_given(req)).len() == member_fields_given(req).len());
}

/// Each field given in a member update is set in its own column: the
/// statement holds ` column = ?` for it, and its value is bound to that
/// placeholder; the member's id is bound last, after one value per given
/// field.
pub proof fn law_update_member_assigns_given_fields(req: PutRequestMember, member_id: i32)
    ensures
        ({
            let st = StatementView {
                sql: update_member_sql(req),
                params: update_member_params(req, member_id),
            };
            &&& req.name matches Some(v) ==> assigns(st, " name = ?"@, v@)
            &&& req.phone matches Some(v) ==> assigns(st, " phone = ?"@, v@)
            &&& req.email matches Some(v) ==> assigns(st, " email = ?"@, v@)
            &&& req.join_date matches Some(v) ==> assigns(st, " join_date = ?"@, v@)
            &&& st.params.len() == member_fields_count(req) + 1
            &&& st.params.last() == ParamView::Int(member_id as int)
        }),
{
    law_update_member_shape(req, member_id);
    lemma_member_texts();
    let e = seq![' '];
    let prefix = "UPDATE members SET "@;
    let suffix = " WHERE member_id = ?;"@;
    let tail = seq![ParamView::Int(member_id as int)];
    let g1 = given_field("name"@, req.name);
    let g2 = given_field("phone"@, req.phone);
    let g3 = given_field("email"@, req.email);
    let g4 = given_field("join_date"@, req.join_date);
    let all = member_fields_given(req);
    let none = Seq::<(Seq<char>, Seq<char>)>::empty();
    if let Some(v) = req.name {
        assert(all =~= none + seq![("name"@, v@)] + (g2 + g3 + g4));
        lemma_given_field_assigned(prefix, e, suffix, none, "name"@, v@, g2 + g3 + g4, tail);
    }
    if let Some(v) = req.phone {
        assert(all =~= g1 + seq![("phone"@, v@)] + (g3 + g4));
        lemma_given_field_assigned(prefix, e, suffix, g1, "phone"@, v@, g3 + g4, tail);
    }
    if let Some(v) = req.email {
        assert(all =~= (g1 + g2) + seq![("email"@, v@)] + g4);
        lemma_given_field_assigned(prefix, e, suffix, g1 + g2, "email"@, v@, g4, tail);
    }
    if let Some(v) = req.join_date {
        assert(all =~= (g1 + g2 + g3) + seq![("join_date"@, v@)] + none);
        lemma_given_field_assigned(prefix, e, suffix, g1 + g2 + g3, "join_date"@, v@, none, tail);
    }
}

/// The statement that lists every member.
pub fn get_members_statement() -> (st: Statement)
    ensures
        st@.sql == "SELECT * FROM members"@,
        st@.params == Seq::<ParamView>::empty(),
        binds_every_placeholder(st@),
{
    let sql = "SELECT * FROM members";
    proof {
        reveal_strlit("SELECT * FROM members");
        assert(placeholders(sql@) == 0) by {
            reveal_with_fuel(placeholders_from, 25);
        }
    }
    let st = statement(sql, Vec::new());
    assert(st@.params =~= Seq::<ParamView>::empty());
    st
}

/// The statement that reads one member.
pub fn get_member_by_id_statement(member_id: i32) -> (st: Statement)
    ensures
        st@.sql == "SELECT * FROM members WHERE member_id = ?"@,
        st@.params == seq![ParamView::Int(member_id as int)],
        binds_every_placeholder(st@),
{
    let sql = "SELECT * FROM members WHERE member_id = ?";
    proof {
        reveal_strlit("SELECT * FROM members WHERE member_id = ?");
        assert(placeholders(sql@) == 1) by {
            reveal_with_fuel(placeholders_from, 45);
        }
    }
    let mut params = Vec::new();
    push_param(&mut params, SqlValue::Int(member_id));
    let st = statement(sql, params);
    assert(st@.params =~= seq![ParamView::Int(member_id as int)]);
    st
}

/// The statement that adds a member.
pub fn add_member_statement(req: &PostRequestMember) -> (st: Statement)
    ensures
        st@.sql == "INSERT INTO members (name, phone, email, join_date) VALUES(?, ?, ?, ?)"@,
        st@.params == seq![
            ParamView::Text(req.name@),
            ParamView::Text(req.phone@),
            ParamView::Text(req.email@),
            ParamView::Text(req.join_date@),
        ],
        binds_every_placeholder(st@),
{
    let sql = "INSERT INTO members (name, phone, email, join_date) VALUES(?, ?, ?, ?)";
    proof {
        reveal_strlit("INSERT INTO members (name, phone, email, join_date) VALUES(?, ?, ?, ?)");
        assert(placeholders(sql@) == 4) by {
            reveal_with_fuel(placeholders_from, 75);
        }
    }
    let mut params = Vec::new();
    push_param(&mut params, SqlValue::Text(req.name.clone()));
    push_param(&mut params, SqlValue::Text(req.phone.clone()));
    push_param(&mut params, SqlValue::Text(req.email.clone()));
    push_param(&mut params, SqlValue::Text(req.join_date.clone()));
    let st = statement(sql, params);
    assert(st@.params =~= seq![
        ParamView::Text(req.name@),
        ParamView::Text(req.phone@),
        ParamView::Text(req.email@),
        ParamView::Text(req.join_date@),
    ]);
    st
}

proof fn lemma_member_update_placeholders()
    ensures
        placeholders("UPDATE members SET "@) == 0,
        placeholders(" name = ?,"@) == 1,
        placeholders(" phone = ?,"@) == 1,
        placeholders(" email = ?,"@) == 1,
        placeholders(" join_date = ?,"@) == 1,
        placeholders(" WHERE member_id = ?;"@) == 1,
{
    reveal_strlit("UPDATE members SET ");
    reveal_strlit(" name = ?,");
    reveal_strlit(" phone = ?,");
    reveal_strlit(" email = ?,");
    reveal_strlit(" join_date = ?,");
    reveal_strlit(" WHERE member_id = ?;");
    reveal_with_fuel(placeholders_from, 24);
}

/// The statement that changes the fields given in `req` of one member. With
/// no field given the statement sets nothing, and the database refuses it.
pub fn update_member_statement(req: &PutRequestMember, member_id: i32) -> (st: Statement)
    ensures
        st@.sql == update_member_sql(*req),
        st@.params == update_member_params(*req, member_id),
        binds_every_placeholder(st@),
        req.name matches Some(v) ==> assigns(st@, " name = ?"@, v@),
        req.phone matches Some(v) ==> assigns(st@, " phone = ?"@, v@),
        req.email matches Some(v) ==> assigns(st@, " email = ?"@, v@),
        req.join_date matches Some(v) ==> assigns(st@, " join_date = ?"@, v@),
        st@.params.len() == member_fields_count(*req) + 1,
        st@.params.last() == ParamView::Int(member_id as int),
{
    proof {
        law_update_member_assigns_given_fields(*req, member_id);
    }
    let mut sql = String::from_str("UPDATE members SET ");
    let mut params: Vec<SqlValue> = Vec::new();
    proof {
        lemma_member_update_placeholders();
        assert(params_view(params@) =~= Seq::<ParamView>::empty());
    }
    append_assignment(&mut sql, &mut params, &req.name, " name = ?,");
    append_assignment(&mut sql, &mut params, &req.phone, " phone = ?,");
    append_assignment(&mut sql, &mut params, &req.email, " email = ?,");
    append_assignment(&mut sql, &mut params, &req.join_date, " join_date = ?,");
    let ghost assignments = sql@;
    let mut sql = trim_end_matching(sql.as_str(), ',');
    sql.append(" WHERE member_id = ?;");
    push_param(&mut params, SqlValue::Int(member_id));
    proof {
        lemma_placeholders_trim_commas(assignments);
        lemma_placeholders_concat(trim_end_char(assignments, ','), " WHERE member_id = ?;"@);
        assert(params_view(params@) =~= update_member_params(*req, member_id));
    }
    Statement { sql, params }
}

/// The statement that removes one member.
pub fn delete_member_by_id_statement(member_id: i32) -> (st: Statement)
    ensures
        st@.sql == "DELETE FROM members WHERE member_id = ?;"@,
        st@.params == seq![ParamView::Int(member_id as int)],
        binds_every_placeholder(st@),
{
    let sql = "DELETE FROM members WHERE member_id = ?;";
    proof {
        reveal_strlit("DELETE FROM members WHERE member_id = ?;");
        assert(placeholders(sql@) == 1) by {
            reveal_with_fuel(placeholders_from, 45);
        }
    }
    let mut params = Vec::new();
    push_param(&mut params, SqlValue::Int(member_id));
    let st = statement(sql, params);
    assert(st@.params =~= seq![ParamView::Int(member_id as int)]);
    st
}

/// The answer to the listing of every member: the members as JSON, or status
/// 500 with the error.
pub fn get_members_reply(outcome: Result<Vec<Member>, String>) -> (r: Reply)
    ensures
        match outcome {
            Ok(members) => r.status == Status::Success && r.body == Body::Members(members),
            Err(e) => is_text_reply(r, Status::InternalServerError, e@),
        },
{
    match outcome {
        Ok(members) => Reply { status: Status::Success, body: Body::Members(members) },
        Err(e) => failure_reply(e),
    }
}

/// The answer to the reading of one member: the member as JSON, or status
/// 500 with the error (also when no member has that id).
pub fn get_member_by_id_reply(outcome: Result<Member, String>) -> (r: Reply)
    ensures
        match outcome {
            Ok(member) => r.status == Status::Success && r.body == Body::Member(member),
            Err(e) => is_text_reply(r, Status::InternalServerError, e@),
        },
{
    match outcome {
        Ok(member) => Reply { status: Status::Success, body: Body::Member(member) },
        Err(e) => failure_reply(e),
    }
}

/// The answer to adding a member, given the name and the id the database
/// gave it: `<name> added to the members. Id is <id>`, or status 500 with the
/// error.
pub fn add_member_reply(name: &String, outcome: Result<u64, String>) -> (r: Reply)
    ensures
        match outcome {
            Ok(id) => is_text_reply(
                r,
                Status::Success,
                name@ + " added to the members. Id is "@ + decimal(id as nat),
            ),
            Err(e) => is_text_reply(r, Status::InternalServerError, e@),
        },
{
    match outcome {
        Ok(id) => {
            let mut text = name.clone();
            text.append(" added to the members. Id is ");
            let digits = unsigned_text(id);
            text.append(digits.as_str());
            text_reply(Status::Success, text)
        },
        Err(e) => failure_reply(e),
    }
}

/// The answer to changing a member: `member <id> is updated`, or status 500
/// with the error.
pub fn update_member_reply(member_id: i32, outcome: Result<(), String>) -> (r: Reply)
    ensures
        match outcome {
            Ok(_) => is_text_reply(
                r,
                Status::Success,
                "member "@ + signed_decimal(member_id as int) + " is updated"@,
            ),
            Err(e) => is_text_reply(r, Status::InternalServerError, e@),
        },
{
    match outcome {
        Ok(_) => {
            let mut text = String::from_str("member ");
            let digits = signed_text(member_id);
            text.append(digits.as_str());
            text.append(" is updated");
            text_reply(Status::Success, text)
        },
        Err(e) => failure_reply(e),
    }
}

/// The answer to removing a member: `Member <id> removed from members`, or
/// status 500 with the error.
pub fn delete_member_by_id_reply(member_id: i32, outcome: Result<(), String>) -> (r: Reply)
    ensures
        match outcome {
            Ok(_) => is_text_reply(
                r,
                Status::Success,
                "Member "@ + signed_decimal(member_id as int) + " removed from members"@,
            ),
            Err(e) => is_text_reply(r, Status::InternalServerError, e@),
        },
{
    match outcome {
        Ok(_) => {
            let mut text = String::from_str("Member ");
            let digits = signed_text(member_id);
            text.append(digits.as_str());
            text.append(" removed from members");
            text_reply(Status::Success, text)
        },
        Err(e) => failure_reply(e),
    }
}

} // verus!
