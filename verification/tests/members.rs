use library_service::members::{
    add_member_reply, add_member_statement, delete_member_by_id_reply,
    delete_member_by_id_statement, get_member_by_id_reply, get_member_by_id_statement,
    get_members_reply, get_members_statement, update_member_reply, update_member_statement,
};
use library_service::models::{Member, PostRequestMember, PutRequestMember};
use library_service::reply::{Body, Reply, Status};
use library_service::statement::SqlValue;

fn text(s: &str) -> SqlValue {
    SqlValue::Text(s.to_string())
}

fn text_reply(status: Status, s: &str) -> Reply {
    Reply { status, body: Body::Text(s.to_string()) }
}

fn sample_member() -> Member {
    Member {
        member_id: 5,
        name: "Ada".to_string(),
        phone: "555-0100".to_string(),
        email: "ada@example.org".to_string(),
        join_date: "2024-01-02".to_string(),
    }
}

#[test]
fn members_are_listed_and_read() {
    let st = get_members_statement();
    assert_eq!(st.sql, "SELECT * FROM members");
    assert!(st.params.is_empty());
    let st = get_member_by_id_statement(5);
    assert_eq!(st.sql, "SELECT * FROM members WHERE member_id = ?");
    assert_eq!(st.params, vec![SqlValue::Int(5)]);
}

#[test]
fn a_new_member_binds_its_four_fields() {
    let req = PostRequestMember {
        name: "Ada".to_string(),
        phone: "555-0100".to_string(),
        email: "ada@example.org".to_string(),
        join_date: "2024-01-02".to_string(),
    };
    let st = add_member_statement(&req);
    assert_eq!(st.sql, "INSERT INTO members (name, phone, email, join_date) VALUES(?, ?, ?, ?)");
    assert_eq!(
        st.params,
        vec![text("Ada"), text("555-0100"), text("ada@example.org"), text("2024-01-02")]
    );
}

#[test]
fn a_member_update_sets_only_the_given_fields() {
    let req = PutRequestMember {
        name: Some("Ada L.".to_string()),
        phone: None,
        email: Some("ada@lovelace.org".to_string()),
        join_date: None,
    };
    let st = update_member_statement(&req, 5);
    assert_eq!(st.sql, "UPDATE members SET  name = ?, email = ? WHERE member_id = ?;");
    assert_eq!(st.params, vec![text("Ada L."), text("ada@lovelace.org"), SqlValue::Int(5)]);
}

#[test]
fn a_member_update_without_fields_sets_nothing() {
    let req = PutRequestMember { name: None, phone: None, email: None, join_date: None };
    let st = update_member_statement(&req, 2);
    assert_eq!(st.sql, "UPDATE members SET  WHERE member_id = ?;");
    assert_eq!(st.params, vec![SqlValue::Int(2)]);
}

#[test]
fn a_member_is_removed_by_id() {
    let st = delete_member_by_id_statement(8);
    assert_eq!(st.sql, "DELETE FROM members WHERE member_id = ?;");
    assert_eq!(st.params, vec![SqlValue::Int(8)]);
}

#[test]
fn member_replies() {
    assert_eq!(
        get_members_reply(Ok(vec![sample_member()])),
        Reply { status: Status::Success, body: Body::Members(vec![sample_member()]) }
    );
    assert_eq!(
        get_member_by_id_reply(Ok(sample_member())),
        Reply { status: Status::Success, body: Body::Member(sample_member()) }
    );
    assert_eq!(
        get_member_by_id_reply(Err("no rows".to_string())),
        text_reply(Status::InternalServerError, "no rows")
    );
    assert_eq!(
        add_member_reply(&"Ada".to_string(), Ok(12)),
        text_reply(Status::Success, "Ada added to the members. Id is 12")
    );
    assert_eq!(update_member_reply(5, Ok(())), text_reply(Status::Success, "member 5 is updated"));
    assert_eq!(
        delete_member_by_id_reply(5, Ok(())),
        text_reply(Status::Success, "Member 5 removed from members")
    );
    assert_eq!(
        delete_member_by_id_reply(5, Err("gone".to_string())),
        text_reply(Status::InternalServerError, "gone")
    );
}
