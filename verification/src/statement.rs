//! SQL statements with their bound values, and the count of placeholders.

use vstd::prelude::*;

use crate::text::trim_end_char;

verus! {

/// A value bound to a `?` placeholder.
#[derive(Clone, Debug, PartialEq, Eq)]
pub enum SqlValue {
    Text(String),
    Int(i32),
}

/// A bound value as the contracts see it.
pub enum ParamView {
    Text(Seq<char>),
    Int(int),
}

impl View for SqlValue {
    type V = ParamView;

    open spec fn view(&self) -> ParamView {
        match self {
            SqlValue::Text(s) => ParamView::Text(s@),
            SqlValue::Int(i) => ParamView::Int(*i as int),
        }
    }
}

/// An SQL statement and the values bound to its placeholders, in order.
#[derive(Clone, Debug, PartialEq, Eq)]
pub struct Statement {
    pub sql: String,
    pub params: Vec<SqlValue>,
}

/// A statement as the contracts see it.
pub struct StatementView {
    pub sql: Seq<char>,
    pub params: Seq<ParamView>,
}

impl View for Statement {
    type V = StatementView;

    open spec fn view(&self) -> StatementView {
        StatementView { sql: self.sql@, params: self.params@.map_values(|v: SqlValue| v@) }
    }
}

/// The number of `?` placeholders in `s` at position `i` or later.
pub open spec fn placeholders_from(s: Seq<char>, i: int) -> nat
    decreases s.len() - i,
{
    if i < 0 || i >= s.len() {
        0
    } else {
        (if s[i] == '?' { 1nat } else { 0nat }) + placeholders_from(s, i + 1)
    }
}

/// The number of `?` placeholders in a text.
pub open spec fn placeholders(s: Seq<char>) -> nat {
    placeholders_from(s, 0)
}

/// A statement binds exactly one value to each of its placeholders.
pub open spec fn binds_every_placeholder(st: StatementView) -> bool {
    placeholders(st.sql) == st.params.len()
}

proof fn lemma_placeholders_from_concat(a: Seq<char>, b: Seq<char>, i: int)
    requires
        0 <= i <= a.len(),
    ensures
        placeholders_from(a + b, i) == placeholders_from(a, i) + placeholders(b),
    decreases a.len() - i,
{
    if i == a.len() {
        lemma_placeholders_from_shift(a, b, 0);
    } else {
        lemma_placeholders_from_concat(a, b, i + 1);
    }
}

proof fn lemma_placeholders_from_shift(a: Seq<char>, b: Seq<char>, j: int)
    requires
        0 <= j <= b.len(),
    ensures
        placeholders_from(a + b, a.len() + j) == placeholders_from(b, j),
    decreases b.len() - j,
{
    if j < b.len() {
        lemma_placeholders_from_shift(a, b, j + 1);
    }
}

/// Placeholders of a concatenation add up.
pub proof fn lemma_placeholders_concat(a: Seq<char>, b: Seq<char>)
    ensures
        placeholders(a + b) == placeholders(a) + placeholders(b),
{
    lemma_placeholders_from_concat(a, b, 0);
}

/// The assignment text when the field is present, nothing otherwise.
pub open spec fn optional_assignment(field: Option<String>, assignment: Seq<char>) -> Seq<char> {
    match field {
        Some(_) => assignment,
        None => Seq::empty(),
    }
}

/// The field's text as a bound value when it is present, nothing otherwise.
pub open spec fn optional_param(field: Option<String>) -> Seq<ParamView> {
    match field {
        Some(v) => seq![ParamView::Text(v@)],
        None => Seq::empty(),
    }
}

/// The bound values of a list, as the contracts see them.
pub open spec fn params_view(params: Seq<SqlValue>) -> Seq<ParamView> {
    params.map_values(|v: SqlValue| v@)
}

/// A statement made of a text and its bound values.
pub(crate) fn statement(sql: &str, params: Vec<SqlValue>) -> (st: Statement)
    ensures
        st@.sql == sql@,
        st@.params == params_view(params@),
{
    Statement { sql: String::from_str(sql), params }
}

/// Appends `value` to the bound values.
pub(crate) fn push_param(params: &mut Vec<SqlValue>, value: SqlValue)
    ensures
        params_view(final(params)@) == params_view(old(params)@).push(value@),
{
    params.push(value);
    assert(params_view(params@) =~= params_view(old(params)@).push(value@));
}

/// When the field is present, appends `assignment` to the statement text
/// and the field's text to the bound values.
pub(crate) fn append_assignment(
    sql: &mut String,
    params: &mut Vec<SqlValue>,
    field: &Option<String>,
    assignment: &str,
)
    requires
        placeholders(assignment@) == 1,
    ensures
        final(sql)@ == old(sql)@ + optional_assignment(*field, assignment@),
        params_view(final(params)@) == params_view(old(params)@) + optional_param(*field),
        placeholders(final(sql)@) == placeholders(old(sql)@) + optional_param(*field).len(),
{
    match field {
        Some(value) => {
            sql.append(assignment);
            push_param(params, SqlValue::Text(value.clone()));
            proof {
                lemma_placeholders_concat(old(sql)@, assignment@);
            }
        },
        None => {
            assert(old(sql)@ + Seq::empty() =~= old(sql)@);
            assert(params_view(old(params)@) + Seq::empty() =~= params_view(old(params)@));
        },
    }
}

/// Trimming trailing commas keeps every placeholder.
pub proof fn lemma_placeholders_trim_commas(s: Seq<char>)
    ensures
        placeholders(trim_end_char(s, ',')) == placeholders(s),
    decreases s.len(),
{
    if s.len() > 0 && s.last() == ',' {
        lemma_placeholders_trim_commas(s.drop_last());
        assert(s =~= s.drop_last() + seq![',']);
        lemma_placeholders_concat(s.drop_last(), seq![',']);
        assert(placeholders(seq![',']) == 0) by {
            reveal_with_fuel(placeholders_from, 2);
        }
    }
}

/// The text that assigns the next placeholder to `column`: `lead`, the
/// column's name, then ` = ?`.
pub open spec fn assignment(lead: Seq<char>, column: Seq<char>) -> Seq<char> {
    lead + column + seq![' ', '=', ' ', '?']
}

/// The assignments of the columns in order, each followed by a comma.
pub open spec fn terminated_assignments(lead: Seq<char>, columns: Seq<Seq<char>>) -> Seq<char>
    decreases columns.len(),
{
    if columns.len() == 0 {
        Seq::empty()
    } else {
        terminated_assignments(lead, columns.drop_last()) + assignment(lead, columns.last())
            + seq![',']
    }
}

/// The assignments of the columns in order, separated by commas.
pub open spec fn assignment_list(lead: Seq<char>, columns: Seq<Seq<char>>) -> Seq<char> {
    if columns.len() == 0 {
        Seq::empty()
    } else {
        terminated_assignments(lead, columns).drop_last()
    }
}

/// A field that was given, as (column name, value), or nothing.
pub open spec fn given_field(column: Seq<char>, field: Option<String>) -> Seq<(Seq<char>, Seq<char>)> {
    match field {
        Some(v) => seq![(column, v@)],
        None => Seq::empty(),
    }
}

/// The column names of a list of given fields.
pub open spec fn column_names(fields: Seq<(Seq<char>, Seq<char>)>) -> Seq<Seq<char>> {
    fields.map_values(|f: (Seq<char>, Seq<char>)| f.0)
}

/// The values of a list of given fields, as bound text values.
pub open spec fn column_values(fields: Seq<(Seq<char>, Seq<char>)>) -> Seq<ParamView> {
    fields.map_values(|f: (Seq<char>, Seq<char>)| ParamView::Text(f.1))
}

/// The statement holds the text `text` at some position, and the value bound
/// to the first placeholder after that position is the text `value`: for an
/// assignment `text`, the column of `text` is set to `value`.
pub open spec fn assigns(st: StatementView, text: Seq<char>, value: Seq<char>) -> bool {
    exists|p: int|
        {
            &&& 0 <= p
            &&& p + text.len() <= st.sql.len()
            &&& #[trigger] st.sql.subrange(p, p + text.len()) == text
            &&& placeholders(st.sql.subrange(0, p)) < st.params.len()
            &&& st.params[placeholders(st.sql.subrange(0, p)) as int] == ParamView::Text(value)
        }
}

pub proof fn lemma_terminated_concat(lead: Seq<char>, a: Seq<Seq<char>>, b: Seq<Seq<char>>)
    ensures
        terminated_assignments(lead, a + b) == terminated_assignments(lead, a)
            + terminated_assignments(lead, b),
    decreases b.len(),
{
    if b.len() == 0 {
        assert(a + b =~= a);
        assert(terminated_assignments(lead, a) + Seq::empty() =~= terminated_assignments(lead, a));
    } else {
        lemma_terminated_concat(lead, a, b.drop_last());
        assert((a + b).drop_last() =~= a + b.drop_last());
        assert((a + b).last() == b.last());
        assert(terminated_assignments(lead, a + b) =~= terminated_assignments(lead, a)
            + terminated_assignments(lead, b));
    }
}

proof fn lemma_terminated_placeholders(lead: Seq<char>, columns: Seq<Seq<char>>)
    requires
        placeholders(lead) == 0,
        forall|j: int| 0 <= j < columns.len() ==> placeholders(#[trigger] columns[j]) == 0,
    ensures
        placeholders(terminated_assignments(lead, columns)) == columns.len(),
    decreases columns.len(),
{
    if columns.len() > 0 {
        let c = columns.last();
        assert(placeholders(c) == 0);
        lemma_terminated_placeholders(lead, columns.drop_last());
        lemma_placeholders_concat(lead, c);
        lemma_placeholders_concat(lead + c, seq![' ', '=', ' ', '?']);
        assert(placeholders(seq![' ', '=', ' ', '?']) == 1) by {
            reveal_with_fuel(placeholders_from, 5);
        }
        assert(placeholders(seq![',']) == 0) by {
            reveal_with_fuel(placeholders_from, 2);
        }
        lemma_placeholders_concat(terminated_assignments(lead, columns.drop_last()), assignment(lead, c));
        lemma_placeholders_concat(
            terminated_assignments(lead, columns.drop_last()) + assignment(lead, c),
            seq![','],
        );
    }
}

/// Trimming the trailing commas of a prefix followed by comma-terminated
/// assignments leaves the prefix followed by the assignments separated by
/// commas.
pub proof fn lemma_trim_terminated(prefix: Seq<char>, lead: Seq<char>, columns: Seq<Seq<char>>)
    requires
        prefix.len() > 0,
        prefix.last() != ',',
    ensures
        trim_end_char(prefix + terminated_assignments(lead, columns), ',') == prefix + assignment_list(
            lead,
            columns,
        ),
{
    let t = terminated_assignments(lead, columns);
    if columns.len() == 0 {
        assert(prefix + t =~= prefix);
        assert(prefix + assignment_list(lead, columns) =~= prefix);
        assert(trim_end_char(prefix, ',') == prefix);
    } else {
        let body = terminated_assignments(lead, columns.drop_last()) + assignment(lead, columns.last());
        assert(t == body + seq![',']);
        assert((prefix + t).drop_last() =~= prefix + body);
        assert(t.drop_last() =~= body);
        assert((prefix + t).last() == ',');
        assert((prefix + body).last() == '?');
        assert(trim_end_char(prefix + t, ',') == trim_end_char(prefix + body, ','));
        assert(trim_end_char(prefix + body, ',') == prefix + body);
    }
}

/// Where the assignment of the `i`-th column stands in a statement made of a
/// prefix, the assignment list and a suffix: its text is there, and the
/// placeholders before it are exactly the `i` of the earlier columns.
pub proof fn lemma_assignment_position(
    prefix: Seq<char>,
    lead: Seq<char>,
    columns: Seq<Seq<char>>,
    suffix: Seq<char>,
    i: int,
)
    requires
        placeholders(prefix) == 0,
        placeholders(lead) == 0,
        forall|j: int| 0 <= j < columns.len() ==> placeholders(#[trigger] columns[j]) == 0,
        0 <= i < columns.len(),
    ensures
        ({
            let sql = prefix + assignment_list(lead, columns) + suffix;
            let p: int = (prefix.len() + terminated_assignments(lead, columns.take(i)).len()) as int;
            let a = assignment(lead, columns[i]);
            &&& p + a.len() <= sql.len()
            &&& sql.subrange(p, p + a.len() as int) == a
            &&& placeholders(sql.subrange(0, p)) == i
        }),
{
    let sql = prefix + assignment_list(lead, columns) + suffix;
    let front = terminated_assignments(lead, columns.take(i));
    let a = assignment(lead, columns[i]);
    let back = terminated_assignments(lead, columns.skip(i + 1));
    let p: int = (prefix.len() + front.len()) as int;
    assert(columns =~= columns.take(i) + (seq![columns[i]] + columns.skip(i + 1)));
    lemma_terminated_concat(lead, columns.take(i), seq![columns[i]] + columns.skip(i + 1));
    lemma_terminated_concat(lead, seq![columns[i]], columns.skip(i + 1));
    assert(seq![columns[i]].drop_last() =~= Seq::<Seq<char>>::empty());
    assert(terminated_assignments(lead, Seq::<Seq<char>>::empty()) == Seq::<char>::empty());
    assert(seq![columns[i]].last() == columns[i]);
    assert(terminated_assignments(lead, seq![columns[i]]) =~= a + seq![',']);
    let t = terminated_assignments(lead, columns);
    assert(t =~= front + a + seq![','] + back);
    assert(assignment_list(lead, columns) == t.drop_last());
    assert(sql.subrange(p, p + a.len() as int) =~= a);
    assert(sql.subrange(0, p) =~= prefix + front);
    lemma_placeholders_concat(prefix, front);
    assert forall|j: int| 0 <= j < columns.take(i).len() implies placeholders(
        #[trigger] columns.take(i)[j],
    ) == 0 by {
        assert(columns.take(i)[j] == columns[j]);
    }
    lemma_terminated_placeholders(lead, columns.take(i));
}

/// No column name of the given fields holds a placeholder.
pub open spec fn names_free_of_placeholders(fields: Seq<(Seq<char>, Seq<char>)>) -> bool {
    forall|j: int| 0 <= j < fields.len() ==> placeholders(#[trigger] column_names(fields)[j]) == 0
}

/// Column names and values of a concatenation of given fields.
pub proof fn lemma_given_fields_concat(a: Seq<(Seq<char>, Seq<char>)>, b: Seq<(Seq<char>, Seq<char>)>)
    ensures
        column_names(a + b) == column_names(a) + column_names(b),
        column_values(a + b) == column_values(a) + column_values(b),
        names_free_of_placeholders(a) && names_free_of_placeholders(b) ==> names_free_of_placeholders(a + b),
{
    assert(column_names(a + b) =~= column_names(a) + column_names(b));
    assert(column_values(a + b) =~= column_values(a) + column_values(b));
    if names_free_of_placeholders(a) && names_free_of_placeholders(b) {
        assert forall|j: int| 0 <= j < (a + b).len() implies placeholders(
            #[trigger] column_names(a + b)[j],
        ) == 0 by {
            if j < a.len() {
                assert(column_names(a + b)[j] == column_names(a)[j]);
            } else {
                assert(column_names(a + b)[j] == column_names(b)[j - a.len()]);
            }
        }
    }
}

/// A present field gives its comma-terminated assignment and its value; an
/// absent one gives neither.
pub proof fn lemma_given_field(lead: Seq<char>, column: Seq<char>, field: Option<String>, text: Seq<char>)
    requires
        text == assignment(lead, column) + seq![','],
        placeholders(column) == 0,
    ensures
        optional_assignment(field, text) == terminated_assignments(lead, column_names(given_field(column, field))),
        optional_param(field) == column_values(given_field(column, field)),
        names_free_of_placeholders(given_field(column, field)),
{
    let names = column_names(given_field(column, field));
    match field {
        Some(v) => {
            assert(names =~= seq![column]);
            assert(names.drop_last() =~= Seq::<Seq<char>>::empty());
            assert(terminated_assignments(lead, Seq::<Seq<char>>::empty()) == Seq::<char>::empty());
            assert(terminated_assignments(lead, names) =~= text);
            assert(column_values(given_field(column, field)) =~= seq![ParamView::Text(v@)]);
        },
        None => {
            assert(names =~= Seq::<Seq<char>>::empty());
            assert(column_values(given_field(column, field)) =~= Seq::<ParamView>::empty());
        },
    }
}

/// In a statement made of a prefix, the assignments of the given fields and
/// a suffix, with the fields' values bound in order and then further values,
/// each given field's column is assigned its value.
pub proof fn lemma_given_field_assigned(
    prefix: Seq<char>,
    lead: Seq<char>,
    suffix: Seq<char>,
    before: Seq<(Seq<char>, Seq<char>)>,
    column: Seq<char>,
    value: Seq<char>,
    after: Seq<(Seq<char>, Seq<char>)>,
    tail: Seq<ParamView>,
)
    requires
        placeholders(prefix) == 0,
        placeholders(lead) == 0,
        names_free_of_placeholders(before + seq![(column, value)] + after),
    ensures
        assigns(
            StatementView {
                sql: prefix + assignment_list(lead, column_names(before + seq![(column, value)] + after))
                    + suffix,
                params: column_values(before + seq![(column, value)] + after) + tail,
            },
            assignment(lead, column),
            value,
        ),
{
    let fields = before + seq![(column, value)] + after;
    let names = column_names(fields);
    let i = before.len() as int;
    assert(names[i] == column);
    assert(column_values(fields)[i] == ParamView::Text(value));
    assert forall|j: int| 0 <= j < names.len() implies placeholders(#[trigger] names[j]) == 0 by {
        assert(placeholders(column_names(fields)[j]) == 0);
    }
    lemma_assignment_position(prefix, lead, names, suffix, i);
    let st = StatementView {
        sql: prefix + assignment_list(lead, names) + suffix,
        params: column_values(fields) + tail,
    };
    let p: int = (prefix.len() + terminated_assignments(lead, names.take(i)).len()) as int;
    assert(st.params[i] == ParamView::Text(value));
    assert(st.sql.subrange(p, p + assignment(lead, column).len() as int) == assignment(lead, column));
}

} // verus!
