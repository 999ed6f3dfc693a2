//! Sparse edits. An edit payload names only the fields to change; it becomes
//! one `UPDATE` that sets exactly those columns and leaves every other column
//! of the row as it is.
//!
//! A url field has three states on the wire: left out, the word `null`, and
//! any other text. They are decoded once, into `Nullable`: no change, clear
//! the column, set the column. A url can therefore not be set to the text
//! `null` itself.

use vstd::prelude::*;
use crate::date::{parsed_date, readable, CalendarDate};
use crate::error::EngineError;
use crate::statement::{Column, SqlValue, Statement, Table};
use crate::text::{decimal, push_decimal};

verus! {

/// The three states of a field that may be cleared.
#[derive(Debug, Clone, PartialEq, Eq)]
pub enum Nullable {
    /// The payload does not name the field: no change.
    Absent,
    /// The payload holds the word `null`: the column is cleared.
    ExplicitNull,
    /// The payload holds any other text: the column is set to it.
    Value(String),
}

/// The state that the wire form `field` stands for.
pub open spec fn decoded(field: Option<String>) -> Nullable {
    match field {
        None => Nullable::Absent,
        Some(text) => if text@ == "null"@ {
            Nullable::ExplicitNull
        } else {
            Nullable::Value(text)
        },
    }
}

/// Decodes the wire form of a field that may be cleared.
pub fn decode_nullable(field: &Option<String>) -> (state: Nullable)
    ensures
        state == decoded(*field),
{
    match field {
        None => Nullable::Absent,
        Some(text) => {
            let word = String::from_str("null");
            if *text == word {
                Nullable::ExplicitNull
            } else {
                Nullable::Value(text.clone())
            }
        },
    }
}

/// What an edit does to one column.
#[derive(Debug, Clone, PartialEq, Eq)]
pub enum Change {
    /// Sets a text column.
    Text(String),
    /// Sets a 32-bit integer column.
    Int(i32),
    /// Sets a 64-bit integer column.
    BigInt(i64),
    /// Sets a date column to the date that this text is read as.
    Date(String),
    /// Clears the column.
    Clear,
}

/// One column of an edit and what happens to it.
#[derive(Debug, Clone, PartialEq, Eq)]
pub struct FieldEdit {
    pub column: Column,
    pub change: Change,
}

/// The changes of `fields` that bind a value, in order: all but the clears.
pub open spec fn bound_changes(fields: Seq<FieldEdit>) -> Seq<Change>
    decreases fields.len(),
{
    if fields.len() == 0 {
        Seq::<Change>::empty()
    } else if fields.last().change is Clear {
        bound_changes(fields.drop_last())
    } else {
        bound_changes(fields.drop_last()).push(fields.last().change)
    }
}

/// The assignment of one field: `column = null` for a clear, else
/// `column = $k`, with `k` the number of the parameter that holds the value.
pub open spec fn assignment_text(field: FieldEdit, k: nat) -> Seq<char> {
    if field.change is Clear {
        field.column.spec_name() + " = null"@
    } else {
        field.column.spec_name() + " = $"@ + decimal(k)
    }
}

/// The assignments of `fields`, each followed by a comma and a space.
/// Parameter 1 is the id of the row, so the values are numbered from 2, in
/// the order of the fields that bind one.
pub open spec fn assignments_text(fields: Seq<FieldEdit>) -> Seq<char>
    decreases fields.len(),
{
    if fields.len() == 0 {
        Seq::<char>::empty()
    } else {
        assignments_text(fields.drop_last()) + assignment_text(
            fields.last(),
            2 + bound_changes(fields.drop_last()).len(),
        ) + ", "@
    }
}

/// The text of the update of `table` that `fields` ask for: the assignments
/// after `SET`, without the comma and space behind the last one, and the row
/// picked by its id. The two characters before ` WHERE` are removed whether
/// or not there is an assignment: with no field the text reads
/// `UPDATE <table> SE WHERE id = $1`, which no store accepts.
pub open spec fn update_text(table: Table, fields: Seq<FieldEdit>) -> Seq<char> {
    let set = "UPDATE "@ + table.spec_name() + " SET "@ + assignments_text(fields);
    set.subrange(0, set.len() - 2) + " WHERE id = $1"@
}

/// Whether `value` is what `change` binds to its parameter.
pub open spec fn binds(change: Change, value: SqlValue) -> bool {
    match change {
        Change::Text(text) => value == SqlValue::Text(text),
        Change::Int(number) => value == SqlValue::Int(number),
        Change::BigInt(number) => value == SqlValue::BigInt(number),
        Change::Date(text) => value matches SqlValue::Date(date) && parsed_date(text@) == Some(
            date.ymd(),
        ),
        Change::Clear => false,
    }
}

/// Whether every date among `fields` is a date of the form
/// `[year]-[month]-[day]`.
pub open spec fn dates_readable(fields: Seq<FieldEdit>) -> bool {
    forall|i: int|
        0 <= i < fields.len() ==> (#[trigger] fields[i].change matches Change::Date(text)
            ==> readable(text@))
}

/// The first date among `fields` that is no date, where there is one.
pub open spec fn first_unreadable(fields: Seq<FieldEdit>, text: String) -> bool {
    exists|i: int|
        {
            &&& 0 <= i < fields.len()
            &&& #[trigger] fields[i].change == Change::Date(text)
            &&& !readable(text@)
            &&& dates_readable(fields.take(i))
        }
}

/// Whether `params` are the parameters of the update of row `id` that
/// `fields` ask for: the id, then one value for each field that binds one.
pub open spec fn is_binding(id: i64, fields: Seq<FieldEdit>, params: Seq<SqlValue>) -> bool {
    &&& params.len() == 1 + bound_changes(fields).len()
    &&& params[0] == SqlValue::BigInt(id)
    &&& forall|k: int|
        0 <= k < bound_changes(fields).len() ==> binds(
            #[trigger] bound_changes(fields)[k],
            params[k + 1],
        )
}

/// The value-binding changes of the first `i` fields are the first of the
/// value-binding changes of all fields, and where field `i` binds a value,
/// its change comes next.
proof fn lemma_bound_changes_prefix(fields: Seq<FieldEdit>, i: int)
    requires
        0 <= i < fields.len(),
    ensures
        bound_changes(fields.take(i)).len() <= bound_changes(fields).len(),
        !(fields[i].change is Clear) ==> bound_changes(fields.take(i)).len() < bound_changes(
            fields,
        ).len() && bound_changes(fields)[bound_changes(fields.take(i)).len() as int]
            == fields[i].change,
    decreases fields.len(),
{
    if i == fields.len() - 1 {
        assert(fields.take(i) =~= fields.drop_last());
    } else {
        lemma_bound_changes_prefix(fields.drop_last(), i);
        assert(fields.drop_last().take(i) =~= fields.take(i));
    }
}

/// Every value has its parameter: where field `i` of an update binds a
/// value, its assignment names the parameter `$n` with `n` two more than the
/// number of values bound before it, and the value bound to that parameter
/// is the field's. A field that clears its column names no parameter.
pub proof fn lemma_assignment_names_its_value(
    id: i64,
    fields: Seq<FieldEdit>,
    params: Seq<SqlValue>,
    i: int,
)
    requires
        is_binding(id, fields, params),
        0 <= i < fields.len(),
    ensures
        ({
            let n = 2 + bound_changes(fields.take(i)).len();
            if fields[i].change is Clear {
                assignment_text(fields[i], n) == fields[i].column.spec_name() + " = null"@
            } else {
                &&& assignment_text(fields[i], n) == fields[i].column.spec_name() + " = $"@
                    + decimal(n)
                &&& n - 1 < params.len()
                &&& binds(fields[i].change, params[n - 1])
            }
        }),
{
    lemma_bound_changes_prefix(fields, i);
    if !(fields[i].change is Clear) {
        let k = bound_changes(fields.take(i)).len() as int;
        assert(binds(bound_changes(fields)[k], params[k + 1]));
    }
}

/// The value that `change` binds, given the date that its text was read as
/// where it is a date.
pub fn bind_change(change: &Change, date: Option<CalendarDate>) -> (value: Option<SqlValue>)
    ensures
        match *change {
            Change::Text(text) => value == Some(SqlValue::Text(text)),
            Change::Int(number) => value == Some(SqlValue::Int(number)),
            Change::BigInt(number) => value == Some(SqlValue::BigInt(number)),
            Change::Date(_) => value == match date {
                Some(d) => Some(SqlValue::Date(d)),
                None => None,
            },
            Change::Clear => value is None,
        },
{
    match change {
        Change::Text(text) => Some(SqlValue::Text(text.clone())),
        Change::Int(number) => Some(SqlValue::Int(*number)),
        Change::BigInt(number) => Some(SqlValue::BigInt(*number)),
        Change::Date(_) => match date {
            Some(d) => Some(SqlValue::Date(d)),
            None => None,
        },
        Change::Clear => None,
    }
}

/// The text of the update of `table` that `fields` ask for.
pub fn render_update(table: Table, fields: &Vec<FieldEdit>) -> (text: String)
    ensures
        text@ == update_text(table, fields@),
{
    proof {
        reveal_strlit(", ");
        reveal_strlit(" SET ");
        reveal_strlit(" SE");
    }
    let ghost head = "UPDATE "@ + table.spec_name() + " SET "@;
    let mut text = String::from_str("UPDATE ");
    text.append(table.name());
    if fields.len() == 0 {
        text.append(" SE");
        assert(text@ =~= head.subrange(0, head.len() - 2));
        assert(head + assignments_text(fields@) =~= head);
    } else {
        text.append(" SET ");
        let mut next: u128 = 2;
        let mut i: usize = 0;
        while i < fields.len()
            invariant
                0 <= i <= fields.len(),
                fields.len() > 0,
                head == "UPDATE "@ + table.spec_name() + " SET "@,
                next == 2 + bound_changes(fields@.take(i as int)).len(),
                next <= 2 + i,
                i == 0 ==> text@ == head,
                i > 0 ==> text@ + seq![',', ' '] == head + assignments_text(fields@.take(i as int)),
            decreases fields.len() - i,
        {
            let ghost before = text@;
            proof {
                reveal_strlit(", ");
            }
            assert(", "@ =~= seq![',', ' ']);
            assert(fields@.take(i as int + 1).drop_last() =~= fields@.take(i as int));
            if i > 0 {
                text.append(", ");
            }
            assert(text@ == head + assignments_text(fields@.take(i as int))) by {
                if i == 0 {
                    assert(head + assignments_text(fields@.take(i as int)) =~= head);
                } else {
                    assert(text@ =~= before + seq![',', ' ']);
                }
            }
            let field = &fields[i];
            text.append(field.column.name());
            match field.change {
                Change::Clear => {
                    text.append(" = null");
                },
                _ => {
                    text.append(" = $");
                    push_decimal(&mut text, next);
                    next = next + 1;
                },
            }
            i = i + 1;
            assert(text@ + seq![',', ' '] =~= head + assignments_text(fields@.take(i as int)));
        }
        assert(fields@.take(i as int) =~= fields@);
        let ghost set = head + assignments_text(fields@);
        assert(text@ =~= set.subrange(0, set.len() - 2));
    }
    text.append(" WHERE id = $1");
    text
}

/// The parameters of the update of row `id` that `fields` ask for. Fails
/// exactly where a date among the fields is no date of the form
/// `[year]-[month]-[day]`, with the text of the first such field.
pub fn bind_fields(id: i64, fields: &Vec<FieldEdit>) -> (r: Result<Vec<SqlValue>, EngineError>)
    ensures
        r is Ok <==> dates_readable(fields@),
        r matches Ok(params) ==> is_binding(id, fields@, params@),
        r matches Err(e) ==> e matches EngineError::InvalidDate(text) && first_unreadable(
            fields@,
            text,
        ),
{
    let mut params: Vec<SqlValue> = Vec::new();
    params.push(SqlValue::BigInt(id));
    let mut i: usize = 0;
    while i < fields.len()
        invariant
            i <= fields.len(),
            dates_readable(fields@.take(i as int)),
            is_binding(id, fields@.take(i as int), params@),
        decreases fields.len() - i,
    {
        let ghost so_far = params@;
        assert(fields@.take(i as int + 1).drop_last() =~= fields@.take(i as int));
        let field = &fields[i];
        let date = match &field.change {
            Change::Date(text) => CalendarDate::parse(text.as_str()),
            _ => None,
        };
        match bind_change(&field.change, date) {
            Some(value) => {
                params.push(value);
            },
            None => {
                if let Change::Date(text) = &field.change {
                    assert(fields@[i as int].change == Change::Date(*text));
                    assert(!dates_readable(fields@));
                    return Err(EngineError::InvalidDate(text.clone()));
                }
            },
        }
        i = i + 1;
        proof {
            let now = fields@.take(i as int);
            let earlier = fields@.take(i as int - 1);
            assert forall|j: int| 0 <= j < now.len() implies (#[trigger] now[j].change matches Change::Date(
                text,
            ) ==> readable(text@)) by {
                if j < i - 1 {
                    assert(now[j] == earlier[j]);
                }
            }
            assert forall|k: int| 0 <= k < bound_changes(now).len() implies binds(
                #[trigger] bound_changes(now)[k],
                params@[k + 1],
            ) by {
                if k < bound_changes(earlier).len() {
                    assert(bound_changes(now)[k] == bound_changes(earlier)[k]);
                    assert(params@[k + 1] == so_far[k + 1]);
                }
            }
        }
    }
    assert(fields@.take(i as int) =~= fields@);
    Ok(params)
}

/// Whether `statement` is the update of row `id` of `table` that `fields`
/// ask for.
pub open spec fn is_update(statement: Statement, table: Table, id: i64, fields: Seq<FieldEdit>) -> bool {
    statement.text@ == update_text(table, fields) && is_binding(id, fields, statement.params@)
}

/// The update of row `id` of `table` that `fields` ask for. Fails exactly
/// where a date among the fields is no date.
pub fn update_statement(table: Table, id: i64, fields: &Vec<FieldEdit>) -> (r: Result<
    Statement,
    EngineError,
>)
    ensures
        r is Ok <==> dates_readable(fields@),
        r matches Ok(statement) ==> is_update(statement, table, id, fields@),
        r matches Err(e) ==> e matches EngineError::InvalidDate(text) && first_unreadable(
            fields@,
            text,
        ),
{
    match bind_fields(id, fields) {
        Ok(params) => Ok(Statement { text: render_update(table, fields), params }),
        Err(e) => Err(e),
    }
}

/// The edit of a text column: none where the payload leaves it out.
pub open spec fn text_field(column: Column, value: Option<String>) -> Seq<FieldEdit> {
    match value {
        Some(text) => seq![FieldEdit { column, change: Change::Text(text) }],
        None => Seq::empty(),
    }
}

/// The edit of a 32-bit integer column: none where the payload leaves it out.
pub open spec fn int_field(column: Column, value: Option<i32>) -> Seq<FieldEdit> {
    match value {
        Some(number) => seq![FieldEdit { column, change: Change::Int(number) }],
        None => Seq::empty(),
    }
}

/// The edit of a 64-bit integer column: none where the payload leaves it out.
pub open spec fn bigint_field(column: Column, value: Option<i64>) -> Seq<FieldEdit> {
    match value {
        Some(number) => seq![FieldEdit { column, change: Change::BigInt(number) }],
        None => Seq::empty(),
    }
}

/// The edit of a date column: none where the payload leaves it out.
pub open spec fn date_field(column: Column, value: Option<String>) -> Seq<FieldEdit> {
    match value {
        Some(text) => seq![FieldEdit { column, change: Change::Date(text) }],
        None => Seq::empty(),
    }
}

/// The edit of a url column: none where the payload leaves it out, a clear
/// for the word `null`, and the text itself otherwise.
pub open spec fn url_field(column: Column, value: Option<String>) -> Seq<FieldEdit> {
    match decoded(value) {
        Nullable::Absent => Seq::empty(),
        Nullable::ExplicitNull => seq![FieldEdit { column, change: Change::Clear }],
        Nullable::Value(text) => seq![FieldEdit { column, change: Change::Text(text) }],
    }
}

/// Adds the edit of a text column, where the payload names it.
fn push_text(fields: &mut Vec<FieldEdit>, column: Column, value: &Option<String>)
    ensures
        final(fields)@ == old(fields)@ + text_field(column, *value),
{
    if let Some(text) = value {
        fields.push(FieldEdit { column, change: Change::Text(text.clone()) });
    }
    assert(final(fields)@ =~= old(fields)@ + text_field(column, *value));
}

/// Adds the edit of a 32-bit integer column, where the payload names it.
fn push_int(fields: &mut Vec<FieldEdit>, column: Column, value: &Option<i32>)
    ensures
        final(fields)@ == old(fields)@ + int_field(column, *value),
{
    if let Some(number) = value {
        fields.push(FieldEdit { column, change: Change::Int(*number) });
    }
    assert(final(fields)@ =~= old(fields)@ + int_field(column, *value));
}

/// Adds the edit of a 64-bit integer column, where the payload names it.
fn push_bigint(fields: &mut Vec<FieldEdit>, column: Column, value: &Option<i64>)
    ensures
        final(fields)@ == old(fields)@ + bigint_field(column, *value),
{
    if let Some(number) = value {
        fields.push(FieldEdit { column, change: Change::BigInt(*number) });
    }
    assert(final(fields)@ =~= old(fields)@ + bigint_field(column, *value));
}

/// Adds the edit of a date column, where the payload names it.
fn push_date(fields: &mut Vec<FieldEdit>, column: Column, value: &Option<String>)
    ensures
        final(fields)@ == old(fields)@ + date_field(column, *value),
{
    if let Some(text) = value {
        fields.push(FieldEdit { column, change: Change::Date(text.clone()) });
    }
    assert(final(fields)@ =~= old(fields)@ + date_field(column, *value));
}

/// Adds the edit of a url column, where the payload names it: a clear for
/// the word `null`.
fn push_url(fields: &mut Vec<FieldEdit>, column: Column, value: &Option<String>)
    ensures
        final(fields)@ == old(fields)@ + url_field(column, *value),
{
    match decode_nullable(value) {
        Nullable::Absent => {},
        Nullable::ExplicitNull => {
            fields.push(FieldEdit { column, change: Change::Clear });
        },
        Nullable::Value(text) => {
            fields.push(FieldEdit { column, change: Change::Text(text) });
        },
    }
    assert(final(fields)@ =~= old(fields)@ + url_field(column, *value));
}

/// The payload that edits a team. Every field may be left out.
#[derive(Debug, Clone, PartialEq, Eq)]
pub struct EditTeam {
    pub name: Option<String>,
    pub description: Option<String>,
    pub stage: Option<i32>,
    pub creation_date: Option<String>,
    pub logo_url: Option<String>,
    pub banner_url: Option<String>,
    pub location: Option<String>,
}

/// The payload that edits a label.
#[derive(Debug, Clone, PartialEq, Eq)]
pub struct EditLabel {
    pub name: Option<String>,
}

/// The payload that edits a badge.
#[derive(Debug, Clone, PartialEq, Eq)]
pub struct EditBadge {
    pub name: Option<String>,
    pub description: Option<String>,
    pub points: Option<i64>,
    pub category: Option<i64>,
}

/// The payload that edits a badge category.
#[derive(Debug, Clone, PartialEq, Eq)]
pub struct EditCategory {
    pub name: Option<String>,
}

/// The payload that edits a person.
#[derive(Debug, Clone, PartialEq, Eq)]
pub struct EditPerson {
    pub name: Option<String>,
    pub team_id: Option<i64>,
    pub career: Option<String>,
    pub graduation_date: Option<String>,
    pub picture_url: Option<String>,
    pub portfolio_url: Option<String>,
}

impl EditTeam {
    /// The columns that this payload changes, in the order in which the
    /// update names them.
    pub open spec fn spec_fields(self) -> Seq<FieldEdit> {
        text_field(Column::Name, self.name) + text_field(Column::Description, self.description)
            + int_field(Column::Stage, self.stage) + date_field(
            Column::CreationDate,
            self.creation_date,
        ) + text_field(Column::Location, self.location) + url_field(Column::LogoUrl, self.logo_url)
            + url_field(Column::BannerUrl, self.banner_url)
    }

    /// The columns that this payload changes.
    pub fn fields(&self) -> (fields: Vec<FieldEdit>)
        ensures
            fields@ == self.spec_fields(),
    {
        let mut fields: Vec<FieldEdit> = Vec::new();
        push_text(&mut fields, Column::Name, &self.name);
        push_text(&mut fields, Column::Description, &self.description);
        push_int(&mut fields, Column::Stage, &self.stage);
        push_date(&mut fields, Column::CreationDate, &self.creation_date);
        push_text(&mut fields, Column::Location, &self.location);
        push_url(&mut fields, Column::LogoUrl, &self.logo_url);
        push_url(&mut fields, Column::BannerUrl, &self.banner_url);
        assert(fields@ =~= self.spec_fields());
        fields
    }

    /// The text of the update of the team row.
    pub fn query(self) -> (text: String)
        ensures
            text@ == update_text(Table::Teams, self.spec_fields()),
    {
        let fields = self.fields();
        render_update(Table::Teams, &fields)
    }
}

impl EditLabel {
    /// The columns that this payload changes.
    pub open spec fn spec_fields(self) -> Seq<FieldEdit> {
        text_field(Column::Name, self.name)
    }

    /// The columns that this payload changes.
    pub fn fields(&self) -> (fields: Vec<FieldEdit>)
        ensures
            fields@ == self.spec_fields(),
    {
        let mut fields: Vec<FieldEdit> = Vec::new();
        push_text(&mut fields, Column::Name, &self.name);
        assert(fields@ =~= self.spec_fields());
        fields
    }

    /// The text of the update of the label row.
    pub fn query(self) -> (text: String)
        ensures
            text@ == update_text(Table::Labels, self.spec_fields()),
    {
        let fields = self.fields();
        render_update(Table::Labels, &fields)
    }
}

impl EditBadge {
    /// The columns that this payload changes, in the order in which the
    /// update names them.
    pub open spec fn spec_fields(self) -> Seq<FieldEdit> {
        text_field(Column::Name, self.name) + text_field(Column::Description, self.description)
            + bigint_field(Column::Points, self.points) + bigint_field(
            Column::Category,
            self.category,
        )
    }

    /// The columns that this payload changes.
    pub fn fields(&self) -> (fields: Vec<FieldEdit>)
        ensures
            fields@ == self.spec_fields(),
    {
        let mut fields: Vec<FieldEdit> = Vec::new();
        push_text(&mut fields, Column::Name, &self.name);
        push_text(&mut fields, Column::Description, &self.description);
        push_bigint(&mut fields, Column::Points, &self.points);
        push_bigint(&mut fields, Column::Category, &self.category);
        assert(fields@ =~= self.spec_fields());
        fields
    }

    /// The text of the update of the badge row.
    pub fn query(self) -> (text: String)
        ensures
            text@ == update_text(Table::Badges, self.spec_fields()),
    {
        let fields = self.fields();
        render_update(Table::Badges, &fields)
    }
}

impl EditCategory {
    /// The columns that this payload changes.
    pub open spec fn spec_fields(self) -> Seq<FieldEdit> {
        text_field(Column::Name, self.name)
    }

    /// The columns that this payload changes.
    pub fn fields(&self) -> (fields: Vec<FieldEdit>)
        ensures
            fields@ == self.spec_fields(),
    {
        let mut fields: Vec<FieldEdit> = Vec::new();
        push_text(&mut fields, Column::Name, &self.name);
        assert(fields@ =~= self.spec_fields());
        fields
    }

    /// The text of the update of the category row.
    pub fn query(self) -> (text: String)
        ensures
            text@ == update_text(Table::Categories, self.spec_fields()),
    {
        let fields = self.fields();
        render_update(Table::Categories, &fields)
    }
}

impl EditPerson {
    /// The columns that this payload changes, in the order in which the
    /// update names them.
    pub open spec fn spec_fields(self) -> Seq<FieldEdit> {
        text_field(Column::Name, self.name) + bigint_field(Column::TeamId, self.team_id)
            + text_field(Column::Career, self.career) + date_field(
            Column::GraduationDate,
            self.graduation_date,
        ) + url_field(Column::PictureUrl, self.picture_url) + url_field(
            Column::PortfolioUrl,
            self.portfolio_url,
        )
    }

    /// The columns that this payload changes.
    pub fn fields(&self) -> (fields: Vec<FieldEdit>)
        ensures
            fields@ == self.spec_fields(),
    {
        let mut fields: Vec<FieldEdit> = Vec::new();
        push_text(&mut fields, Column::Name, &self.name);
        push_bigint(&mut fields, Column::TeamId, &self.team_id);
        push_text(&mut fields, Column::Career, &self.career);
        push_date(&mut fields, Column::GraduationDate, &self.graduation_date);
        push_url(&mut fields, Column::PictureUrl, &self.picture_url);
        push_url(&mut fields, Column::PortfolioUrl, &self.portfolio_url);
        assert(fields@ =~= self.spec_fields());
        fields
    }

    /// The text of the update of the person row.
    pub fn query(self) -> (text: String)
        ensures
            text@ == update_text(Table::Persons, self.spec_fields()),
    {
        let fields = self.fields();
        render_update(Table::Persons, &fields)
    }
}

} // verus!
