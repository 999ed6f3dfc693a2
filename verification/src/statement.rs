//! Statements for the relational store: a text with positional parameters
//! and the values bound to them. Table and column names come from two fixed
//! enumerations; whatever a caller supplies travels as a bound value.

use vstd::prelude::*;
use crate::date::CalendarDate;

verus! {

/// A value bound to a positional parameter.
#[derive(Debug, Clone, PartialEq, Eq)]
pub enum SqlValue {
    /// A 32-bit integer column.
    Int(i32),
    /// A 64-bit integer column.
    BigInt(i64),
    /// A text column.
    Text(String),
    /// A text column that may be null.
    NullableText(Option<String>),
    /// A date column.
    Date(CalendarDate),
    /// A list of 64-bit integers, for `= ANY(..)`.
    BigIntList(Vec<i64>),
}

/// A statement and the values of its parameters: `params[i]` is bound to
/// `$i+1`.
#[derive(Debug, Clone, PartialEq, Eq)]
pub struct Statement {
    pub text: String,
    pub params: Vec<SqlValue>,
}

/// Whether `statement` has the given text and parameters.
pub open spec fn is_statement(statement: Statement, text: Seq<char>, params: Seq<SqlValue>) -> bool {
    statement.text@ == text && statement.params@ == params
}

/// The seven tables of the registry.
#[derive(Debug, Clone, Copy, PartialEq, Eq, Structural)]
pub enum Table {
    Teams,
    Persons,
    Labels,
    LabelOwnerships,
    Categories,
    Badges,
    BadgeOwnerships,
}

/// The columns that a statement names.
#[derive(Debug, Clone, Copy, PartialEq, Eq, Structural)]
pub enum Column {
    Id,
    Name,
    TeamId,
    LabelId,
    BadgeId,
    Category,
    Description,
    Stage,
    CreationDate,
    Location,
    LogoUrl,
    BannerUrl,
    Points,
    Career,
    GraduationDate,
    PictureUrl,
    PortfolioUrl,
    Score,
    Rank,
}

impl Table {
    /// The name of the table in the store.
    pub open spec fn spec_name(self) -> Seq<char> {
        match self {
            Table::Teams => "teams"@,
            Table::Persons => "persons"@,
            Table::Labels => "labels"@,
            Table::LabelOwnerships => "label_ownerships"@,
            Table::Categories => "badge_categories"@,
            Table::Badges => "badges"@,
            Table::BadgeOwnerships => "badge_ownerships"@,
        }
    }

    /// The name of the table in the store.
    pub fn name(&self) -> (r: &'static str)
        ensures
            r@ == self.spec_name(),
    {
        match self {
            Table::Teams => "teams",
            Table::Persons => "persons",
            Table::Labels => "labels",
            Table::LabelOwnerships => "label_ownerships",
            Table::Categories => "badge_categories",
            Table::Badges => "badges",
            Table::BadgeOwnerships => "badge_ownerships",
        }
    }
}

impl Column {
    /// The name of the column in the store.
    pub open spec fn spec_name(self) -> Seq<char> {
        match self {
            Column::Id => "id"@,
            Column::Name => "name"@,
            Column::TeamId => "team_id"@,
            Column::LabelId => "label_id"@,
            Column::BadgeId => "badge_id"@,
            Column::Category => "category"@,
            Column::Description => "description"@,
            Column::Stage => "stage"@,
            Column::CreationDate => "creation_date"@,
            Column::Location => "location"@,
            Column::LogoUrl => "logo_url"@,
            Column::BannerUrl => "banner_url"@,
            Column::Points => "points"@,
            Column::Career => "career"@,
            Column::GraduationDate => "graduation_date"@,
            Column::PictureUrl => "picture_url"@,
            Column::PortfolioUrl => "portfolio_url"@,
            Column::Score => "score"@,
            Column::Rank => "rank"@,
        }
    }

    /// The name of the column in the store.
    pub fn name(&self) -> (r: &'static str)
        ensures
            r@ == self.spec_name(),
    {
        match self {
            Column::Id => "id",
            Column::Name => "name",
            Column::TeamId => "team_id",
            Column::LabelId => "label_id",
            Column::BadgeId => "badge_id",
            Column::Category => "category",
            Column::Description => "description",
            Column::Stage => "stage",
            Column::CreationDate => "creation_date",
            Column::Location => "location",
            Column::LogoUrl => "logo_url",
            Column::BannerUrl => "banner_url",
            Column::Points => "points",
            Column::Career => "career",
            Column::GraduationDate => "graduation_date",
            Column::PictureUrl => "picture_url",
            Column::PortfolioUrl => "portfolio_url",
            Column::Score => "score",
            Column::Rank => "rank",
        }
    }
}

/// `SELECT * FROM <table>`.
pub open spec fn select_all_text(table: Table) -> Seq<char> {
    "SELECT * FROM "@ + table.spec_name()
}

/// `SELECT * FROM <table> WHERE <column> = $1`.
pub open spec fn select_where_text(table: Table, column: Column) -> Seq<char> {
    "SELECT * FROM "@ + table.spec_name() + " WHERE "@ + column.spec_name() + " = $1"@
}

/// `SELECT * FROM <table> WHERE <column> = ANY($1)`.
pub open spec fn select_any_text(table: Table, column: Column) -> Seq<char> {
    "SELECT * FROM "@ + table.spec_name() + " WHERE "@ + column.spec_name() + " = ANY($1)"@
}

/// `SELECT id FROM <table>`.
pub open spec fn select_ids_text(table: Table) -> Seq<char> {
    "SELECT id FROM "@ + table.spec_name()
}

/// `SELECT id FROM <table> WHERE <column> = $1`.
pub open spec fn select_ids_where_text(table: Table, column: Column) -> Seq<char> {
    "SELECT id FROM "@ + table.spec_name() + " WHERE "@ + column.spec_name() + " = $1"@
}

/// `DELETE FROM <table> WHERE <column> = $1`.
pub open spec fn delete_where_text(table: Table, column: Column) -> Seq<char> {
    "DELETE FROM "@ + table.spec_name() + " WHERE "@ + column.spec_name() + " = $1"@
}

/// `DELETE FROM <table> WHERE <column> = ANY($1)`.
pub open spec fn delete_any_text(table: Table, column: Column) -> Seq<char> {
    "DELETE FROM "@ + table.spec_name() + " WHERE "@ + column.spec_name() + " = ANY($1)"@
}

/// `DELETE FROM <table> WHERE team_id = $1 AND <column> = $2`.
pub open spec fn delete_pair_text(table: Table, column: Column) -> Seq<char> {
    "DELETE FROM "@ + table.spec_name() + " WHERE team_id = $1 AND "@ + column.spec_name()
        + " = $2"@
}

/// The text made of `head`, a table's name, `middle`, a column's name and
/// `tail`.
fn compose(head: &str, table: Table, middle: &str, column: Column, tail: &str) -> (text: String)
    ensures
        text@ == head@ + table.spec_name() + middle@ + column.spec_name() + tail@,
{
    let mut text = String::from_str(head);
    text.append(table.name());
    text.append(middle);
    text.append(column.name());
    text.append(tail);
    text
}

/// One bound value.
fn one(value: SqlValue) -> (params: Vec<SqlValue>)
    ensures
        params@ == seq![value],
{
    let mut params: Vec<SqlValue> = Vec::new();
    params.push(value);
    assert(params@ =~= seq![value]);
    params
}

/// All rows of `table`.
pub fn select_all(table: Table) -> (statement: Statement)
    ensures
        is_statement(statement, select_all_text(table), Seq::empty()),
{
    Statement { text: String::from_str("SELECT * FROM ").concat(table.name()), params: Vec::new() }
}

/// The rows of `table` whose `column` is `id`.
pub fn select_where(table: Table, column: Column, id: i64) -> (statement: Statement)
    ensures
        is_statement(statement, select_where_text(table, column), seq![SqlValue::BigInt(id)]),
{
    Statement {
        text: compose("SELECT * FROM ", table, " WHERE ", column, " = $1"),
        params: one(SqlValue::BigInt(id)),
    }
}

/// The rows of `table` whose `column` is one of `ids`, in one statement.
pub fn select_any(table: Table, column: Column, ids: Vec<i64>) -> (statement: Statement)
    ensures
        is_statement(statement, select_any_text(table, column), seq![SqlValue::BigIntList(ids)]),
{
    Statement {
        text: compose("SELECT * FROM ", table, " WHERE ", column, " = ANY($1)"),
        params: one(SqlValue::BigIntList(ids)),
    }
}

/// The ids of all rows of `table`.
pub fn select_ids(table: Table) -> (statement: Statement)
    ensures
        is_statement(statement, select_ids_text(table), Seq::empty()),
{
    Statement { text: String::from_str("SELECT id FROM ").concat(table.name()), params: Vec::new() }
}

/// The ids of the rows of `table` whose `column` is `value`.
pub fn select_ids_where(table: Table, column: Column, value: SqlValue) -> (statement: Statement)
    ensures
        is_statement(statement, select_ids_where_text(table, column), seq![value]),
{
    Statement {
        text: compose("SELECT id FROM ", table, " WHERE ", column, " = $1"),
        params: one(value),
    }
}

/// Deletes the rows of `table` whose `column` is `id`.
pub fn delete_where(table: Table, column: Column, id: i64) -> (statement: Statement)
    ensures
        is_statement(statement, delete_where_text(table, column), seq![SqlValue::BigInt(id)]),
{
    Statement {
        text: compose("DELETE FROM ", table, " WHERE ", column, " = $1"),
        params: one(SqlValue::BigInt(id)),
    }
}

/// Deletes the rows of `table` whose `column` is one of `ids`, in one
/// statement.
pub fn delete_any(table: Table, column: Column, ids: Vec<i64>) -> (statement: Statement)
    ensures
        is_statement(statement, delete_any_text(table, column), seq![SqlValue::BigIntList(ids)]),
{
    Statement {
        text: compose("DELETE FROM ", table, " WHERE ", column, " = ANY($1)"),
        params: one(SqlValue::BigIntList(ids)),
    }
}

/// Deletes the rows of `table` of team `team_id` whose `column` is `id`.
pub fn delete_pair(table: Table, column: Column, team_id: i64, id: i64) -> (statement: Statement)
    ensures
        is_statement(
            statement,
            delete_pair_text(table, column),
            seq![SqlValue::BigInt(team_id), SqlValue::BigInt(id)],
        ),
{
    let mut params = one(SqlValue::BigInt(team_id));
    params.push(SqlValue::BigInt(id));
    assert(params@ =~= seq![SqlValue::BigInt(team_id), SqlValue::BigInt(id)]);
    Statement {
        text: compose("DELETE FROM ", table, " WHERE team_id = $1 AND ", column, " = $2"),
        params,
    }
}

} // verus!
