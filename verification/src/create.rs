//! Creating rows and changing ownership. A creation inserts a row and then
//! looks up the id that the store gave it. Giving a badge to a team, or
//! taking one away, changes the team's score, so the change says which
//! team's score must be derived again before the ranks are.

use vstd::prelude::*;
use crate::date::{parsed_date, readable, CalendarDate};
use crate::error::EngineError;
use crate::schema::{
    CreateBadge, CreateBadgeOwnership, CreateCategory, CreateLabel, CreateLabelOwnership,
    CreatePerson, CreateTeam, RawTeam, url_or, DEFAULT_BANNER_URL, DEFAULT_LOGO_URL,
};
use crate::statement::{
    delete_pair, delete_pair_text, is_statement, select_ids_where, select_ids_where_text, Column,
    SqlValue, Statement, Table,
};

verus! {

/// The text that inserts a team.
pub open spec fn insert_team_text() -> Seq<char> {
    "INSERT INTO teams (score, stage, name, description, creation_date, location, logo_url, banner_url) VALUES ($1, $2, $3, $4, $5, $6, $7, $8)"@
}

/// The text that inserts a label.
pub open spec fn insert_label_text() -> Seq<char> {
    "INSERT INTO labels (name) VALUES ($1)"@
}

/// The text that inserts a badge category.
pub open spec fn insert_category_text() -> Seq<char> {
    "INSERT INTO badge_categories (name) VALUES ($1)"@
}

/// The text that inserts a badge.
pub open spec fn insert_badge_text() -> Seq<char> {
    "INSERT INTO badges (name, description, points, category) VALUES ($1, $2, $3, $4)"@
}

/// The text that inserts a person.
pub open spec fn insert_person_text() -> Seq<char> {
    "INSERT INTO persons (team_id, name, career, graduation_date, picture_url, portfolio_url) VALUES ($1, $2, $3, $4, $5, $6)"@
}

/// The text that inserts a label ownership.
pub open spec fn insert_label_ownership_text() -> Seq<char> {
    "INSERT INTO label_ownerships (team_id, label_id) VALUES ($1, $2)"@
}

/// The text that inserts a badge ownership.
pub open spec fn insert_badge_ownership_text() -> Seq<char> {
    "INSERT INTO badge_ownerships (team_id, badge_id, acquisition_date) VALUES ($1, $2, $3)"@
}

/// A creation: the row is inserted, then its id is looked up by its name.
#[derive(Debug, Clone, PartialEq, Eq)]
pub struct Creation {
    pub insert: Statement,
    pub lookup: Statement,
}

/// A change of ownership: the statement that makes it, and the team whose
/// score must be derived again once it is made, followed by the ranks of all
/// teams. Labels do not count for the score, so a change of label ownership
/// names no team.
#[derive(Debug, Clone, PartialEq, Eq)]
pub struct OwnershipChange {
    pub statement: Statement,
    pub recompute: Option<i64>,
}

/// Whether `lookup` selects the id of the row of `table` with this name.
pub open spec fn looks_up(lookup: Statement, table: Table, name: String) -> bool {
    is_statement(lookup, select_ids_where_text(table, Column::Name), seq![SqlValue::Text(name)])
}

/// Whether `creation` inserts the team row `raw` and looks its id up.
pub open spec fn creates_team(creation: Creation, raw: RawTeam) -> bool {
    &&& is_statement(
        creation.insert,
        insert_team_text(),
        seq![
            SqlValue::BigInt(raw.score),
            SqlValue::Int(raw.stage),
            SqlValue::Text(raw.name),
            SqlValue::Text(raw.description),
            SqlValue::Date(raw.creation_date),
            SqlValue::Text(raw.location),
            SqlValue::NullableText(raw.logo_url),
            SqlValue::NullableText(raw.banner_url),
        ],
    )
    &&& looks_up(creation.lookup, Table::Teams, raw.name)
}

/// Whether `creation` creates the team that `payload` describes: the row has
/// no score and stage 0, the creation date is the date that the payload's
/// text was read as, and logo and banner are the default ones where the
/// payload has none.
pub open spec fn creates_team_of(creation: Creation, payload: CreateTeam) -> bool {
    let params = creation.insert.params@;
    &&& creation.insert.text@ == insert_team_text()
    &&& params.len() == 8
    &&& params[0] == SqlValue::BigInt(0)
    &&& params[1] == SqlValue::Int(0)
    &&& params[2] == SqlValue::Text(payload.name)
    &&& params[3] == SqlValue::Text(payload.description)
    &&& params[4] matches SqlValue::Date(date) && parsed_date(payload.creation_date@) == Some(
        date.ymd(),
    )
    &&& params[5] == SqlValue::Text(payload.location)
    &&& params[6] matches SqlValue::NullableText(Some(url)) && url@ == url_or(
        payload.logo_url,
        DEFAULT_LOGO_URL@,
    )
    &&& params[7] matches SqlValue::NullableText(Some(url)) && url@ == url_or(
        payload.banner_url,
        DEFAULT_BANNER_URL@,
    )
    &&& looks_up(creation.lookup, Table::Teams, payload.name)
}

/// Whether `statement` adds the person that `payload` describes, with the
/// date that the payload's text was read as.
pub open spec fn adds_person(statement: Statement, payload: CreatePerson) -> bool {
    &&& statement.text@ == insert_person_text()
    &&& statement.params@.len() == 6
    &&& statement.params@[3] matches SqlValue::Date(date) && parsed_date(
        payload.graduation_date@,
    ) == Some(date.ymd()) && statement.params@ == person_params(payload, date)
}

/// Whether `statement` gives the badge to the team as `payload` says, with
/// the date that the payload's text was read as.
pub open spec fn adds_badge(statement: Statement, payload: CreateBadgeOwnership) -> bool {
    &&& statement.text@ == insert_badge_ownership_text()
    &&& statement.params@.len() == 3
    &&& statement.params@[2] matches SqlValue::Date(date) && parsed_date(
        payload.acquisition_date@,
    ) == Some(date.ymd()) && statement.params@ == badge_ownership_params(payload, date)
}

/// The parameters of the insert of a person, with `date` for the graduation
/// date.
pub open spec fn person_params(person: CreatePerson, date: CalendarDate) -> Seq<SqlValue> {
    seq![
        SqlValue::BigInt(person.team_id),
        SqlValue::Text(person.name),
        SqlValue::Text(person.career),
        SqlValue::Date(date),
        SqlValue::NullableText(person.picture_url),
        SqlValue::NullableText(person.portfolio_url),
    ]
}

/// The parameters of the insert of a badge ownership, with `date` for the
/// acquisition date.
pub open spec fn badge_ownership_params(ownership: CreateBadgeOwnership, date: CalendarDate) -> Seq<
    SqlValue,
> {
    seq![
        SqlValue::BigInt(ownership.team_id),
        SqlValue::BigInt(ownership.badge_id),
        SqlValue::Date(date),
    ]
}

/// The statement that looks up the id of the row of `table` with this name.
fn lookup_by_name(table: Table, name: &String) -> (lookup: Statement)
    ensures
        looks_up(lookup, table, *name),
{
    select_ids_where(table, Column::Name, SqlValue::Text(name.clone()))
}

/// A copy of a url that may be missing.
fn clone_url(url: &Option<String>) -> (copy: Option<String>)
    ensures
        copy == *url,
{
    match url {
        Some(text) => Some(text.clone()),
        None => None,
    }
}

/// The creation of the team row `raw`.
pub fn insert_team(raw: &RawTeam) -> (creation: Creation)
    ensures
        creates_team(creation, *raw),
{
    let mut params: Vec<SqlValue> = Vec::new();
    params.push(SqlValue::BigInt(raw.score));
    params.push(SqlValue::Int(raw.stage));
    params.push(SqlValue::Text(raw.name.clone()));
    params.push(SqlValue::Text(raw.description.clone()));
    params.push(SqlValue::Date(raw.creation_date));
    params.push(SqlValue::Text(raw.location.clone()));
    params.push(SqlValue::NullableText(clone_url(&raw.logo_url)));
    params.push(SqlValue::NullableText(clone_url(&raw.banner_url)));
    assert(params@ =~= seq![
        SqlValue::BigInt(raw.score),
        SqlValue::Int(raw.stage),
        SqlValue::Text(raw.name),
        SqlValue::Text(raw.description),
        SqlValue::Date(raw.creation_date),
        SqlValue::Text(raw.location),
        SqlValue::NullableText(raw.logo_url),
        SqlValue::NullableText(raw.banner_url),
    ]);
    Creation {
        insert: Statement {
            text: String::from_str(
                "INSERT INTO teams (score, stage, name, description, creation_date, location, logo_url, banner_url) VALUES ($1, $2, $3, $4, $5, $6, $7, $8)",
            ),
            params,
        },
        lookup: lookup_by_name(Table::Teams, &raw.name),
    }
}

/// The creation of a team from its payload: the row has no score and stage 0,
/// and the default logo and banner where the payload has none. Fails exactly
/// where the creation date is no date of the form `[year]-[month]-[day]`.
pub fn create_team(payload: CreateTeam) -> (r: Result<Creation, EngineError>)
    ensures
        r is Ok <==> readable(payload.creation_date@),
        r matches Ok(creation) ==> creates_team_of(creation, payload),
        r matches Err(e) ==> e == EngineError::InvalidDate(payload.creation_date),
{
    match RawTeam::from(payload) {
        Ok(raw) => Ok(insert_team(&raw)),
        Err(e) => Err(e),
    }
}

/// The creation of a label.
pub fn create_label(payload: &CreateLabel) -> (creation: Creation)
    ensures
        is_statement(creation.insert, insert_label_text(), seq![SqlValue::Text(payload.name)]),
        looks_up(creation.lookup, Table::Labels, payload.name),
{
    let mut params: Vec<SqlValue> = Vec::new();
    params.push(SqlValue::Text(payload.name.clone()));
    assert(params@ =~= seq![SqlValue::Text(payload.name)]);
    Creation {
        insert: Statement {
            text: String::from_str("INSERT INTO labels (name) VALUES ($1)"),
            params,
        },
        lookup: lookup_by_name(Table::Labels, &payload.name),
    }
}

/// The creation of a badge category.
pub fn create_category(payload: &CreateCategory) -> (creation: Creation)
    ensures
        is_statement(creation.insert, insert_category_text(), seq![SqlValue::Text(payload.name)]),
        looks_up(creation.lookup, Table::Categories, payload.name),
{
    let mut params: Vec<SqlValue> = Vec::new();
    params.push(SqlValue::Text(payload.name.clone()));
    assert(params@ =~= seq![SqlValue::Text(payload.name)]);
    Creation {
        insert: Statement {
            text: String::from_str("INSERT INTO badge_categories (name) VALUES ($1)"),
            params,
        },
        lookup: lookup_by_name(Table::Categories, &payload.name),
    }
}

/// The creation of a badge.
pub fn create_badge(payload: &CreateBadge) -> (creation: Creation)
    ensures
        is_statement(
            creation.insert,
            insert_badge_text(),
            seq![
                SqlValue::Text(payload.name),
                SqlValue::Text(payload.description),
                SqlValue::BigInt(payload.points),
                SqlValue::BigInt(payload.category),
            ],
        ),
        looks_up(creation.lookup, Table::Badges, payload.name),
{
    let mut params: Vec<SqlValue> = Vec::new();
    params.push(SqlValue::Text(payload.name.clone()));
    params.push(SqlValue::Text(payload.description.clone()));
    params.push(SqlValue::BigInt(payload.points));
    params.push(SqlValue::BigInt(payload.category));
    assert(params@ =~= seq![
        SqlValue::Text(payload.name),
        SqlValue::Text(payload.description),
        SqlValue::BigInt(payload.points),
        SqlValue::BigInt(payload.category),
    ]);
    Creation {
        insert: Statement {
            text: String::from_str(
                "INSERT INTO badges (name, description, points, category) VALUES ($1, $2, $3, $4)",
            ),
            params,
        },
        lookup: lookup_by_name(Table::Badges, &payload.name),
    }
}

/// The statement that adds a person whose graduation date was read as
/// `date`.
pub fn insert_person(payload: &CreatePerson, date: CalendarDate) -> (statement: Statement)
    ensures
        is_statement(statement, insert_person_text(), person_params(*payload, date)),
{
    let mut params: Vec<SqlValue> = Vec::new();
    params.push(SqlValue::BigInt(payload.team_id));
    params.push(SqlValue::Text(payload.name.clone()));
    params.push(SqlValue::Text(payload.career.clone()));
    params.push(SqlValue::Date(date));
    params.push(SqlValue::NullableText(clone_url(&payload.picture_url)));
    params.push(SqlValue::NullableText(clone_url(&payload.portfolio_url)));
    assert(params@ =~= person_params(*payload, date));
    Statement {
        text: String::from_str(
            "INSERT INTO persons (team_id, name, career, graduation_date, picture_url, portfolio_url) VALUES ($1, $2, $3, $4, $5, $6)",
        ),
        params,
    }
}

/// The statement that adds a person to a team. Fails exactly where the
/// graduation date is no date of the form `[year]-[month]-[day]`.
pub fn add_person(payload: &CreatePerson) -> (r: Result<Statement, EngineError>)
    ensures
        r is Ok <==> readable(payload.graduation_date@),
        r matches Ok(statement) ==> adds_person(statement, *payload),
        r matches Err(e) ==> e == EngineError::InvalidDate(payload.graduation_date),
{
    match CalendarDate::parse(payload.graduation_date.as_str()) {
        Some(date) => Ok(insert_person(payload, date)),
        None => Err(EngineError::InvalidDate(payload.graduation_date.clone())),
    }
}

/// The change that gives a label to a team.
pub fn add_label(payload: &CreateLabelOwnership) -> (change: OwnershipChange)
    ensures
        is_statement(
            change.statement,
            insert_label_ownership_text(),
            seq![SqlValue::BigInt(payload.team_id), SqlValue::BigInt(payload.label_id)],
        ),
        change.recompute is None,
{
    let mut params: Vec<SqlValue> = Vec::new();
    params.push(SqlValue::BigInt(payload.team_id));
    params.push(SqlValue::BigInt(payload.label_id));
    assert(params@ =~= seq![
        SqlValue::BigInt(payload.team_id),
        SqlValue::BigInt(payload.label_id),
    ]);
    OwnershipChange {
        statement: Statement {
            text: String::from_str(
                "INSERT INTO label_ownerships (team_id, label_id) VALUES ($1, $2)",
            ),
            params,
        },
        recompute: None,
    }
}

/// The change that gives a badge, acquired on `date`, to a team: once the
/// row is inserted, the score of that team is derived again.
pub fn insert_badge_ownership(payload: &CreateBadgeOwnership, date: CalendarDate) -> (change:
    OwnershipChange)
    ensures
        is_statement(
            change.statement,
            insert_badge_ownership_text(),
            badge_ownership_params(*payload, date),
        ),
        change.recompute == Some(payload.team_id),
{
    let mut params: Vec<SqlValue> = Vec::new();
    params.push(SqlValue::BigInt(payload.team_id));
    params.push(SqlValue::BigInt(payload.badge_id));
    params.push(SqlValue::Date(date));
    assert(params@ =~= badge_ownership_params(*payload, date));
    OwnershipChange {
        statement: Statement {
            text: String::from_str(
                "INSERT INTO badge_ownerships (team_id, badge_id, acquisition_date) VALUES ($1, $2, $3)",
            ),
            params,
        },
        recompute: Some(payload.team_id),
    }
}

/// The change that gives a badge to a team. Fails exactly where the
/// acquisition date is no date of the form `[year]-[month]-[day]`.
pub fn add_badge(payload: &CreateBadgeOwnership) -> (r: Result<OwnershipChange, EngineError>)
    ensures
        r is Ok <==> readable(payload.acquisition_date@),
        r matches Ok(change) ==> change.recompute == Some(payload.team_id) && adds_badge(
            change.statement,
            *payload,
        ),
        r matches Err(e) ==> e == EngineError::InvalidDate(payload.acquisition_date),
{
    match CalendarDate::parse(payload.acquisition_date.as_str()) {
        Some(date) => Ok(insert_badge_ownership(payload, date)),
        None => Err(EngineError::InvalidDate(payload.acquisition_date.clone())),
    }
}

/// The two kinds of ownership.
#[derive(Debug, Clone, Copy, PartialEq, Eq, Structural)]
pub enum OwnershipKind {
    Label,
    Badge,
}

impl OwnershipKind {
    /// The word that names this kind in a request.
    pub open spec fn spec_word(self) -> Seq<char> {
        match self {
            OwnershipKind::Label => "label"@,
            OwnershipKind::Badge => "badge"@,
        }
    }

    /// The kind that `word` names; any other word is refused.
    pub fn parse(word: &str) -> (r: Result<OwnershipKind, EngineError>)
        ensures
            match r {
                Ok(kind) => word@ == kind.spec_word(),
                Err(e) => e == EngineError::UnknownOwnershipKind && forall|kind: OwnershipKind|
                    word@ != #[trigger] kind.spec_word(),
            },
    {
        if String::from_str(word) == String::from_str("label") {
            Ok(OwnershipKind::Label)
        } else if String::from_str(word) == String::from_str("badge") {
            Ok(OwnershipKind::Badge)
        } else {
            Err(EngineError::UnknownOwnershipKind)
        }
    }
}

/// The change that takes the label or badge `item_id` away from team
/// `team_id`. Taking a badge away changes the team's score, which is then
/// derived again.
pub fn remove_ownership(kind: OwnershipKind, team_id: i64, item_id: i64) -> (change: OwnershipChange)
    ensures
        match kind {
            OwnershipKind::Label => is_statement(
                change.statement,
                delete_pair_text(Table::LabelOwnerships, Column::LabelId),
                seq![SqlValue::BigInt(team_id), SqlValue::BigInt(item_id)],
            ) && change.recompute is None,
            OwnershipKind::Badge => is_statement(
                change.statement,
                delete_pair_text(Table::BadgeOwnerships, Column::BadgeId),
                seq![SqlValue::BigInt(team_id), SqlValue::BigInt(item_id)],
            ) && change.recompute == Some(team_id),
        },
{
    match kind {
        OwnershipKind::Label => OwnershipChange {
            statement: delete_pair(Table::LabelOwnerships, Column::LabelId, team_id, item_id),
            recompute: None,
        },
        OwnershipKind::Badge => OwnershipChange {
            statement: delete_pair(Table::BadgeOwnerships, Column::BadgeId, team_id, item_id),
            recompute: Some(team_id),
        },
    }
}

} // verus!
