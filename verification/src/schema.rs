//! The records of the registry: a row of each table as the store holds it,
//! the payload that creates one, and the views that a caller is shown.

use vstd::prelude::*;
use crate::date::{date_text, parsed_date, readable, CalendarDate};
use crate::error::EngineError;

verus! {

/// The logo shown for a team that was created without one.
pub const DEFAULT_LOGO_URL: &'static str =
    "https://media.licdn.com/dms/image/C4E0BAQH7TefJMYuKCg/company-logo_200_200/0/1519894138847?e=2147483647&v=beta&t=kBCvEozdJQUO00EXcRe8UcDZr32wuItkdUXvM9B3UwQ";

/// The banner shown for a team that was created without one.
pub const DEFAULT_BANNER_URL: &'static str =
    "https://i.pinimg.com/originals/a9/97/51/a99751ac6e165b94030b86c62fa00294.jpg";

/// The id column alone, as a lookup by name returns it.
#[derive(Debug, Clone, PartialEq, Eq)]
pub struct RawID {
    pub id: i64,
}

/// A label: an independent word that teams can own.
#[derive(Debug, Clone, PartialEq, Eq)]
pub struct Label {
    pub id: i64,
    pub name: String,
}

/// The payload that creates a label.
#[derive(Debug, Clone, PartialEq, Eq)]
pub struct CreateLabel {
    pub name: String,
}

/// A row that says that a team owns a label.
#[derive(Debug, Clone, PartialEq, Eq)]
pub struct LabelOwnership {
    pub id: i64,
    pub team_id: i64,
    pub label_id: i64,
}

/// The payload that gives a label to a team.
#[derive(Debug, Clone, PartialEq, Eq)]
pub struct CreateLabelOwnership {
    pub team_id: i64,
    pub label_id: i64,
}

/// A badge category.
#[derive(Debug, Clone, PartialEq, Eq)]
pub struct Category {
    pub id: i64,
    pub name: String,
}

/// The payload that creates a badge category.
#[derive(Debug, Clone, PartialEq, Eq)]
pub struct CreateCategory {
    pub name: String,
}

/// A badge row: `category` is the id of its category.
#[derive(Debug, Clone, PartialEq, Eq)]
pub struct RawBadge {
    pub id: i64,
    pub name: String,
    pub description: String,
    pub points: i64,
    pub category: i64,
}

/// The payload that creates a badge.
#[derive(Debug, Clone, PartialEq, Eq)]
pub struct CreateBadge {
    pub name: String,
    pub description: String,
    pub points: i64,
    pub category: i64,
}

/// A badge with its category in full.
#[derive(Debug, Clone, PartialEq, Eq)]
pub struct Badge {
    pub id: i64,
    pub name: String,
    pub description: String,
    pub points: i64,
    pub category: Category,
}

/// A row that says that a team owns a badge, and since when.
#[derive(Debug, Clone, PartialEq, Eq)]
pub struct BadgeOwnership {
    pub id: i64,
    pub team_id: i64,
    pub badge_id: i64,
    pub acquisition_date: CalendarDate,
}

/// The payload that gives a badge to a team.
#[derive(Debug, Clone, PartialEq, Eq)]
pub struct CreateBadgeOwnership {
    pub team_id: i64,
    pub badge_id: i64,
    pub acquisition_date: String,
}

/// A badge as one team owns it: the id of the ownership row, the date the
/// badge was acquired, and the badge.
#[derive(Debug, Clone, PartialEq, Eq)]
pub struct OwnedBadge {
    pub id: i64,
    pub acquisition_date: String,
    pub badge: Badge,
}

/// A person row.
#[derive(Debug, Clone, PartialEq, Eq)]
pub struct RawPerson {
    pub id: i64,
    pub team_id: i64,
    pub name: String,
    pub career: String,
    pub graduation_date: CalendarDate,
    pub picture_url: Option<String>,
    pub portfolio_url: Option<String>,
}

/// The payload that adds a person to a team.
#[derive(Debug, Clone, PartialEq, Eq)]
pub struct CreatePerson {
    pub team_id: i64,
    pub name: String,
    pub career: String,
    pub graduation_date: String,
    pub picture_url: Option<String>,
    pub portfolio_url: Option<String>,
}

/// A person as shown: the graduation date is text.
#[derive(Debug, Clone, PartialEq, Eq)]
pub struct Person {
    pub id: i64,
    pub team_id: i64,
    pub name: String,
    pub career: String,
    pub graduation_date: String,
    pub picture_url: Option<String>,
    pub portfolio_url: Option<String>,
}

/// A team row.
#[derive(Debug, Clone, PartialEq, Eq)]
pub struct RawTeam {
    pub id: i64,
    pub rank: Option<i32>,
    pub score: i64,
    pub stage: i32,
    pub name: String,
    pub logo_url: Option<String>,
    pub banner_url: Option<String>,
    pub description: String,
    pub creation_date: CalendarDate,
    pub location: String,
}

/// The payload that creates a team.
#[derive(Debug, Clone, PartialEq, Eq)]
pub struct CreateTeam {
    pub name: String,
    pub description: String,
    pub location: String,
    pub creation_date: String,
    pub banner_url: Option<String>,
    pub logo_url: Option<String>,
}

/// A team as shown: its own columns, then its labels, persons and badges.
#[derive(Debug, Clone, PartialEq, Eq)]
pub struct Team {
    pub id: i64,
    pub rank: Option<i32>,
    pub score: i64,
    pub stage: i32,
    pub name: String,
    pub logo_url: Option<String>,
    pub banner_url: Option<String>,
    pub description: String,
    pub creation_date: String,
    pub location: String,
    pub labels: Vec<Label>,
    pub persons: Vec<Person>,
    pub badges: Vec<OwnedBadge>,
}

/// The text of the date that `date` holds.
pub open spec fn shown(date: CalendarDate) -> Seq<char> {
    date_text(date.ymd().0, date.ymd().1, date.ymd().2)
}

/// Whether `view` shows the row `raw` with the category `category`.
pub open spec fn shows_badge(view: Badge, raw: RawBadge, category: Category) -> bool {
    view == (Badge {
        id: raw.id,
        name: raw.name,
        description: raw.description,
        points: raw.points,
        category: category,
    })
}

/// Whether `view` shows the person row `raw`: every column as it is, the
/// graduation date as text.
pub open spec fn shows_person(view: Person, raw: RawPerson) -> bool {
    &&& view.id == raw.id
    &&& view.team_id == raw.team_id
    &&& view.name == raw.name
    &&& view.career == raw.career
    &&& view.graduation_date@ == shown(raw.graduation_date)
    &&& view.picture_url == raw.picture_url
    &&& view.portfolio_url == raw.portfolio_url
}

/// Whether `view` shows `raw` as `ownership` holds it.
pub open spec fn shows_owned_badge(
    view: OwnedBadge,
    raw: RawBadge,
    category: Category,
    ownership: BadgeOwnership,
) -> bool {
    &&& view.id == ownership.id
    &&& view.acquisition_date@ == shown(ownership.acquisition_date)
    &&& shows_badge(view.badge, raw, category)
}

/// Whether `team` shows the row `raw` with the given labels, badges and
/// persons: every column as it is, the creation date as text.
pub open spec fn shows_team(
    team: Team,
    raw: RawTeam,
    labels: Vec<Label>,
    badges: Vec<OwnedBadge>,
    persons: Vec<Person>,
) -> bool {
    &&& team.id == raw.id
    &&& team.rank == raw.rank
    &&& team.score == raw.score
    &&& team.stage == raw.stage
    &&& team.name == raw.name
    &&& team.logo_url == raw.logo_url
    &&& team.banner_url == raw.banner_url
    &&& team.description == raw.description
    &&& team.creation_date@ == shown(raw.creation_date)
    &&& team.location == raw.location
    &&& team.labels == labels
    &&& team.badges == badges
    &&& team.persons == persons
}

/// The url that a new team gets: the one it was created with, or `fallback`.
pub open spec fn url_or(given: Option<String>, fallback: Seq<char>) -> Seq<char> {
    match given {
        Some(url) => url@,
        None => fallback,
    }
}

/// Whether `raw` is the row to insert for `create`, with `date` for its
/// creation date: no id, rank or score yet, stage 0, and the default logo and
/// banner where the payload has none.
pub open spec fn is_new_team_row(raw: RawTeam, create: CreateTeam, date: CalendarDate) -> bool {
    &&& raw.id == 0
    &&& raw.rank is None
    &&& raw.score == 0
    &&& raw.stage == 0
    &&& raw.name == create.name
    &&& raw.description == create.description
    &&& raw.location == create.location
    &&& raw.creation_date == date
    &&& raw.logo_url matches Some(url) && url@ == url_or(create.logo_url, DEFAULT_LOGO_URL@)
    &&& raw.banner_url matches Some(url) && url@ == url_or(create.banner_url, DEFAULT_BANNER_URL@)
}

impl Badge {
    /// The badge of row `raw_badge`, with its category in full.
    pub fn from(raw_badge: RawBadge, category: Category) -> (badge: Badge)
        ensures
            shows_badge(badge, raw_badge, category),
    {
        Badge {
            id: raw_badge.id,
            name: raw_badge.name,
            description: raw_badge.description,
            points: raw_badge.points,
            category,
        }
    }
}

impl OwnedBadge {
    /// The badge of row `raw_badge` as `badge_ownership` holds it.
    pub fn from(raw_badge: RawBadge, category: Category, badge_ownership: &BadgeOwnership) -> (owned:
        OwnedBadge)
        ensures
            shows_owned_badge(owned, raw_badge, category, *badge_ownership),
    {
        let badge = Badge::from(raw_badge, category);
        OwnedBadge {
            id: badge_ownership.id,
            acquisition_date: badge_ownership.acquisition_date.to_string(),
            badge,
        }
    }
}

impl Person {
    /// A person with nothing filled in.
    pub fn new() -> (person: Person)
        ensures
            person.id == 0,
            person.team_id == 0,
            person.name@.len() == 0,
            person.career@.len() == 0,
            person.graduation_date@.len() == 0,
            person.picture_url is None,
            person.portfolio_url is None,
    {
        Person {
            id: 0,
            team_id: 0,
            name: String::new(),
            career: String::new(),
            graduation_date: String::new(),
            picture_url: None,
            portfolio_url: None,
        }
    }

    /// The person of row `raw_person`.
    pub fn from(raw_person: &RawPerson) -> (person: Person)
        ensures
            shows_person(person, *raw_person),
    {
        let mut person = Person::new();
        person.id = raw_person.id;
        person.team_id = raw_person.team_id;
        person.name = raw_person.name.clone();
        person.career = raw_person.career.clone();
        person.graduation_date = raw_person.graduation_date.to_string();
        if let Some(picture_url) = &raw_person.picture_url {
            person.picture_url = Some(picture_url.clone());
        }
        if let Some(portfolio_url) = &raw_person.portfolio_url {
            person.portfolio_url = Some(portfolio_url.clone());
        }
        person
    }
}

impl RawTeam {
    /// The row to insert for `create_team`, once its creation date is read.
    pub fn with_date(create_team: CreateTeam, date: CalendarDate) -> (raw: RawTeam)
        ensures
            is_new_team_row(raw, create_team, date),
    {
        let logo_url = match create_team.logo_url {
            Some(url) => url,
            None => DEFAULT_LOGO_URL.to_owned(),
        };
        let banner_url = match create_team.banner_url {
            Some(url) => url,
            None => DEFAULT_BANNER_URL.to_owned(),
        };
        RawTeam {
            id: 0,
            rank: None,
            score: 0,
            stage: 0,
            name: create_team.name,
            logo_url: Some(logo_url),
            banner_url: Some(banner_url),
            description: create_team.description,
            creation_date: date,
            location: create_team.location,
        }
    }

    /// The row to insert for `create_team`. Fails exactly where its creation
    /// date is no date of the form `[year]-[month]-[day]`, with the text that
    /// was given.
    pub fn from(create_team: CreateTeam) -> (r: Result<RawTeam, EngineError>)
        ensures
            r is Ok <==> readable(create_team.creation_date@),
            r matches Ok(raw) ==> parsed_date(create_team.creation_date@) == Some(
                raw.creation_date.ymd(),
            ) && is_new_team_row(raw, create_team, raw.creation_date),
            r matches Err(e) ==> e == EngineError::InvalidDate(create_team.creation_date),
    {
        match CalendarDate::parse(create_team.creation_date.as_str()) {
            Some(date) => Ok(RawTeam::with_date(create_team, date)),
            None => Err(EngineError::InvalidDate(create_team.creation_date)),
        }
    }
}

impl Team {
    /// A team with nothing filled in.
    pub fn new() -> (team: Team)
        ensures
            team.id == 0,
            team.rank is None,
            team.score == 0,
            team.stage == 0,
            team.name@.len() == 0,
            team.logo_url is None,
            team.banner_url is None,
            team.description@.len() == 0,
            team.creation_date@.len() == 0,
            team.location@.len() == 0,
            team.labels@.len() == 0,
            team.persons@.len() == 0,
            team.badges@.len() == 0,
    {
        Team {
            id: 0,
            rank: None,
            score: 0,
            stage: 0,
            name: String::new(),
            logo_url: None,
            banner_url: None,
            description: String::new(),
            creation_date: String::new(),
            location: String::new(),
            labels: Vec::new(),
            persons: Vec::new(),
            badges: Vec::new(),
        }
    }

    /// The view of the team of row `raw_team`, whose labels, badges and
    /// persons were loaded.
    pub fn from(
        raw_team: RawTeam,
        labels: Vec<Label>,
        badges: Vec<OwnedBadge>,
        persons: Vec<Person>,
    ) -> (team: Team)
        ensures
            shows_team(team, raw_team, labels, badges, persons),
    {
        let mut team = Team::new();
        team.id = raw_team.id;
        team.rank = raw_team.rank;
        team.score = raw_team.score;
        team.stage = raw_team.stage;
        team.creation_date = raw_team.creation_date.to_string();
        team.name = raw_team.name;
        team.logo_url = raw_team.logo_url;
        team.banner_url = raw_team.banner_url;
        team.description = raw_team.description;
        team.location = raw_team.location;
        team.labels = labels;
        team.badges = badges;
        team.persons = persons;
        team
    }
}

} // verus!
