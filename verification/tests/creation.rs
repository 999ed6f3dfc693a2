use star_tec_backend::create::{
    add_badge, add_label, add_person, create_badge, create_category, create_label, create_team,
    insert_badge_ownership, insert_person, insert_team, remove_ownership, OwnershipKind,
};
use star_tec_backend::date::CalendarDate;
use star_tec_backend::error::EngineError;
use star_tec_backend::schema::{
    CreateBadge, CreateBadgeOwnership, CreateCategory, CreateLabel, CreateLabelOwnership,
    CreatePerson, CreateTeam, RawTeam, DEFAULT_BANNER_URL, DEFAULT_LOGO_URL,
};
use star_tec_backend::statement::{SqlValue, Statement};

fn text(s: &str) -> SqlValue {
    SqlValue::Text(String::from(s))
}

fn date(year: i32, month: u8, day: u8) -> CalendarDate {
    CalendarDate::new(year, month, day).unwrap()
}

fn team_payload() -> CreateTeam {
    CreateTeam {
        name: String::from("Rocket"),
        description: String::from("We build rockets"),
        location: String::from("Monterrey, Mexico"),
        creation_date: String::from("2023-02-21"),
        banner_url: None,
        logo_url: Some(String::from("https://x/logo.png")),
    }
}

fn person_payload() -> CreatePerson {
    CreatePerson {
        team_id: 4,
        name: String::from("Ana"),
        career: String::from("ITC"),
        graduation_date: String::from("2025-06-01"),
        picture_url: None,
        portfolio_url: Some(String::from("https://ana.dev")),
    }
}

#[test]
fn creating_a_team() {
    let creation = create_team(team_payload()).unwrap();
    assert_eq!(
        creation.insert.text,
        "INSERT INTO teams (score, stage, name, description, creation_date, location, logo_url, banner_url) VALUES ($1, $2, $3, $4, $5, $6, $7, $8)"
    );
    assert_eq!(
        creation.insert.params,
        vec![
            SqlValue::BigInt(0),
            SqlValue::Int(0),
            text("Rocket"),
            text("We build rockets"),
            SqlValue::Date(date(2023, 2, 21)),
            text("Monterrey, Mexico"),
            SqlValue::NullableText(Some(String::from("https://x/logo.png"))),
            SqlValue::NullableText(Some(String::from(DEFAULT_BANNER_URL))),
        ]
    );
    assert_eq!(
        creation.lookup,
        Statement { text: String::from("SELECT id FROM teams WHERE name = $1"), params: vec![text("Rocket")] }
    );
}

#[test]
fn creating_a_team_without_a_logo() {
    let mut payload = team_payload();
    payload.logo_url = None;
    let creation = create_team(payload).unwrap();
    assert_eq!(creation.insert.params[6], SqlValue::NullableText(Some(String::from(DEFAULT_LOGO_URL))));
}

#[test]
fn creating_a_team_with_an_unreadable_date() {
    let mut payload = team_payload();
    payload.creation_date = String::from("February 21st");
    assert_eq!(create_team(payload), Err(EngineError::InvalidDate(String::from("February 21st"))));
}

#[test]
fn inserting_a_team_row_as_it_is() {
    let raw = RawTeam {
        id: 0,
        rank: None,
        score: 12,
        stage: 3,
        name: String::from("Rocket"),
        logo_url: None,
        banner_url: None,
        description: String::from("d"),
        creation_date: date(2020, 2, 29),
        location: String::from("l"),
    };
    let creation = insert_team(&raw);
    assert_eq!(
        creation.insert.params,
        vec![
            SqlValue::BigInt(12),
            SqlValue::Int(3),
            text("Rocket"),
            text("d"),
            SqlValue::Date(date(2020, 2, 29)),
            text("l"),
            SqlValue::NullableText(None),
            SqlValue::NullableText(None),
        ]
    );
}

#[test]
fn creating_a_label() {
    let creation = create_label(&CreateLabel { name: String::from("Web") });
    assert_eq!(
        creation.insert,
        Statement { text: String::from("INSERT INTO labels (name) VALUES ($1)"), params: vec![text("Web")] }
    );
    assert_eq!(
        creation.lookup,
        Statement { text: String::from("SELECT id FROM labels WHERE name = $1"), params: vec![text("Web")] }
    );
}

#[test]
fn creating_a_category() {
    let creation = create_category(&CreateCategory { name: String::from("Talk") });
    assert_eq!(
        creation.insert,
        Statement {
            text: String::from("INSERT INTO badge_categories (name) VALUES ($1)"),
            params: vec![text("Talk")],
        }
    );
    assert_eq!(
        creation.lookup,
        Statement {
            text: String::from("SELECT id FROM badge_categories WHERE name = $1"),
            params: vec![text("Talk")],
        }
    );
}

#[test]
fn creating_a_badge() {
    let payload = CreateBadge {
        name: String::from("Keynote"),
        description: String::from("Gave the keynote"),
        points: 300,
        category: 2,
    };
    let creation = create_badge(&payload);
    assert_eq!(
        creation.insert,
        Statement {
            text: String::from("INSERT INTO badges (name, description, points, category) VALUES ($1, $2, $3, $4)"),
            params: vec![text("Keynote"), text("Gave the keynote"), SqlValue::BigInt(300), SqlValue::BigInt(2)],
        }
    );
    assert_eq!(
        creation.lookup,
        Statement { text: String::from("SELECT id FROM badges WHERE name = $1"), params: vec![text("Keynote")] }
    );
}

#[test]
fn adding_a_person() {
    let statement = add_person(&person_payload()).unwrap();
    assert_eq!(
        statement.text,
        "INSERT INTO persons (team_id, name, career, graduation_date, picture_url, portfolio_url) VALUES ($1, $2, $3, $4, $5, $6)"
    );
    assert_eq!(
        statement.params,
        vec![
            SqlValue::BigInt(4),
            text("Ana"),
            text("ITC"),
            SqlValue::Date(date(2025, 6, 1)),
            SqlValue::NullableText(None),
            SqlValue::NullableText(Some(String::from("https://ana.dev"))),
        ]
    );
    assert_eq!(insert_person(&person_payload(), date(2025, 6, 1)), statement);
}

#[test]
fn adding_a_person_with_an_unreadable_date() {
    let mut payload = person_payload();
    payload.graduation_date = String::from("2025-6-1");
    assert_eq!(add_person(&payload), Err(EngineError::InvalidDate(String::from("2025-6-1"))));
}

#[test]
fn giving_a_label_touches_no_score() {
    let change = add_label(&CreateLabelOwnership { team_id: 4, label_id: 6 });
    assert_eq!(
        change.statement,
        Statement {
            text: String::from("INSERT INTO label_ownerships (team_id, label_id) VALUES ($1, $2)"),
            params: vec![SqlValue::BigInt(4), SqlValue::BigInt(6)],
        }
    );
    assert_eq!(change.recompute, None);
}

#[test]
fn giving_a_badge_derives_the_score_of_that_team() {
    let payload = CreateBadgeOwnership { team_id: 4, badge_id: 6, acquisition_date: String::from("2023-05-01") };
    let change = add_badge(&payload).unwrap();
    assert_eq!(
        change.statement,
        Statement {
            text: String::from(
                "INSERT INTO badge_ownerships (team_id, badge_id, acquisition_date) VALUES ($1, $2, $3)"
            ),
            params: vec![SqlValue::BigInt(4), SqlValue::BigInt(6), SqlValue::Date(date(2023, 5, 1))],
        }
    );
    assert_eq!(change.recompute, Some(4));
    assert_eq!(insert_badge_ownership(&payload, date(2023, 5, 1)), change);
}

#[test]
fn giving_a_badge_with_an_unreadable_date() {
    let payload = CreateBadgeOwnership { team_id: 4, badge_id: 6, acquisition_date: String::from("soon") };
    assert_eq!(add_badge(&payload), Err(EngineError::InvalidDate(String::from("soon"))));
}

#[test]
fn the_two_kinds_of_ownership() {
    assert_eq!(OwnershipKind::parse("label"), Ok(OwnershipKind::Label));
    assert_eq!(OwnershipKind::parse("badge"), Ok(OwnershipKind::Badge));
    assert_eq!(OwnershipKind::parse("team"), Err(EngineError::UnknownOwnershipKind));
    assert_eq!(OwnershipKind::parse(""), Err(EngineError::UnknownOwnershipKind));
    assert_eq!(OwnershipKind::parse("Badge"), Err(EngineError::UnknownOwnershipKind));
}

#[test]
fn taking_a_label_away() {
    let change = remove_ownership(OwnershipKind::Label, 4, 6);
    assert_eq!(
        change.statement,
        Statement {
            text: String::from("DELETE FROM label_ownerships WHERE team_id = $1 AND label_id = $2"),
            params: vec![SqlValue::BigInt(4), SqlValue::BigInt(6)],
        }
    );
    assert_eq!(change.recompute, None);
}

#[test]
fn taking_a_badge_away_derives_the_score_of_the_team() {
    let change = remove_ownership(OwnershipKind::Badge, 4, 6);
    assert_eq!(
        change.statement,
        Statement {
            text: String::from("DELETE FROM badge_ownerships WHERE team_id = $1 AND badge_id = $2"),
            params: vec![SqlValue::BigInt(4), SqlValue::BigInt(6)],
        }
    );
    // the team, not the badge
    assert_eq!(change.recompute, Some(4));
}
