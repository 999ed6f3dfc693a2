use star_tec_backend::date::CalendarDate;
use star_tec_backend::dispatch::{edit, settle, Edit, Kind};
use star_tec_backend::edit::{
    bind_change, bind_fields, decode_nullable, render_update, update_statement, Change, EditBadge,
    EditCategory, EditLabel, EditPerson, EditTeam, FieldEdit, Nullable,
};
use star_tec_backend::error::EngineError;
use star_tec_backend::statement::{Column, SqlValue, Table};

fn text(s: &str) -> Option<String> {
    Some(String::from(s))
}

fn no_team_edit() -> EditTeam {
    EditTeam {
        name: None,
        description: None,
        stage: None,
        creation_date: None,
        logo_url: None,
        banner_url: None,
        location: None,
    }
}

fn no_person_edit() -> EditPerson {
    EditPerson {
        name: None,
        team_id: None,
        career: None,
        graduation_date: None,
        picture_url: None,
        portfolio_url: None,
    }
}

#[test]
fn a_field_left_out_is_absent() {
    assert_eq!(decode_nullable(&None), Nullable::Absent);
}

#[test]
fn the_word_null_clears() {
    assert_eq!(decode_nullable(&text("null")), Nullable::ExplicitNull);
}

#[test]
fn any_other_text_is_a_value() {
    assert_eq!(decode_nullable(&text("https://x")), Nullable::Value(String::from("https://x")));
    assert_eq!(decode_nullable(&text("")), Nullable::Value(String::new()));
    assert_eq!(decode_nullable(&text("NULL")), Nullable::Value(String::from("NULL")));
    assert_eq!(decode_nullable(&text("null ")), Nullable::Value(String::from("null ")));
}

#[test]
fn editing_the_name_changes_only_the_name() {
    let mut payload = no_team_edit();
    payload.name = text("Foo");
    assert_eq!(
        payload.fields(),
        vec![FieldEdit { column: Column::Name, change: Change::Text(String::from("Foo")) }]
    );
    let statement = edit(12, &Edit::Team(payload.clone())).unwrap();
    assert_eq!(statement.text, "UPDATE teams SET name = $2 WHERE id = $1");
    assert_eq!(statement.params, vec![SqlValue::BigInt(12), SqlValue::Text(String::from("Foo"))]);
    assert_eq!(payload.query(), "UPDATE teams SET name = $2 WHERE id = $1");
}

#[test]
fn the_word_null_clears_the_logo() {
    let mut payload = no_team_edit();
    payload.logo_url = text("null");
    assert_eq!(payload.fields(), vec![FieldEdit { column: Column::LogoUrl, change: Change::Clear }]);
    let statement = edit(12, &Edit::Team(payload)).unwrap();
    assert_eq!(statement.text, "UPDATE teams SET logo_url = null WHERE id = $1");
    assert_eq!(statement.params, vec![SqlValue::BigInt(12)]);
}

#[test]
fn any_other_text_sets_the_logo() {
    let mut payload = no_team_edit();
    payload.logo_url = text("https://x");
    let statement = edit(12, &Edit::Team(payload)).unwrap();
    assert_eq!(statement.text, "UPDATE teams SET logo_url = $2 WHERE id = $1");
    assert_eq!(statement.params, vec![SqlValue::BigInt(12), SqlValue::Text(String::from("https://x"))]);
}

#[test]
fn a_logo_left_out_is_not_touched() {
    let mut payload = no_team_edit();
    payload.description = text("New words");
    let fields = payload.fields();
    assert!(fields.iter().all(|f| f.column != Column::LogoUrl && f.column != Column::BannerUrl));
    let statement = edit(12, &Edit::Team(payload)).unwrap();
    assert_eq!(statement.text, "UPDATE teams SET description = $2 WHERE id = $1");
}

#[test]
fn all_fields_of_a_team_in_order() {
    let payload = EditTeam {
        name: text("Foo"),
        description: text("Bar"),
        stage: Some(3),
        creation_date: text("2024-01-31"),
        logo_url: text("https://x/logo"),
        banner_url: text("https://x/banner"),
        location: text("Monterrey"),
    };
    let statement = edit(4, &Edit::Team(payload.clone())).unwrap();
    assert_eq!(
        statement.text,
        "UPDATE teams SET name = $2, description = $3, stage = $4, creation_date = $5, location = $6, logo_url = $7, banner_url = $8 WHERE id = $1"
    );
    assert_eq!(
        statement.params,
        vec![
            SqlValue::BigInt(4),
            SqlValue::Text(String::from("Foo")),
            SqlValue::Text(String::from("Bar")),
            SqlValue::Int(3),
            SqlValue::Date(CalendarDate::new(2024, 1, 31).unwrap()),
            SqlValue::Text(String::from("Monterrey")),
            SqlValue::Text(String::from("https://x/logo")),
            SqlValue::Text(String::from("https://x/banner")),
        ]
    );
    assert_eq!(payload.query(), statement.text);
}

#[test]
fn a_cleared_column_takes_no_parameter_number() {
    let mut payload = no_team_edit();
    payload.name = text("Foo");
    payload.logo_url = text("null");
    payload.banner_url = text("https://x/banner");
    let statement = edit(4, &Edit::Team(payload)).unwrap();
    assert_eq!(
        statement.text,
        "UPDATE teams SET name = $2, logo_url = null, banner_url = $3 WHERE id = $1"
    );
    assert_eq!(
        statement.params,
        vec![
            SqlValue::BigInt(4),
            SqlValue::Text(String::from("Foo")),
            SqlValue::Text(String::from("https://x/banner")),
        ]
    );
}

#[test]
fn every_value_has_its_parameter() {
    let payload = EditTeam {
        name: text("Foo"),
        description: None,
        stage: Some(1),
        creation_date: None,
        logo_url: text("null"),
        banner_url: text("null"),
        location: text("Here"),
    };
    let statement = edit(4, &Edit::Team(payload)).unwrap();
    let placeholders = statement.text.matches('$').count();
    assert_eq!(placeholders, statement.params.len());
    assert_eq!(statement.params.len(), 4);
}

#[test]
fn a_value_is_never_written_into_the_text() {
    let mut payload = no_team_edit();
    payload.name = text("x' WHERE 1 = 1; --");
    let statement = edit(4, &Edit::Team(payload)).unwrap();
    assert_eq!(statement.text, "UPDATE teams SET name = $2 WHERE id = $1");
}

#[test]
fn a_payload_without_fields_makes_a_statement_that_no_store_accepts() {
    assert_eq!(no_team_edit().query(), "UPDATE teams SE WHERE id = $1");
    assert_eq!(EditLabel { name: None }.query(), "UPDATE labels SE WHERE id = $1");
    assert_eq!(
        EditBadge { name: None, description: None, points: None, category: None }.query(),
        "UPDATE badges SE WHERE id = $1"
    );
    assert_eq!(EditCategory { name: None }.query(), "UPDATE badge_categories SE WHERE id = $1");
    assert_eq!(no_person_edit().query(), "UPDATE persons SE WHERE id = $1");
    let statement = edit(1, &Edit::Label(EditLabel { name: None })).unwrap();
    assert_eq!(statement.params, vec![SqlValue::BigInt(1)]);
}

#[test]
fn editing_a_label() {
    let payload = EditLabel { name: text("Fintech") };
    assert_eq!(payload.clone().query(), "UPDATE labels SET name = $2 WHERE id = $1");
    let statement = edit(3, &Edit::Label(payload)).unwrap();
    assert_eq!(statement.params, vec![SqlValue::BigInt(3), SqlValue::Text(String::from("Fintech"))]);
}

#[test]
fn editing_a_category() {
    let payload = EditCategory { name: text("Talk") };
    assert_eq!(payload.clone().query(), "UPDATE badge_categories SET name = $2 WHERE id = $1");
    let statement = edit(3, &Edit::Category(payload)).unwrap();
    assert_eq!(statement.params, vec![SqlValue::BigInt(3), SqlValue::Text(String::from("Talk"))]);
}

#[test]
fn editing_a_badge() {
    let payload = EditBadge { name: text("Pitch"), description: text("Won"), points: Some(-20), category: Some(9) };
    let statement = edit(3, &Edit::Badge(payload.clone())).unwrap();
    assert_eq!(
        statement.text,
        "UPDATE badges SET name = $2, description = $3, points = $4, category = $5 WHERE id = $1"
    );
    assert_eq!(
        statement.params,
        vec![
            SqlValue::BigInt(3),
            SqlValue::Text(String::from("Pitch")),
            SqlValue::Text(String::from("Won")),
            SqlValue::BigInt(-20),
            SqlValue::BigInt(9),
        ]
    );
    assert_eq!(payload.query(), statement.text);
    let only_points = EditBadge { name: None, description: None, points: Some(5), category: None };
    assert_eq!(only_points.query(), "UPDATE badges SET points = $2 WHERE id = $1");
}

#[test]
fn editing_a_person() {
    let payload = EditPerson {
        name: text("Ana"),
        team_id: Some(2),
        career: text("ITC"),
        graduation_date: text("2025-06-01"),
        picture_url: text("null"),
        portfolio_url: text("https://ana.dev"),
    };
    let statement = edit(8, &Edit::Person(payload.clone())).unwrap();
    assert_eq!(
        statement.text,
        "UPDATE persons SET name = $2, team_id = $3, career = $4, graduation_date = $5, picture_url = null, portfolio_url = $6 WHERE id = $1"
    );
    assert_eq!(
        statement.params,
        vec![
            SqlValue::BigInt(8),
            SqlValue::Text(String::from("Ana")),
            SqlValue::BigInt(2),
            SqlValue::Text(String::from("ITC")),
            SqlValue::Date(CalendarDate::new(2025, 6, 1).unwrap()),
            SqlValue::Text(String::from("https://ana.dev")),
        ]
    );
    assert_eq!(payload.query(), statement.text);
}

#[test]
fn an_unreadable_date_is_refused_before_the_store_sees_anything() {
    let mut payload = no_team_edit();
    payload.name = text("Foo");
    payload.creation_date = text("31/01/2024");
    assert_eq!(
        edit(4, &Edit::Team(payload)),
        Err(EngineError::InvalidDate(String::from("31/01/2024")))
    );
    let mut payload = no_person_edit();
    payload.graduation_date = text("2025-02-30");
    assert_eq!(
        edit(4, &Edit::Person(payload)),
        Err(EngineError::InvalidDate(String::from("2025-02-30")))
    );
}

#[test]
fn the_first_unreadable_date_is_the_one_reported() {
    let fields = vec![
        FieldEdit { column: Column::CreationDate, change: Change::Date(String::from("2024-01-01")) },
        FieldEdit { column: Column::CreationDate, change: Change::Date(String::from("first")) },
        FieldEdit { column: Column::GraduationDate, change: Change::Date(String::from("second")) },
    ];
    assert_eq!(bind_fields(1, &fields), Err(EngineError::InvalidDate(String::from("first"))));
    assert_eq!(
        update_statement(Table::Teams, 1, &fields),
        Err(EngineError::InvalidDate(String::from("first")))
    );
}

#[test]
fn binding_a_change() {
    let date = CalendarDate::new(2024, 1, 31);
    assert_eq!(bind_change(&Change::Text(String::from("a")), None), Some(SqlValue::Text(String::from("a"))));
    assert_eq!(bind_change(&Change::Int(3), None), Some(SqlValue::Int(3)));
    assert_eq!(bind_change(&Change::BigInt(3), date), Some(SqlValue::BigInt(3)));
    assert_eq!(
        bind_change(&Change::Date(String::from("2024-01-31")), date),
        Some(SqlValue::Date(date.unwrap()))
    );
    assert_eq!(bind_change(&Change::Date(String::from("nope")), None), None);
    assert_eq!(bind_change(&Change::Clear, date), None);
}

#[test]
fn parameters_are_numbered_in_decimal() {
    let mut fields = Vec::new();
    for _ in 0..10 {
        fields.push(FieldEdit { column: Column::Name, change: Change::Int(0) });
    }
    let text = render_update(Table::Labels, &fields);
    assert!(text.starts_with("UPDATE labels SET name = $2, name = $3, "));
    assert!(text.ends_with("name = $9, name = $10, name = $11 WHERE id = $1"));
}

#[test]
fn the_payload_decides_the_table() {
    assert_eq!(Edit::Label(EditLabel { name: None }).kind(), Kind::Label);
    assert_eq!(Edit::Category(EditCategory { name: None }).kind(), Kind::Category);
    assert_eq!(Edit::Team(no_team_edit()).kind(), Kind::Team);
    assert_eq!(Edit::Person(no_person_edit()).kind(), Kind::Person);
    assert_eq!(
        Edit::Badge(EditBadge { name: None, description: None, points: None, category: None }).kind(),
        Kind::Badge
    );
}

#[test]
fn the_stores_complaint_about_an_edit_is_a_database_failure() {
    assert_eq!(settle(Ok(())), Ok(()));
    assert_eq!(
        settle(Err(String::from("syntax error at or near \"WHERE\""))),
        Err(EngineError::Database(String::from("syntax error at or near \"WHERE\"")))
    );
}
