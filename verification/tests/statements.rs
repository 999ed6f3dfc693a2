use star_tec_backend::statement::{
    delete_any, delete_pair, delete_where, select_all, select_any, select_ids, select_ids_where,
    select_where, Column, SqlValue, Statement, Table,
};

fn statement(text: &str, params: Vec<SqlValue>) -> Statement {
    Statement { text: String::from(text), params }
}

#[test]
fn the_seven_tables_have_their_names() {
    assert_eq!(Table::Teams.name(), "teams");
    assert_eq!(Table::Persons.name(), "persons");
    assert_eq!(Table::Labels.name(), "labels");
    assert_eq!(Table::LabelOwnerships.name(), "label_ownerships");
    assert_eq!(Table::Categories.name(), "badge_categories");
    assert_eq!(Table::Badges.name(), "badges");
    assert_eq!(Table::BadgeOwnerships.name(), "badge_ownerships");
}

#[test]
fn the_columns_have_their_names() {
    let named = [
        (Column::Id, "id"),
        (Column::Name, "name"),
        (Column::TeamId, "team_id"),
        (Column::LabelId, "label_id"),
        (Column::BadgeId, "badge_id"),
        (Column::Category, "category"),
        (Column::Description, "description"),
        (Column::Stage, "stage"),
        (Column::CreationDate, "creation_date"),
        (Column::Location, "location"),
        (Column::LogoUrl, "logo_url"),
        (Column::BannerUrl, "banner_url"),
        (Column::Points, "points"),
        (Column::Career, "career"),
        (Column::GraduationDate, "graduation_date"),
        (Column::PictureUrl, "picture_url"),
        (Column::PortfolioUrl, "portfolio_url"),
        (Column::Score, "score"),
        (Column::Rank, "rank"),
    ];
    for (column, name) in named.iter() {
        assert_eq!(column.name(), *name);
    }
}

#[test]
fn select_all_rows() {
    assert_eq!(select_all(Table::Teams), statement("SELECT * FROM teams", vec![]));
    assert_eq!(select_all(Table::Labels), statement("SELECT * FROM labels", vec![]));
    assert_eq!(select_all(Table::Badges), statement("SELECT * FROM badges", vec![]));
    assert_eq!(select_all(Table::Categories), statement("SELECT * FROM badge_categories", vec![]));
}

#[test]
fn select_rows_by_a_column() {
    assert_eq!(
        select_where(Table::Teams, Column::Id, 5),
        statement("SELECT * FROM teams WHERE id = $1", vec![SqlValue::BigInt(5)])
    );
    assert_eq!(
        select_where(Table::Persons, Column::TeamId, -1),
        statement("SELECT * FROM persons WHERE team_id = $1", vec![SqlValue::BigInt(-1)])
    );
}

#[test]
fn select_rows_by_a_set_of_ids() {
    assert_eq!(
        select_any(Table::Labels, Column::Id, vec![3, 1, 2]),
        statement("SELECT * FROM labels WHERE id = ANY($1)", vec![SqlValue::BigIntList(vec![3, 1, 2])])
    );
}

#[test]
fn select_ids_of_rows() {
    assert_eq!(select_ids(Table::Teams), statement("SELECT id FROM teams", vec![]));
    assert_eq!(
        select_ids_where(Table::Badges, Column::Category, SqlValue::BigInt(9)),
        statement("SELECT id FROM badges WHERE category = $1", vec![SqlValue::BigInt(9)])
    );
    assert_eq!(
        select_ids_where(Table::Teams, Column::Name, SqlValue::Text(String::from("Rocket"))),
        statement("SELECT id FROM teams WHERE name = $1", vec![SqlValue::Text(String::from("Rocket"))])
    );
}

#[test]
fn delete_rows_by_a_column() {
    assert_eq!(
        delete_where(Table::Labels, Column::Id, 8),
        statement("DELETE FROM labels WHERE id = $1", vec![SqlValue::BigInt(8)])
    );
    assert_eq!(
        delete_where(Table::BadgeOwnerships, Column::BadgeId, 8),
        statement("DELETE FROM badge_ownerships WHERE badge_id = $1", vec![SqlValue::BigInt(8)])
    );
}

#[test]
fn delete_rows_by_a_set_of_ids() {
    assert_eq!(
        delete_any(Table::BadgeOwnerships, Column::BadgeId, vec![4, 5]),
        statement(
            "DELETE FROM badge_ownerships WHERE badge_id = ANY($1)",
            vec![SqlValue::BigIntList(vec![4, 5])]
        )
    );
    assert_eq!(
        delete_any(Table::BadgeOwnerships, Column::BadgeId, vec![]),
        statement(
            "DELETE FROM badge_ownerships WHERE badge_id = ANY($1)",
            vec![SqlValue::BigIntList(vec![])]
        )
    );
}

#[test]
fn delete_the_rows_of_one_team() {
    assert_eq!(
        delete_pair(Table::LabelOwnerships, Column::LabelId, 1, 2),
        statement(
            "DELETE FROM label_ownerships WHERE team_id = $1 AND label_id = $2",
            vec![SqlValue::BigInt(1), SqlValue::BigInt(2)]
        )
    );
}

#[test]
fn what_a_caller_supplies_is_bound_not_written_into_the_text() {
    let hostile = String::from("x'; DROP TABLE teams; --");
    let lookup = select_ids_where(Table::Teams, Column::Name, SqlValue::Text(hostile.clone()));
    assert_eq!(lookup.text, "SELECT id FROM teams WHERE name = $1");
    assert_eq!(lookup.params, vec![SqlValue::Text(hostile)]);
}
