use star_tec_backend::date::CalendarDate;
use star_tec_backend::error::EngineError;
use star_tec_backend::schema::{
    Badge, BadgeOwnership, Category, CreateTeam, Label, OwnedBadge, Person, RawBadge, RawPerson,
    RawTeam, Team, DEFAULT_BANNER_URL, DEFAULT_LOGO_URL,
};

fn date(year: i32, month: u8, day: u8) -> CalendarDate {
    CalendarDate::new(year, month, day).unwrap()
}

fn raw_badge() -> RawBadge {
    RawBadge {
        id: 4,
        name: String::from("First talk"),
        description: String::from("Gave a talk"),
        points: 150,
        category: 9,
    }
}

fn category() -> Category {
    Category { id: 9, name: String::from("Talk") }
}

fn create_team() -> CreateTeam {
    CreateTeam {
        name: String::from("Rocket"),
        description: String::from("We build rockets"),
        location: String::from("Monterrey, Mexico"),
        creation_date: String::from("2023-02-21"),
        banner_url: None,
        logo_url: None,
    }
}

#[test]
fn a_new_team_is_empty() {
    let team = Team::new();
    assert_eq!(team.id, 0);
    assert_eq!(team.rank, None);
    assert_eq!(team.score, 0);
    assert_eq!(team.stage, 0);
    assert_eq!(team.name, "");
    assert_eq!(team.logo_url, None);
    assert_eq!(team.banner_url, None);
    assert_eq!(team.description, "");
    assert_eq!(team.creation_date, "");
    assert_eq!(team.location, "");
    assert!(team.labels.is_empty());
    assert!(team.persons.is_empty());
    assert!(team.badges.is_empty());
}

#[test]
fn a_new_person_is_empty() {
    let person = Person::new();
    assert_eq!(
        person,
        Person {
            id: 0,
            team_id: 0,
            name: String::new(),
            career: String::new(),
            graduation_date: String::new(),
            picture_url: None,
            portfolio_url: None,
        }
    );
}

#[test]
fn a_badge_takes_its_category_in_full() {
    let badge = Badge::from(raw_badge(), category());
    assert_eq!(
        badge,
        Badge {
            id: 4,
            name: String::from("First talk"),
            description: String::from("Gave a talk"),
            points: 150,
            category: Category { id: 9, name: String::from("Talk") },
        }
    );
}

#[test]
fn a_badge_may_have_negative_points() {
    let mut raw = raw_badge();
    raw.points = -40;
    assert_eq!(Badge::from(raw, category()).points, -40);
}

#[test]
fn an_owned_badge_carries_the_ownership() {
    let ownership = BadgeOwnership { id: 77, team_id: 1, badge_id: 4, acquisition_date: date(2023, 3, 5) };
    let owned = OwnedBadge::from(raw_badge(), category(), &ownership);
    assert_eq!(owned.id, 77);
    assert_eq!(owned.acquisition_date, "2023-03-05");
    assert_eq!(owned.badge, Badge::from(raw_badge(), category()));
}

#[test]
fn a_person_is_shown_with_the_date_as_text() {
    let raw = RawPerson {
        id: 3,
        team_id: 1,
        name: String::from("Ana"),
        career: String::from("ITC"),
        graduation_date: date(2025, 6, 1),
        picture_url: Some(String::from("https://x/ana.png")),
        portfolio_url: None,
    };
    assert_eq!(
        Person::from(&raw),
        Person {
            id: 3,
            team_id: 1,
            name: String::from("Ana"),
            career: String::from("ITC"),
            graduation_date: String::from("2025-06-01"),
            picture_url: Some(String::from("https://x/ana.png")),
            portfolio_url: None,
        }
    );
}

#[test]
fn a_person_without_urls_stays_without() {
    let raw = RawPerson {
        id: 3,
        team_id: 1,
        name: String::from("Ana"),
        career: String::from("ITC"),
        graduation_date: date(2025, 6, 1),
        picture_url: None,
        portfolio_url: Some(String::from("https://ana.dev")),
    };
    let person = Person::from(&raw);
    assert_eq!(person.picture_url, None);
    assert_eq!(person.portfolio_url, Some(String::from("https://ana.dev")));
}

#[test]
fn a_created_team_starts_without_score_and_rank() {
    let raw = RawTeam::from(create_team()).unwrap();
    assert_eq!(raw.id, 0);
    assert_eq!(raw.rank, None);
    assert_eq!(raw.score, 0);
    assert_eq!(raw.stage, 0);
    assert_eq!(raw.name, "Rocket");
    assert_eq!(raw.description, "We build rockets");
    assert_eq!(raw.location, "Monterrey, Mexico");
    assert_eq!(raw.creation_date, date(2023, 2, 21));
}

#[test]
fn a_created_team_gets_the_default_logo_and_banner() {
    let raw = RawTeam::from(create_team()).unwrap();
    assert_eq!(raw.logo_url, Some(String::from(DEFAULT_LOGO_URL)));
    assert_eq!(raw.banner_url, Some(String::from(DEFAULT_BANNER_URL)));
    assert_eq!(
        DEFAULT_BANNER_URL,
        "https://i.pinimg.com/originals/a9/97/51/a99751ac6e165b94030b86c62fa00294.jpg"
    );
    assert!(DEFAULT_LOGO_URL.starts_with("https://media.licdn.com/dms/image/"));
}

#[test]
fn a_created_team_keeps_the_urls_it_was_given() {
    let mut create = create_team();
    create.logo_url = Some(String::from("https://x/logo.png"));
    let raw = RawTeam::from(create).unwrap();
    assert_eq!(raw.logo_url, Some(String::from("https://x/logo.png")));
    assert_eq!(raw.banner_url, Some(String::from(DEFAULT_BANNER_URL)));

    let mut create = create_team();
    create.banner_url = Some(String::from("https://x/banner.png"));
    let raw = RawTeam::with_date(create, date(2023, 2, 21));
    assert_eq!(raw.logo_url, Some(String::from(DEFAULT_LOGO_URL)));
    assert_eq!(raw.banner_url, Some(String::from("https://x/banner.png")));
}

#[test]
fn a_team_with_an_unreadable_date_is_not_created() {
    let mut create = create_team();
    create.creation_date = String::from("21-02-2023");
    assert_eq!(RawTeam::from(create), Err(EngineError::InvalidDate(String::from("21-02-2023"))));
}

#[test]
fn a_team_view_copies_the_row_and_takes_the_children() {
    let raw = RawTeam {
        id: 12,
        rank: Some(3),
        score: 450,
        stage: 2,
        name: String::from("Rocket"),
        logo_url: None,
        banner_url: Some(String::from("https://x/banner.png")),
        description: String::from("We build rockets"),
        creation_date: date(2023, 2, 21),
        location: String::from("Monterrey, Mexico"),
    };
    let labels = vec![Label { id: 1, name: String::from("Web") }];
    let ownership = BadgeOwnership { id: 77, team_id: 12, badge_id: 4, acquisition_date: date(2023, 3, 5) };
    let badges = vec![OwnedBadge::from(raw_badge(), category(), &ownership)];
    let persons = vec![Person::new()];
    let team = Team::from(raw, labels.clone(), badges.clone(), persons.clone());
    assert_eq!(team.id, 12);
    assert_eq!(team.rank, Some(3));
    assert_eq!(team.score, 450);
    assert_eq!(team.stage, 2);
    assert_eq!(team.name, "Rocket");
    // no default is put in at load time
    assert_eq!(team.logo_url, None);
    assert_eq!(team.banner_url, Some(String::from("https://x/banner.png")));
    assert_eq!(team.description, "We build rockets");
    assert_eq!(team.creation_date, "2023-02-21");
    assert_eq!(team.location, "Monterrey, Mexico");
    assert_eq!(team.labels, labels);
    assert_eq!(team.badges, badges);
    assert_eq!(team.persons, persons);
}
