use star_tec_backend::past::{Badge, BadgeCategory, BadgeInfo, EarnedBadge, Label, Team, SAMPLE_DESCRIPTION};
use star_tec_backend::schema::{DEFAULT_BANNER_URL, DEFAULT_LOGO_URL};

#[test]
fn the_sample_badge() {
    let badge = Badge::new();
    assert_eq!(badge.id, "0x000");
    assert_eq!(badge.name, "Badge");
    assert_eq!(badge.category, BadgeCategory::NotAssigned);
    assert_eq!(badge.description, "Pending description");
    assert_eq!(badge.points, 100);
}

#[test]
fn an_earned_badge_starts_unassigned() {
    let earned = EarnedBadge::new();
    assert_eq!(earned.badge, BadgeInfo::NotAssigned);
    assert_eq!(earned.acquisition_date, "00-00-2000");
}

#[test]
fn an_earned_badge_known_by_its_id() {
    let earned = EarnedBadge::id("0x1f");
    assert_eq!(earned.badge, BadgeInfo::Id(String::from("0x1f")));
    assert_eq!(earned.acquisition_date, "00-00-2000");
}

#[test]
fn the_sample_team() {
    let team = Team::new();
    assert_eq!(team.id, "0x0000");
    assert_eq!(team.rank, 0);
    assert_eq!(team.score, 800);
    assert_eq!(team.stage, 1);
    assert_eq!(team.name, "Startup");
    assert_eq!(team.logo_url, DEFAULT_LOGO_URL);
    assert!(team.team.is_empty());
    assert_eq!(team.description, SAMPLE_DESCRIPTION);
    assert_eq!(team.creation_date, "21-02-2023");
    assert_eq!(team.banner_url, DEFAULT_BANNER_URL);
    assert_eq!(team.labels, vec![Label::Web3, Label::Videogame]);
    assert_eq!(team.badges, vec![EarnedBadge::new(), EarnedBadge::new()]);
    assert_eq!(team.location, "Monterrey, Mexico");
}

#[test]
fn the_sample_description_is_two_paragraphs() {
    assert!(SAMPLE_DESCRIPTION.starts_with(" Lorem ipsum dolor sit amet"));
    assert!(SAMPLE_DESCRIPTION.ends_with("non molestie sapien placerat eget."));
    assert_eq!(SAMPLE_DESCRIPTION.len(), 1306);
    assert_eq!(SAMPLE_DESCRIPTION.matches("\n\n").count(), 1);
}
