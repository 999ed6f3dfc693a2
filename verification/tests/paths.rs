use star_tec_backend::{
    Badge, Category, EditLabel, Label, Person, RawBadge, RawID, Team,
};

#[test]
fn the_records_are_reached_from_the_root() {
    let team = Team::new();
    assert_eq!(team, star_tec_backend::schema::Team::new());
    let person = Person::new();
    assert_eq!(person.id, 0);
    let label = Label { id: 1, name: String::from("Web") };
    assert_eq!(label, star_tec_backend::schema::Label { id: 1, name: String::from("Web") });
    let raw = RawBadge { id: 1, name: String::new(), description: String::new(), points: 5, category: 2 };
    let badge = Badge::from(raw, Category { id: 2, name: String::from("Talk") });
    assert_eq!(badge.category.id, 2);
    assert_eq!(RawID { id: 7 }.id, 7);
    assert_eq!(EditLabel { name: None }.query(), "UPDATE labels SE WHERE id = $1");
}
