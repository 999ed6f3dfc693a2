//! A filled-in sample: one team and one badge with every field set, for a
//! caller that wants something to show before any row exists.

use vstd::prelude::*;
use crate::schema::{DEFAULT_BANNER_URL, DEFAULT_LOGO_URL};

verus! {

/// The description of the sample team.
pub const SAMPLE_DESCRIPTION: &'static str =
    " Lorem ipsum dolor sit amet, consectetur adipiscing elit. Aliquam in aliquet orci. Mauris vel aliquet quam. Nunc orci orci, fermentum a quam ut, laoreet egestas eros. Lorem ipsum dolor sit amet, consectetur adipiscing elit. Phasellus vestibulum commodo eros at consequat. Nam quis cursus massa. Sed commodo euismod odio, vel egestas massa congue a. Aliquam erat volutpat.\n\nEtiam tincidunt risus quis arcu ullamcorper feugiat. Nullam consequat imperdiet sapien, et accumsan elit tincidunt malesuada. Quisque interdum risus lectus, eget rhoncus ipsum feugiat at. Phasellus mi lacus, dapibus id nisl ac, tristique sodales diam. Praesent convallis condimentum lobortis. Aenean scelerisque scelerisque augue, ut bibendum eros posuere nec. Ut porta, nisi at ullamcorper tempus, erat purus ultrices est, in placerat nibh quam vitae neque. Ut tincidunt dolor quis pharetra imperdiet. Etiam euismod tristique libero non consectetur. Aenean vehicula est in urna dignissim scelerisque. Suspendisse at tincidunt tortor. Nunc dapibus, nibh vel maximus egestas, nibh lacus euismod sapien, tincidunt faucibus ipsum nisl vel massa. Orci varius natoque penatibus et magnis dis parturient montes, nascetur ridiculus mus. Maecenas malesuada quam ac dapibus accumsan. Ut mattis pretium nisi, non molestie sapien placerat eget.";

/// The fields in which a sample team can work.
#[derive(Debug, Clone, Copy, PartialEq, Eq, Structural)]
pub enum Label {
    Web,
    Edtec,
    Web3,
    Videogame,
    Fintech,
    Logistics,
    Marketplace,
    SAAS,
    Hardware,
    IoT,
}

/// The categories of a sample badge.
#[derive(Debug, Clone, Copy, PartialEq, Eq, Structural)]
pub enum BadgeCategory {
    Talk,
    Beginner,
    Advanced,
    NotAssigned,
}

/// A sample badge.
#[derive(Debug, Clone, PartialEq, Eq)]
pub struct Badge {
    pub id: String,
    pub name: String,
    pub category: BadgeCategory,
    pub description: String,
    pub points: usize,
}

/// What is known of a badge that a sample team earned.
#[derive(Debug, Clone, PartialEq, Eq)]
pub enum BadgeInfo {
    /// The badge itself.
    Not(Badge),
    /// Only its id.
    Id(String),
    /// Why it could not be told.
    Error(String),
    /// No badge yet.
    NotAssigned,
}

/// A badge that a sample team earned, and when.
#[derive(Debug, Clone, PartialEq, Eq)]
pub struct EarnedBadge {
    pub badge: BadgeInfo,
    pub acquisition_date: String,
}

/// A member of a sample team.
#[derive(Debug, Clone, PartialEq, Eq)]
pub struct Person {
    pub id: String,
    pub name: String,
    pub career: String,
    pub graduation_date: String,
    pub portfolio_url: String,
    pub picture_url: String,
}

/// A sample team.
#[derive(Debug, Clone, PartialEq, Eq)]
pub struct Team {
    pub id: String,
    pub rank: usize,
    pub score: usize,
    pub stage: usize,
    pub name: String,
    pub logo_url: String,
    pub team: Vec<Person>,
    pub description: String,
    pub creation_date: String,
    pub banner_url: String,
    pub labels: Vec<Label>,
    pub badges: Vec<EarnedBadge>,
    pub location: String,
}

/// Whether `earned` is the earned badge with no badge assigned.
pub open spec fn is_unassigned(earned: EarnedBadge) -> bool {
    earned.badge is NotAssigned && earned.acquisition_date@ == "00-00-2000"@
}

impl Badge {
    /// The sample badge: worth 100 points, in no category yet.
    pub fn new() -> (badge: Badge)
        ensures
            badge.id@ == "0x000"@,
            badge.name@ == "Badge"@,
            badge.category == BadgeCategory::NotAssigned,
            badge.description@ == "Pending description"@,
            badge.points == 100,
    {
        Badge {
            id: String::from_str("0x000"),
            name: String::from_str("Badge"),
            category: BadgeCategory::NotAssigned,
            description: String::from_str("Pending description"),
            points: 100,
        }
    }
}

impl EarnedBadge {
    /// An earned badge with no badge assigned.
    pub fn new() -> (earned: EarnedBadge)
        ensures
            is_unassigned(earned),
    {
        EarnedBadge {
            badge: BadgeInfo::NotAssigned,
            acquisition_date: String::from_str("00-00-2000"),
        }
    }

    /// An earned badge of which only the id is known.
    pub fn id(id: &str) -> (earned: EarnedBadge)
        ensures
            earned.badge matches BadgeInfo::Id(known) && known@ == id@,
            earned.acquisition_date@ == "00-00-2000"@,
    {
        EarnedBadge {
            badge: BadgeInfo::Id(String::from_str(id)),
            acquisition_date: String::from_str("00-00-2000"),
        }
    }
}

impl Team {
    /// The sample team: a startup from Monterrey at stage 1 with a score of
    /// 800, two labels, two badges not yet assigned and no members.
    pub fn new() -> (team: Team)
        ensures
            team.id@ == "0x0000"@,
            team.rank == 0,
            team.score == 800,
            team.stage == 1,
            team.name@ == "Startup"@,
            team.logo_url@ == DEFAULT_LOGO_URL@,
            team.team@.len() == 0,
            team.description@ == SAMPLE_DESCRIPTION@,
            team.creation_date@ == "21-02-2023"@,
            team.banner_url@ == DEFAULT_BANNER_URL@,
            team.labels@ == seq![Label::Web3, Label::Videogame],
            team.badges@.len() == 2,
            is_unassigned(team.badges@[0]),
            is_unassigned(team.badges@[1]),
            team.location@ == "Monterrey, Mexico"@,
    {
        let mut labels: Vec<Label> = Vec::new();
        labels.push(Label::Web3);
        labels.push(Label::Videogame);
        assert(labels@ =~= seq![Label::Web3, Label::Videogame]);
        let mut badges: Vec<EarnedBadge> = Vec::new();
        badges.push(EarnedBadge::new());
        badges.push(EarnedBadge::new());
        Team {
            id: String::from_str("0x0000"),
            rank: 0,
            score: 800,
            stage: 1,
            name: String::from_str("Startup"),
            logo_url: String::from_str(DEFAULT_LOGO_URL),
            team: Vec::new(),
            description: String::from_str(SAMPLE_DESCRIPTION),
            creation_date: String::from_str("21-02-2023"),
            banner_url: String::from_str(DEFAULT_BANNER_URL),
            labels,
            badges,
            location: String::from_str("Monterrey, Mexico"),
        }
    }
}

} // verus!
