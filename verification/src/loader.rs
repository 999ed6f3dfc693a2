//! Loading the full view of a team. Beside its own row a team has three
//! kinds of children, and each is loaded on its own: the labels it owns, the
//! badges it owns, and its persons. The three loads do not depend on one
//! another, so a caller may run them side by side; the view is put together
//! when all three are done, and there is no view if any of them failed.
//!
//! Each load is a chain of steps. A step says which statement to send; the
//! rows that came back, or the store's complaint, go into the next step.

use vstd::prelude::*;
use crate::error::EngineError;
use crate::schema::{
    shown, shows_owned_badge, shows_person, shows_team, BadgeOwnership, Category, Label, LabelOwnership,
    OwnedBadge, Person, RawBadge, RawPerson, RawTeam, Team,
};
use crate::statement::{
    is_statement, select_all, select_all_text, select_any, select_any_text, select_where,
    select_where_text, Column, SqlValue, Statement, Table,
};

verus! {

/// What a lookup of one row by its id gave.
#[derive(Debug, Clone, PartialEq, Eq)]
pub enum Fetched<T> {
    /// The row.
    Row(T),
    /// No row has this id.
    Missing,
    /// The store failed; its own words are kept.
    Failed(String),
}

/// The label ids that `rows` refer to, in the order of the rows.
pub open spec fn label_ids(rows: Seq<LabelOwnership>) -> Seq<i64> {
    Seq::new(rows.len(), |i: int| rows[i].label_id)
}

/// What loading the labels of a team does next.
#[derive(Debug, Clone, PartialEq, Eq)]
pub enum LabelsStep {
    /// Fetch these labels, all in one statement.
    Fetch(Statement),
    /// The team owns no label: nothing more to fetch.
    Done(Vec<Label>),
    /// The load failed, and with it the whole view.
    Failed(EngineError),
}

/// What loading the badges of a team does next.
#[derive(Debug, PartialEq, Eq)]
pub enum BadgesStep {
    /// Fetch this badge row, then resume with it.
    FetchBadge(Statement, AwaitingBadge),
    /// Fetch this category row, then resume with it.
    FetchCategory(Statement, AwaitingCategory),
    /// All badges are loaded, in the order of the ownership rows.
    Done(Vec<OwnedBadge>),
    /// The load failed, and with it the whole view.
    Failed(EngineError),
}

/// A badge load that waits for the badge row of its next ownership.
#[derive(Debug, PartialEq, Eq)]
pub struct AwaitingBadge {
    ownerships: Vec<BadgeOwnership>,
    loaded: Vec<OwnedBadge>,
}

/// A badge load that waits for the category row of the badge it just got.
#[derive(Debug, PartialEq, Eq)]
pub struct AwaitingCategory {
    ownerships: Vec<BadgeOwnership>,
    loaded: Vec<OwnedBadge>,
    badge: RawBadge,
}

/// Whether `badges` are badges of the first ownership rows of `rows`, one for
/// each and in the same order: each carries the id and the acquisition date
/// of its row.
pub open spec fn follows(badges: Seq<OwnedBadge>, rows: Seq<BadgeOwnership>) -> bool {
    &&& badges.len() <= rows.len()
    &&& forall|i: int|
        0 <= i < badges.len() ==> (#[trigger] badges[i]).id == rows[i].id
            && badges[i].acquisition_date@ == shown(rows[i].acquisition_date)
}

/// Whether `statement` fetches the row of `table` with the given id.
pub open spec fn fetches_row(statement: Statement, table: Table, id: i64) -> bool {
    is_statement(statement, select_where_text(table, Column::Id), seq![SqlValue::BigInt(id)])
}

/// Whether `statement` fetches the rows of `table` that belong to the team.
pub open spec fn fetches_of_team(statement: Statement, table: Table, team_id: i64) -> bool {
    is_statement(
        statement,
        select_where_text(table, Column::TeamId),
        seq![SqlValue::BigInt(team_id)],
    )
}

/// Whether `statement` fetches the labels with the given ids, in one go.
pub open spec fn fetches_labels(statement: Statement, ids: Seq<i64>) -> bool {
    &&& statement.text@ == select_any_text(Table::Labels, Column::Id)
    &&& statement.params@.len() == 1
    &&& statement.params@[0] matches SqlValue::BigIntList(list) && list@ == ids
}

impl AwaitingBadge {
    /// Not every ownership row has its badge yet, and the badges that are
    /// loaded are those of the first rows.
    #[verifier::type_invariant]
    spec fn valid(self) -> bool {
        self.loaded.len() < self.ownerships.len() && follows(self.loaded@, self.ownerships@)
    }

    /// The ownership rows of the team, as they were fetched.
    pub closed spec fn ownerships(self) -> Seq<BadgeOwnership> {
        self.ownerships@
    }

    /// The badges loaded so far: those of the first ownership rows.
    pub closed spec fn loaded(self) -> Seq<OwnedBadge> {
        self.loaded@
    }

    /// Goes on with the badge row that was fetched: its category is fetched
    /// next. A failed fetch fails the load.
    pub fn resume(self, fetched: Result<RawBadge, String>) -> (step: BadgesStep)
        ensures
            match fetched {
                Ok(badge) => step matches BadgesStep::FetchCategory(statement, next)
                    && fetches_row(statement, Table::Categories, badge.category)
                    && next.ownerships() == self.ownerships()
                    && next.loaded() == self.loaded()
                    && next.badge() == badge,
                Err(complaint) => step == BadgesStep::Failed(EngineError::Database(complaint)),
            },
    {
        proof {
            use_type_invariant(&self);
        }
        match fetched {
            Ok(badge) => {
                let statement = select_where(Table::Categories, Column::Id, badge.category);
                BadgesStep::FetchCategory(
                    statement,
                    AwaitingCategory { ownerships: self.ownerships, loaded: self.loaded, badge },
                )
            },
            Err(complaint) => BadgesStep::Failed(EngineError::Database(complaint)),
        }
    }
}

impl AwaitingCategory {
    /// Not every ownership row has its badge yet, and the badges that are
    /// loaded are those of the first rows.
    #[verifier::type_invariant]
    spec fn valid(self) -> bool {
        self.loaded.len() < self.ownerships.len() && follows(self.loaded@, self.ownerships@)
    }

    /// The ownership rows of the team, as they were fetched.
    pub closed spec fn ownerships(self) -> Seq<BadgeOwnership> {
        self.ownerships@
    }

    /// The badges loaded so far: those of the first ownership rows.
    pub closed spec fn loaded(self) -> Seq<OwnedBadge> {
        self.loaded@
    }

    /// The badge row whose category is awaited.
    pub closed spec fn badge(self) -> RawBadge {
        self.badge
    }

    /// Goes on with the category row that was fetched: the badge is complete
    /// and joins the loaded ones; then the badge of the next ownership row is
    /// fetched, or the load is done. A failed fetch fails the load.
    pub fn resume(self, fetched: Result<Category, String>) -> (step: BadgesStep)
        ensures
            self.loaded().len() < self.ownerships().len(),
            follows(self.loaded(), self.ownerships()),
            match fetched {
                Ok(category) => if self.loaded().len() + 1 < self.ownerships().len() {
                    &&& step matches BadgesStep::FetchBadge(statement, next)
                    &&& fetches_row(
                        statement,
                        Table::Badges,
                        self.ownerships()[self.loaded().len() as int + 1].badge_id,
                    )
                    &&& next.ownerships() == self.ownerships()
                    &&& next.loaded().len() == self.loaded().len() + 1
                    &&& next.loaded().drop_last() == self.loaded()
                    &&& shows_owned_badge(
                        next.loaded().last(),
                        self.badge(),
                        category,
                        self.ownerships()[self.loaded().len() as int],
                    )
                } else {
                    &&& step matches BadgesStep::Done(badges)
                    &&& badges@.len() == self.ownerships().len()
                    &&& follows(badges@, self.ownerships())
                    &&& badges@.drop_last() == self.loaded()
                    &&& shows_owned_badge(
                        badges@.last(),
                        self.badge(),
                        category,
                        self.ownerships()[self.loaded().len() as int],
                    )
                },
                Err(complaint) => step == BadgesStep::Failed(EngineError::Database(complaint)),
            },
    {
        proof {
            use_type_invariant(&self);
        }
        match fetched {
            Ok(category) => {
                let ghost before = self.loaded@;
                let at: usize = self.loaded.len();
                let owned = OwnedBadge::from(self.badge, category, &self.ownerships[at]);
                let mut loaded = self.loaded;
                loaded.push(owned);
                assert(loaded@.drop_last() =~= before);
                assert(follows(loaded@, self.ownerships@)) by {
                    assert forall|i: int| 0 <= i < loaded@.len() implies (#[trigger] loaded@[i]).id
                        == self.ownerships@[i].id && loaded@[i].acquisition_date@ == shown(
                        self.ownerships@[i].acquisition_date,
                    ) by {
                        if i < before.len() {
                            assert(loaded@[i] == before[i]);
                        }
                    }
                }
                if loaded.len() < self.ownerships.len() {
                    let statement = select_where(
                        Table::Badges,
                        Column::Id,
                        self.ownerships[loaded.len()].badge_id,
                    );
                    BadgesStep::FetchBadge(
                        statement,
                        AwaitingBadge { ownerships: self.ownerships, loaded },
                    )
                } else {
                    BadgesStep::Done(loaded)
                }
            },
            Err(complaint) => BadgesStep::Failed(EngineError::Database(complaint)),
        }
    }
}

impl Team {
    /// The statement that fetches the rows of all teams.
    pub fn all_query() -> (statement: Statement)
        ensures
            is_statement(statement, select_all_text(Table::Teams), Seq::empty()),
    {
        select_all(Table::Teams)
    }

    /// The statement that fetches the row of the team with this id.
    pub fn by_id_query(id: i64) -> (statement: Statement)
        ensures
            fetches_row(statement, Table::Teams, id),
    {
        select_where(Table::Teams, Column::Id, id)
    }

    /// The team row that a lookup by id gave. Where no row has the id, that
    /// is told apart from a failure of the store.
    pub fn found(fetched: Fetched<RawTeam>) -> (r: Result<RawTeam, EngineError>)
        ensures
            match fetched {
                Fetched::Row(raw) => r == Ok::<RawTeam, EngineError>(raw),
                Fetched::Missing => r == Err::<RawTeam, EngineError>(EngineError::NotFound),
                Fetched::Failed(complaint) => r == Err::<RawTeam, EngineError>(
                    EngineError::Database(complaint),
                ),
            },
    {
        match fetched {
            Fetched::Row(raw) => Ok(raw),
            Fetched::Missing => Err(EngineError::NotFound),
            Fetched::Failed(complaint) => Err(EngineError::Database(complaint)),
        }
    }

    /// The statement that fetches the label ownerships of a team: the first
    /// step of loading its labels.
    pub fn label_ownerships_query(team_id: i64) -> (statement: Statement)
        ensures
            fetches_of_team(statement, Table::LabelOwnerships, team_id),
    {
        select_where(Table::LabelOwnerships, Column::TeamId, team_id)
    }

    /// Goes on with the label ownerships that were fetched. A team without
    /// any has no labels, and no second statement is sent; otherwise all the
    /// labels that the rows refer to are fetched in one statement. A failed
    /// fetch fails the load.
    pub fn load_labels(fetched: Result<Vec<LabelOwnership>, String>) -> (step: LabelsStep)
        ensures
            match fetched {
                Ok(rows) => if rows@.len() == 0 {
                    step matches LabelsStep::Done(labels) && labels@.len() == 0
                } else {
                    step matches LabelsStep::Fetch(statement) && fetches_labels(
                        statement,
                        label_ids(rows@),
                    )
                },
                Err(complaint) => step == LabelsStep::Failed(EngineError::Database(complaint)),
            },
    {
        match fetched {
            Ok(rows) => {
                if rows.len() == 0 {
                    return LabelsStep::Done(Vec::new());
                }
                let mut ids: Vec<i64> = Vec::new();
                let mut i: usize = 0;
                while i < rows.len()
                    invariant
                        i <= rows.len(),
                        ids@ == label_ids(rows@).take(i as int),
                    decreases rows.len() - i,
                {
                    ids.push(rows[i].label_id);
                    i = i + 1;
                    assert(ids@ =~= label_ids(rows@).take(i as int));
                }
                assert(ids@ =~= label_ids(rows@));
                LabelsStep::Fetch(select_any(Table::Labels, Column::Id, ids))
            },
            Err(complaint) => LabelsStep::Failed(EngineError::Database(complaint)),
        }
    }

    /// Ends the label load with the labels that were fetched, as they came.
    /// A failed fetch fails the load.
    pub fn labels_loaded(fetched: Result<Vec<Label>, String>) -> (r: Result<Vec<Label>, EngineError>)
        ensures
            match fetched {
                Ok(labels) => r == Ok::<Vec<Label>, EngineError>(labels),
                Err(complaint) => r == Err::<Vec<Label>, EngineError>(
                    EngineError::Database(complaint),
                ),
            },
    {
        match fetched {
            Ok(labels) => Ok(labels),
            Err(complaint) => Err(EngineError::Database(complaint)),
        }
    }

    /// The statement that fetches the badge ownerships of a team: the first
    /// step of loading its badges.
    pub fn badge_ownerships_query(team_id: i64) -> (statement: Statement)
        ensures
            fetches_of_team(statement, Table::BadgeOwnerships, team_id),
    {
        select_where(Table::BadgeOwnerships, Column::TeamId, team_id)
    }

    /// Goes on with the badge ownerships that were fetched. A team without
    /// any has no badges; otherwise the badges are loaded one ownership after
    /// the other, first the badge row and then its category row, starting
    /// with the first ownership. A failed fetch fails the load.
    pub fn load_badges(fetched: Result<Vec<BadgeOwnership>, String>) -> (step: BadgesStep)
        ensures
            match fetched {
                Ok(rows) => if rows@.len() == 0 {
                    step matches BadgesStep::Done(badges) && badges@.len() == 0
                } else {
                    &&& step matches BadgesStep::FetchBadge(statement, next)
                    &&& fetches_row(statement, Table::Badges, rows@[0].badge_id)
                    &&& next.ownerships() == rows@
                    &&& next.loaded().len() == 0
                },
                Err(complaint) => step == BadgesStep::Failed(EngineError::Database(complaint)),
            },
    {
        match fetched {
            Ok(rows) => {
                if rows.len() == 0 {
                    return BadgesStep::Done(Vec::new());
                }
                let statement = select_where(Table::Badges, Column::Id, rows[0].badge_id);
                BadgesStep::FetchBadge(
                    statement,
                    AwaitingBadge { ownerships: rows, loaded: Vec::new() },
                )
            },
            Err(complaint) => BadgesStep::Failed(EngineError::Database(complaint)),
        }
    }

    /// The statement that fetches the persons of a team.
    pub fn persons_query(team_id: i64) -> (statement: Statement)
        ensures
            fetches_of_team(statement, Table::Persons, team_id),
    {
        select_where(Table::Persons, Column::TeamId, team_id)
    }

    /// The persons shown for the person rows that were fetched, one for each
    /// row and in the same order. A failed fetch fails the load.
    pub fn load_persons(fetched: Result<Vec<RawPerson>, String>) -> (r: Result<
        Vec<Person>,
        EngineError,
    >)
        ensures
            match fetched {
                Ok(rows) => r matches Ok(persons) && persons@.len() == rows@.len() && forall|i: int|
                    0 <= i < rows@.len() ==> shows_person(#[trigger] persons@[i], rows@[i]),
                Err(complaint) => r == Err::<Vec<Person>, EngineError>(
                    EngineError::Database(complaint),
                ),
            },
    {
        match fetched {
            Ok(rows) => {
                let mut persons: Vec<Person> = Vec::new();
                let mut i: usize = 0;
                while i < rows.len()
                    invariant
                        i <= rows.len(),
                        persons.len() == i,
                        forall|j: int| 0 <= j < i ==> shows_person(#[trigger] persons@[j], rows@[j]),
                    decreases rows.len() - i,
                {
                    persons.push(Person::from(&rows[i]));
                    i = i + 1;
                }
                Ok(persons)
            },
            Err(complaint) => Err(EngineError::Database(complaint)),
        }
    }

    /// Puts the view of a team together once its three loads have ended. If
    /// any of them failed there is no view: the failure of the labels comes
    /// first, then that of the badges, then that of the persons.
    pub fn assemble(
        raw_team: RawTeam,
        labels: Result<Vec<Label>, EngineError>,
        badges: Result<Vec<OwnedBadge>, EngineError>,
        persons: Result<Vec<Person>, EngineError>,
    ) -> (r: Result<Team, EngineError>)
        ensures
            match (labels, badges, persons) {
                (Ok(l), Ok(b), Ok(p)) => r matches Ok(team) && shows_team(team, raw_team, l, b, p),
                (Err(e), _, _) => r == Err::<Team, EngineError>(e),
                (Ok(_), Err(e), _) => r == Err::<Team, EngineError>(e),
                (Ok(_), Ok(_), Err(e)) => r == Err::<Team, EngineError>(e),
            },
    {
        let labels = match labels {
            Ok(labels) => labels,
            Err(e) => {
                return Err(e);
            },
        };
        let badges = match badges {
            Ok(badges) => badges,
            Err(e) => {
                return Err(e);
            },
        };
        let persons = match persons {
            Ok(persons) => persons,
            Err(e) => {
                return Err(e);
            },
        };
        Ok(Team::from(raw_team, labels, badges, persons))
    }
}

} // verus!
