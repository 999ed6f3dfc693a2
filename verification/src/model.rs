//! What a deletion does to the rows of the store. The store keeps the
//! references between its tables intact by refusing to delete a row while
//! another row still refers to it; it has no cascade of its own. This module
//! states that behaviour over a plain picture of the seven tables, and
//! proves what the deletion plans of the dispatcher achieve against it: a
//! forced deletion is never refused and leaves no row behind that refers to
//! something deleted, and a deletion without force that is refused has
//! changed nothing.

use vstd::prelude::*;
use crate::dispatch::{delete_all_of, delete_one, phase_deletes, spec_plan, DeleteOp, Kind, Phase};
use crate::statement::{Column, Table};

verus! {

/// The rows of the store, as far as deleting is concerned: each table maps
/// the id of a row to what the row refers to.
#[verifier::ext_equal]
pub struct Registry {
    /// The ids of the team rows.
    pub teams: Set<i64>,
    /// For each person row, the id of its team.
    pub persons: Map<i64, i64>,
    /// The ids of the label rows.
    pub labels: Set<i64>,
    /// For each label ownership row, the ids of its team and of its label.
    pub label_ownerships: Map<i64, (i64, i64)>,
    /// The ids of the category rows.
    pub categories: Set<i64>,
    /// For each badge row, the id of its category.
    pub badges: Map<i64, i64>,
    /// For each badge ownership row, the ids of its team and of its badge.
    pub badge_ownerships: Map<i64, (i64, i64)>,
}

impl Registry {
    /// Whether every reference points at a row that is there: each ownership
    /// at its team and at its label or badge, each person at its team, each
    /// badge at its category.
    pub open spec fn consistent(self) -> bool {
        &&& forall|k: i64| #[trigger]
            self.label_ownerships.dom().contains(k) ==> self.teams.contains(
                self.label_ownerships[k].0,
            ) && self.labels.contains(self.label_ownerships[k].1)
        &&& forall|k: i64| #[trigger]
            self.badge_ownerships.dom().contains(k) ==> self.teams.contains(
                self.badge_ownerships[k].0,
            ) && self.badges.dom().contains(self.badge_ownerships[k].1)
        &&& forall|k: i64| #[trigger]
            self.persons.dom().contains(k) ==> self.teams.contains(self.persons[k])
        &&& forall|k: i64| #[trigger]
            self.badges.dom().contains(k) ==> self.categories.contains(self.badges[k])
    }

    /// Whether the row `id` of `kind` is there.
    pub open spec fn has_row(self, kind: Kind, id: i64) -> bool {
        match kind {
            Kind::Label => self.labels.contains(id),
            Kind::Badge => self.badges.dom().contains(id),
            Kind::Category => self.categories.contains(id),
            Kind::Person => self.persons.dom().contains(id),
            Kind::Team => self.teams.contains(id),
        }
    }

    /// Whether some row refers to the row `id` of `kind`.
    pub open spec fn has_dependents(self, kind: Kind, id: i64) -> bool {
        match kind {
            Kind::Label => exists|k: i64| #[trigger]
                self.label_ownerships.dom().contains(k) && self.label_ownerships[k].1 == id,
            Kind::Badge => exists|k: i64| #[trigger]
                self.badge_ownerships.dom().contains(k) && self.badge_ownerships[k].1 == id,
            Kind::Category => exists|k: i64| #[trigger]
                self.badges.dom().contains(k) && self.badges[k] == id,
            Kind::Person => false,
            Kind::Team => {
                ||| exists|k: i64| #[trigger]
                    self.label_ownerships.dom().contains(k) && self.label_ownerships[k].0 == id
                ||| exists|k: i64| #[trigger]
                    self.badge_ownerships.dom().contains(k) && self.badge_ownerships[k].0 == id
                ||| exists|k: i64| #[trigger] self.persons.dom().contains(k) && self.persons[k] == id
            },
        }
    }

    /// Whether `listed` are the ids of the badges of `category`, each of them
    /// and no other id.
    pub open spec fn lists_badges(self, category: i64, listed: Seq<i64>) -> bool {
        forall|b: i64| #[trigger]
            listed.contains(b) <==> self.badges.dom().contains(b) && self.badges[b] == category
    }

    /// The ownership rows that `op` selects from `rows`.
    pub open spec fn selected_pairs(rows: Map<i64, (i64, i64)>, op: DeleteOp) -> Set<i64> {
        Set::new(
            |k: i64|
                rows.dom().contains(k) && match op.column {
                    Column::Id => op.values.contains(k),
                    Column::TeamId => op.values.contains(rows[k].0),
                    Column::LabelId => op.values.contains(rows[k].1),
                    Column::BadgeId => op.values.contains(rows[k].1),
                    _ => false,
                },
        )
    }

    /// The rows that `op` selects from a table whose rows refer to one other
    /// row, by the column `link`.
    pub open spec fn selected_links(rows: Map<i64, i64>, link: Column, op: DeleteOp) -> Set<i64> {
        Set::new(
            |k: i64|
                rows.dom().contains(k) && if op.column == Column::Id {
                    op.values.contains(k)
                } else {
                    op.column == link && op.values.contains(rows[k])
                },
        )
    }

    /// The rows that `op` selects from a table whose rows refer to nothing.
    pub open spec fn selected_ids(rows: Set<i64>, op: DeleteOp) -> Set<i64> {
        Set::new(|k: i64| rows.contains(k) && op.column == Column::Id && op.values.contains(k))
    }

    /// What the store holds after `op`, or nothing where the store refuses
    /// it: a deletion is refused, as a whole, where a row that it selects is
    /// still referred to by another row.
    pub open spec fn apply(self, op: DeleteOp) -> Option<Registry> {
        match op.table {
            Table::LabelOwnerships => Some(
                Registry {
                    label_ownerships: self.label_ownerships.remove_keys(
                        Self::selected_pairs(self.label_ownerships, op),
                    ),
                    ..self
                },
            ),
            Table::BadgeOwnerships => Some(
                Registry {
                    badge_ownerships: self.badge_ownerships.remove_keys(
                        Self::selected_pairs(self.badge_ownerships, op),
                    ),
                    ..self
                },
            ),
            Table::Persons => Some(
                Registry {
                    persons: self.persons.remove_keys(
                        Self::selected_links(self.persons, Column::TeamId, op),
                    ),
                    ..self
                },
            ),
            Table::Labels => {
                let doomed = Self::selected_ids(self.labels, op);
                if exists|k: i64| #[trigger]
                    self.label_ownerships.dom().contains(k) && doomed.contains(
                        self.label_ownerships[k].1,
                    ) {
                    None
                } else {
                    Some(Registry { labels: self.labels.difference(doomed), ..self })
                }
            },
            Table::Badges => {
                let doomed = Self::selected_links(self.badges, Column::Category, op);
                if exists|k: i64| #[trigger]
                    self.badge_ownerships.dom().contains(k) && doomed.contains(
                        self.badge_ownerships[k].1,
                    ) {
                    None
                } else {
                    Some(Registry { badges: self.badges.remove_keys(doomed), ..self })
                }
            },
            Table::Categories => {
                let doomed = Self::selected_ids(self.categories, op);
                if exists|k: i64| #[trigger]
                    self.badges.dom().contains(k) && doomed.contains(self.badges[k]) {
                    None
                } else {
                    Some(Registry { categories: self.categories.difference(doomed), ..self })
                }
            },
            Table::Teams => {
                let doomed = Self::selected_ids(self.teams, op);
                if (exists|k: i64| #[trigger]
                    self.label_ownerships.dom().contains(k) && doomed.contains(
                        self.label_ownerships[k].0,
                    )) || (exists|k: i64| #[trigger]
                    self.badge_ownerships.dom().contains(k) && doomed.contains(
                        self.badge_ownerships[k].0,
                    )) || (exists|k: i64| #[trigger]
                    self.persons.dom().contains(k) && doomed.contains(self.persons[k])) {
                    None
                } else {
                    Some(Registry { teams: self.teams.difference(doomed), ..self })
                }
            },
        }
    }

    /// What the store holds after the deletions `ops`, one after the other,
    /// and whether all were accepted. The first refusal ends the run; what
    /// was deleted before it stays deleted.
    pub open spec fn run(self, ops: Seq<DeleteOp>) -> (Registry, bool)
        decreases ops.len(),
    {
        if ops.len() == 0 {
            (self, true)
        } else {
            match self.apply(ops[0]) {
                Some(next) => next.run(ops.drop_first()),
                None => (self, false),
            }
        }
    }

    /// What the store holds after the given phases of deleting row `id` of
    /// `kind`, and whether all their deletions were accepted.
    pub open spec fn run_phases(self, kind: Kind, id: i64, phases: Seq<Phase>, listed: Seq<i64>) -> (
        Registry,
        bool,
    )
        decreases phases.len(),
    {
        if phases.len() == 0 {
            (self, true)
        } else {
            let (next, accepted) = self.run(phase_deletes(kind, id, phases[0], listed));
            if accepted {
                next.run_phases(kind, id, phases.drop_first(), listed)
            } else {
                (next, false)
            }
        }
    }

    /// What the store holds after the deletion of row `id` of `kind` has run
    /// its plan, and whether the store accepted every statement; `listed`
    /// are the badge ids that listing the badges of a category gave.
    pub open spec fn after_delete(self, kind: Kind, id: i64, force: bool, listed: Seq<i64>) -> (
        Registry,
        bool,
    ) {
        self.run_phases(kind, id, spec_plan(kind, force), listed)
    }

    /// The rows without the row `id` of `kind` and without every row that
    /// refers to it, directly or, for a category, through one of its badges.
    pub open spec fn without(self, kind: Kind, id: i64) -> Registry {
        match kind {
            Kind::Label => Registry {
                labels: self.labels.remove(id),
                label_ownerships: self.label_ownerships.remove_keys(
                    Set::new(
                        |k: i64|
                            self.label_ownerships.dom().contains(k) && self.label_ownerships[k].1
                                == id,
                    ),
                ),
                ..self
            },
            Kind::Badge => Registry {
                badges: self.badges.remove(id),
                badge_ownerships: self.badge_ownerships.remove_keys(
                    Set::new(
                        |k: i64|
                            self.badge_ownerships.dom().contains(k) && self.badge_ownerships[k].1
                                == id,
                    ),
                ),
                ..self
            },
            Kind::Category => Registry {
                categories: self.categories.remove(id),
                badges: self.badges.remove_keys(
                    Set::new(|k: i64| self.badges.dom().contains(k) && self.badges[k] == id),
                ),
                badge_ownerships: self.badge_ownerships.remove_keys(
                    Set::new(
                        |k: i64|
                            self.badge_ownerships.dom().contains(k) && self.badges.dom().contains(
                                self.badge_ownerships[k].1,
                            ) && self.badges[self.badge_ownerships[k].1] == id,
                    ),
                ),
                ..self
            },
            Kind::Person => Registry { persons: self.persons.remove(id), ..self },
            Kind::Team => Registry {
                teams: self.teams.remove(id),
                label_ownerships: self.label_ownerships.remove_keys(
                    Set::new(
                        |k: i64|
                            self.label_ownerships.dom().contains(k) && self.label_ownerships[k].0
                                == id,
                    ),
                ),
                badge_ownerships: self.badge_ownerships.remove_keys(
                    Set::new(
                        |k: i64|
                            self.badge_ownerships.dom().contains(k) && self.badge_ownerships[k].0
                                == id,
                    ),
                ),
                persons: self.persons.remove_keys(
                    Set::new(|k: i64| self.persons.dom().contains(k) && self.persons[k] == id),
                ),
                ..self
            },
        }
    }

    /// The rows without the row `id` of `kind`, all other rows as they are.
    pub open spec fn without_row(self, kind: Kind, id: i64) -> Registry {
        match kind {
            Kind::Label => Registry { labels: self.labels.remove(id), ..self },
            Kind::Badge => Registry { badges: self.badges.remove(id), ..self },
            Kind::Category => Registry { categories: self.categories.remove(id), ..self },
            Kind::Person => Registry { persons: self.persons.remove(id), ..self },
            Kind::Team => Registry { teams: self.teams.remove(id), ..self },
        }
    }
}

/// A list with one value holds that value and no other.
proof fn lemma_one_value(id: i64)
    ensures
        forall|x: i64| #[trigger] seq![id].contains(x) <==> x == id,
{
    assert forall|x: i64| #[trigger] seq![id].contains(x) <==> x == id by {
        if x == id {
            assert(seq![id][0] == x);
        }
    }
}

/// A run of one deletion is that deletion.
proof fn lemma_run_one(state: Registry, op: DeleteOp)
    ensures
        state.run(seq![op]) == match state.apply(op) {
            Some(next) => (next, true),
            None => (state, false),
        },
{
    reveal_with_fuel(Registry::run, 2);
    assert(seq![op].drop_first() =~= Seq::<DeleteOp>::empty());
}

/// Deleting the row `id` of `kind` alone is refused exactly where some row
/// refers to it, and otherwise removes that row and no other.
proof fn lemma_delete_target(state: Registry, kind: Kind, id: i64)
    ensures
        state.apply(delete_one(kind.spec_table(), Column::Id, id)) == if state.has_dependents(
            kind,
            id,
        ) && state.has_row(kind, id) {
            None::<Registry>
        } else {
            Some(state.without_row(kind, id))
        },
{
    lemma_one_value(id);
    let op = delete_one(kind.spec_table(), Column::Id, id);
    match kind {
        Kind::Label => {
            let doomed = Registry::selected_ids(state.labels, op);
            assert(state.labels.difference(doomed) =~= state.labels.remove(id));
            if state.has_dependents(kind, id) && state.has_row(kind, id) {
                let k = choose|k: i64| #[trigger]
                    state.label_ownerships.dom().contains(k) && state.label_ownerships[k].1 == id;
                assert(doomed.contains(state.label_ownerships[k].1));
            }
        },
        Kind::Badge => {
            let doomed = Registry::selected_links(state.badges, Column::Category, op);
            assert(state.badges.remove_keys(doomed) =~= state.badges.remove(id));
            if state.has_dependents(kind, id) && state.has_row(kind, id) {
                let k = choose|k: i64| #[trigger]
                    state.badge_ownerships.dom().contains(k) && state.badge_ownerships[k].1 == id;
                assert(doomed.contains(state.badge_ownerships[k].1));
            }
        },
        Kind::Category => {
            let doomed = Registry::selected_ids(state.categories, op);
            assert(state.categories.difference(doomed) =~= state.categories.remove(id));
            if state.has_dependents(kind, id) && state.has_row(kind, id) {
                let k = choose|k: i64| #[trigger]
                    state.badges.dom().contains(k) && state.badges[k] == id;
                assert(doomed.contains(state.badges[k]));
            }
        },
        Kind::Person => {
            let doomed = Registry::selected_links(state.persons, Column::TeamId, op);
            assert(state.persons.remove_keys(doomed) =~= state.persons.remove(id));
        },
        Kind::Team => {
            let doomed = Registry::selected_ids(state.teams, op);
            assert(state.teams.difference(doomed) =~= state.teams.remove(id));
            if state.has_dependents(kind, id) && state.has_row(kind, id) {
                if exists|k: i64| #[trigger]
                    state.label_ownerships.dom().contains(k) && state.label_ownerships[k].0 == id {
                    let k = choose|k: i64| #[trigger]
                        state.label_ownerships.dom().contains(k) && state.label_ownerships[k].0
                            == id;
                    assert(doomed.contains(state.label_ownerships[k].0));
                } else if exists|k: i64| #[trigger]
                    state.badge_ownerships.dom().contains(k) && state.badge_ownerships[k].0 == id {
                    let k = choose|k: i64| #[trigger]
                        state.badge_ownerships.dom().contains(k) && state.badge_ownerships[k].0
                            == id;
                    assert(doomed.contains(state.badge_ownerships[k].0));
                } else {
                    let k = choose|k: i64| #[trigger]
                        state.persons.dom().contains(k) && state.persons[k] == id;
                    assert(doomed.contains(state.persons[k]));
                }
            }
        },
    }
}

/// A deletion without force of a row that other rows refer to is refused,
/// and every row is as it was: the target, the rows that refer to it, and
/// all others.
pub proof fn lemma_refused_deletion_changes_nothing(
    state: Registry,
    kind: Kind,
    id: i64,
    listed: Seq<i64>,
)
    requires
        state.has_row(kind, id),
        state.has_dependents(kind, id),
    ensures
        state.after_delete(kind, id, false, listed) == (state, false),
{
    reveal_with_fuel(Registry::run_phases, 3);
    let target = delete_one(kind.spec_table(), Column::Id, id);
    lemma_delete_target(state, kind, id);
    lemma_run_one(state, target);
    let plan = spec_plan(kind, false);
    if kind == Kind::Badge {
        assert(plan.drop_first() =~= seq![Phase::Target]);
        assert(plan.drop_first().drop_first() =~= Seq::<Phase>::empty());
        assert(phase_deletes(kind, id, Phase::Recompute, listed) =~= Seq::<DeleteOp>::empty());
    } else {
        assert(plan.drop_first() =~= Seq::<Phase>::empty());
    }
    assert(phase_deletes(kind, id, Phase::Target, listed) =~= seq![target]);
}

/// A deletion without force of a row that no row refers to is accepted and
/// removes that row and no other.
pub proof fn lemma_unforced_deletion_removes_the_row(
    state: Registry,
    kind: Kind,
    id: i64,
    listed: Seq<i64>,
)
    requires
        !state.has_dependents(kind, id),
    ensures
        state.after_delete(kind, id, false, listed) == (state.without_row(kind, id), true),
{
    reveal_with_fuel(Registry::run_phases, 3);
    let target = delete_one(kind.spec_table(), Column::Id, id);
    lemma_delete_target(state, kind, id);
    lemma_run_one(state, target);
    let plan = spec_plan(kind, false);
    if kind == Kind::Badge {
        assert(plan.drop_first() =~= seq![Phase::Target]);
        assert(plan.drop_first().drop_first() =~= Seq::<Phase>::empty());
        assert(phase_deletes(kind, id, Phase::Recompute, listed) =~= Seq::<DeleteOp>::empty());
    } else {
        assert(plan.drop_first() =~= Seq::<Phase>::empty());
    }
    assert(phase_deletes(kind, id, Phase::Target, listed) =~= seq![target]);
}

/// With force, deleting a label, a badge or a person is never refused, and
/// leaves the rows without the target and without the rows that referred to
/// it.
proof fn lemma_forced_simple(state: Registry, kind: Kind, id: i64, listed: Seq<i64>)
    requires
        kind == Kind::Label || kind == Kind::Badge || kind == Kind::Person,
    ensures
        state.after_delete(kind, id, true, listed) == (state.without(kind, id), true),
{
    reveal_with_fuel(Registry::run_phases, 4);
    lemma_one_value(id);
    let plan = spec_plan(kind, true);
    let target = delete_one(kind.spec_table(), Column::Id, id);
    assert(phase_deletes(kind, id, Phase::Target, listed) =~= seq![target]);
    assert(phase_deletes(kind, id, Phase::Recompute, listed) =~= Seq::<DeleteOp>::empty());
    match kind {
        Kind::Label => {
            let first = delete_one(Table::LabelOwnerships, Column::LabelId, id);
            assert(phase_deletes(kind, id, Phase::Dependents, listed) =~= seq![first]);
            assert(plan.drop_first() =~= seq![Phase::Target]);
            assert(plan.drop_first().drop_first() =~= Seq::<Phase>::empty());
            lemma_run_one(state, first);
            let cleared = state.apply(first)->0;
            assert(!cleared.has_dependents(kind, id));
            lemma_delete_target(cleared, kind, id);
            lemma_run_one(cleared, target);
            assert(cleared.without_row(kind, id) =~= state.without(kind, id));
        },
        Kind::Badge => {
            let first = delete_one(Table::BadgeOwnerships, Column::BadgeId, id);
            assert(phase_deletes(kind, id, Phase::Dependents, listed) =~= seq![first]);
            assert(plan.drop_first() =~= seq![Phase::Recompute, Phase::Target]);
            assert(plan.drop_first().drop_first() =~= seq![Phase::Target]);
            assert(plan.drop_first().drop_first().drop_first() =~= Seq::<Phase>::empty());
            lemma_run_one(state, first);
            let cleared = state.apply(first)->0;
            assert(!cleared.has_dependents(kind, id));
            lemma_delete_target(cleared, kind, id);
            lemma_run_one(cleared, target);
            assert(cleared.without_row(kind, id) =~= state.without(kind, id));
        },
        _ => {
            assert(plan.drop_first() =~= Seq::<Phase>::empty());
            lemma_delete_target(state, kind, id);
            lemma_run_one(state, target);
            assert(state.without_row(kind, id) =~= state.without(kind, id));
        },
    }
}

/// With force, deleting a team is never refused, and leaves the rows without
/// the team, its ownerships and its persons.
proof fn lemma_forced_team(state: Registry, id: i64, listed: Seq<i64>)
    ensures
        state.after_delete(Kind::Team, id, true, listed) == (state.without(Kind::Team, id), true),
{
    reveal_with_fuel(Registry::run_phases, 4);
    reveal_with_fuel(Registry::run, 4);
    lemma_one_value(id);
    let kind = Kind::Team;
    let plan = spec_plan(kind, true);
    let target = delete_one(Table::Teams, Column::Id, id);
    let a = delete_one(Table::LabelOwnerships, Column::TeamId, id);
    let b = delete_one(Table::BadgeOwnerships, Column::TeamId, id);
    let c = delete_one(Table::Persons, Column::TeamId, id);
    let ops = seq![a, b, c];
    assert(phase_deletes(kind, id, Phase::Dependents, listed) =~= ops);
    assert(phase_deletes(kind, id, Phase::Target, listed) =~= seq![target]);
    assert(phase_deletes(kind, id, Phase::Recompute, listed) =~= Seq::<DeleteOp>::empty());
    assert(plan.drop_first() =~= seq![Phase::Recompute, Phase::Target]);
    assert(plan.drop_first().drop_first() =~= seq![Phase::Target]);
    assert(plan.drop_first().drop_first().drop_first() =~= Seq::<Phase>::empty());
    assert(ops.drop_first() =~= seq![b, c]);
    assert(ops.drop_first().drop_first() =~= seq![c]);
    assert(ops.drop_first().drop_first().drop_first() =~= Seq::<DeleteOp>::empty());
    let without_labels = state.apply(a)->0;
    let without_badges = without_labels.apply(b)->0;
    let cleared = without_badges.apply(c)->0;
    assert(state.run(ops) == (cleared, true));
    assert(!cleared.has_dependents(kind, id));
    lemma_delete_target(cleared, kind, id);
    lemma_run_one(cleared, target);
    assert(cleared.without_row(kind, id) =~= state.without(kind, id));
}

/// With force, deleting a category is never refused, and leaves the rows
/// without the category, its badges and the ownerships of those badges.
proof fn lemma_forced_category(state: Registry, id: i64, listed: Seq<i64>)
    requires
        state.lists_badges(id, listed),
    ensures
        state.after_delete(Kind::Category, id, true, listed) == (
            state.without(Kind::Category, id),
            true,
        ),
{
    reveal_with_fuel(Registry::run_phases, 6);
    lemma_one_value(id);
    let kind = Kind::Category;
    let plan = spec_plan(kind, true);
    let target = delete_one(Table::Categories, Column::Id, id);
    let ownerships = delete_all_of(Table::BadgeOwnerships, Column::BadgeId, listed);
    let badges = delete_one(Table::Badges, Column::Category, id);
    assert(phase_deletes(kind, id, Phase::ListBadges, listed) =~= Seq::<DeleteOp>::empty());
    assert(phase_deletes(kind, id, Phase::Dependents, listed) =~= seq![ownerships]);
    assert(phase_deletes(kind, id, Phase::Badges, listed) =~= seq![badges]);
    assert(phase_deletes(kind, id, Phase::Recompute, listed) =~= Seq::<DeleteOp>::empty());
    assert(phase_deletes(kind, id, Phase::Target, listed) =~= seq![target]);
    let after_listing = plan.drop_first();
    let after_dependents = after_listing.drop_first();
    let after_badges = after_dependents.drop_first();
    let after_recompute = after_badges.drop_first();
    assert(after_listing =~= seq![
        Phase::Dependents,
        Phase::Badges,
        Phase::Recompute,
        Phase::Target,
    ]);
    assert(after_dependents =~= seq![Phase::Badges, Phase::Recompute, Phase::Target]);
    assert(after_badges =~= seq![Phase::Recompute, Phase::Target]);
    assert(after_recompute =~= seq![Phase::Target]);
    assert(after_recompute.drop_first() =~= Seq::<Phase>::empty());
    lemma_run_one(state, ownerships);
    let unowned = state.apply(ownerships)->0;
    assert forall|k: i64| #[trigger] unowned.badge_ownerships.dom().contains(k) implies !(
    state.badges.dom().contains(unowned.badge_ownerships[k].1) && state.badges[unowned.badge_ownerships[k].1]
        == id) by {
        assert(!listed.contains(state.badge_ownerships[k].1));
    }
    lemma_run_one(unowned, badges);
    let doomed = Registry::selected_links(unowned.badges, Column::Category, badges);
    assert(unowned.apply(badges) is Some);
    let emptied = unowned.apply(badges)->0;
    assert(!emptied.has_dependents(kind, id));
    lemma_delete_target(emptied, kind, id);
    lemma_run_one(emptied, target);
    let expected = state.without(kind, id);
    assert(emptied.without_row(kind, id).badges =~= expected.badges);
    assert(emptied.without_row(kind, id).badge_ownerships =~= expected.badge_ownerships) by {
        assert forall|k: i64|
            unowned.badge_ownerships.dom().contains(k) <==> expected.badge_ownerships.dom().contains(
                k,
            ) by {
            if state.badge_ownerships.dom().contains(k) {
                let b = state.badge_ownerships[k].1;
                assert(listed.contains(b) <==> state.badges.dom().contains(b) && state.badges[b]
                    == id);
            }
        }
    }
    assert(emptied.without_row(kind, id) =~= expected);
}

/// A deletion with force is never refused. It leaves the rows without the
/// target and without every row that referred to it; for a category that is
/// the category, its badges and all ownerships of those badges. Every other
/// row is as it was, and where every reference pointed at a row before, every
/// reference does so afterwards: nothing is left that refers to a deleted
/// row.
pub proof fn lemma_forced_deletion(state: Registry, kind: Kind, id: i64, listed: Seq<i64>)
    requires
        kind == Kind::Category ==> state.lists_badges(id, listed),
    ensures
        state.after_delete(kind, id, true, listed) == (state.without(kind, id), true),
        !state.without(kind, id).has_row(kind, id),
        !state.without(kind, id).has_dependents(kind, id),
        state.consistent() ==> state.without(kind, id).consistent(),
{
    match kind {
        Kind::Category => lemma_forced_category(state, id, listed),
        Kind::Team => lemma_forced_team(state, id, listed),
        _ => lemma_forced_simple(state, kind, id, listed),
    }
}

/// After the forced deletion of a category, the badge ownerships that are
/// left are those of badges outside the category: so a score that is derived
/// afterwards counts the points of exactly those badges, and none of a
/// deleted badge.
pub proof fn lemma_forced_category_deletion_spares_other_ownerships(
    state: Registry,
    category: i64,
    k: i64,
)
    requires
        state.consistent(),
    ensures
        state.without(Kind::Category, category).badge_ownerships.dom().contains(k) <==> (
        state.badge_ownerships.dom().contains(k) && state.badges[state.badge_ownerships[k].1]
            != category),
        state.without(Kind::Category, category).badge_ownerships.dom().contains(k)
            ==> state.without(Kind::Category, category).badge_ownerships[k]
            == state.badge_ownerships[k],
{
}

} // verus!
