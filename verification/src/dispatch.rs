//! Deleting and editing by kind. A request names the kind of entity and the
//! id of the row. An edit becomes one update. A deletion is a short plan:
//! with force, the rows that refer to the target go first; where badge
//! ownerships may have gone, all scores and ranks are derived again; the
//! target's own row goes last. Without force only the target's row is asked
//! to go, and the store decides whether it may.

use vstd::prelude::*;
use crate::edit::{
    dates_readable, first_unreadable, is_update, update_statement, EditBadge, EditCategory,
    EditLabel, EditPerson, EditTeam, FieldEdit,
};
use crate::error::EngineError;
use crate::statement::{
    delete_any, delete_any_text, delete_where, delete_where_text, is_statement, select_ids_where,
    select_ids_where_text, Column, SqlValue, Statement, Table,
};

verus! {

/// The five kinds of entity that can be deleted or edited.
#[derive(Debug, Clone, Copy, PartialEq, Eq, Structural)]
pub enum Kind {
    Label,
    Badge,
    Category,
    Person,
    Team,
}

/// Whether two texts are the same.
fn same_text(a: &str, b: &str) -> (r: bool)
    ensures
        r == (a@ == b@),
{
    String::from_str(a) == String::from_str(b)
}

impl Kind {
    /// The word that names this kind in a request.
    pub open spec fn spec_word(self) -> Seq<char> {
        match self {
            Kind::Label => "label"@,
            Kind::Badge => "badge"@,
            Kind::Category => "category"@,
            Kind::Person => "person"@,
            Kind::Team => "team"@,
        }
    }

    /// The table that holds the rows of this kind.
    pub open spec fn spec_table(self) -> Table {
        match self {
            Kind::Label => Table::Labels,
            Kind::Badge => Table::Badges,
            Kind::Category => Table::Categories,
            Kind::Person => Table::Persons,
            Kind::Team => Table::Teams,
        }
    }

    /// The kind that `word` names. Any other word is refused: a request for
    /// an unknown kind never reaches the store.
    pub fn parse(word: &str) -> (r: Result<Kind, EngineError>)
        ensures
            match r {
                Ok(kind) => word@ == kind.spec_word(),
                Err(e) => e == EngineError::UnknownKind && forall|kind: Kind|
                    word@ != #[trigger] kind.spec_word(),
            },
    {
        if same_text(word, "label") {
            Ok(Kind::Label)
        } else if same_text(word, "badge") {
            Ok(Kind::Badge)
        } else if same_text(word, "category") {
            Ok(Kind::Category)
        } else if same_text(word, "person") {
            Ok(Kind::Person)
        } else if same_text(word, "team") {
            Ok(Kind::Team)
        } else {
            Err(EngineError::UnknownKind)
        }
    }

    /// The table that holds the rows of this kind.
    pub fn table(&self) -> (table: Table)
        ensures
            table == self.spec_table(),
    {
        match self {
            Kind::Label => Table::Labels,
            Kind::Badge => Table::Badges,
            Kind::Category => Table::Categories,
            Kind::Person => Table::Persons,
            Kind::Team => Table::Teams,
        }
    }
}

/// One phase of a deletion.
#[derive(Debug, Clone, Copy, PartialEq, Eq, Structural)]
pub enum Phase {
    /// List the ids of the badges of the category.
    ListBadges,
    /// Delete the rows that refer to the target: the ownerships of a label or
    /// a badge, the ownerships of the listed badges of a category, or the
    /// label ownerships, badge ownerships and persons of a team.
    Dependents,
    /// Delete the badges of the category.
    Badges,
    /// Derive all scores and ranks again.
    Recompute,
    /// Delete the target's own row.
    Target,
}

/// The phases of deleting a row of `kind`, in order. A person has no
/// dependents, so force changes nothing for it. Deleting a badge always
/// derives the scores again; deleting a category or a team does so where
/// force removed badge ownerships.
pub open spec fn spec_plan(kind: Kind, force: bool) -> Seq<Phase> {
    match (kind, force) {
        (Kind::Label, true) => seq![Phase::Dependents, Phase::Target],
        (Kind::Badge, true) => seq![Phase::Dependents, Phase::Recompute, Phase::Target],
        (Kind::Badge, false) => seq![Phase::Recompute, Phase::Target],
        (Kind::Category, true) => seq![
            Phase::ListBadges,
            Phase::Dependents,
            Phase::Badges,
            Phase::Recompute,
            Phase::Target,
        ],
        (Kind::Team, true) => seq![Phase::Dependents, Phase::Recompute, Phase::Target],
        _ => seq![Phase::Target],
    }
}

/// The phases of deleting a row of `kind`, in order.
pub fn plan(kind: Kind, force: bool) -> (phases: Vec<Phase>)
    ensures
        phases@ == spec_plan(kind, force),
{
    let mut phases: Vec<Phase> = Vec::new();
    if force {
        match kind {
            Kind::Category => {
                phases.push(Phase::ListBadges);
                phases.push(Phase::Dependents);
                phases.push(Phase::Badges);
                phases.push(Phase::Recompute);
            },
            Kind::Badge | Kind::Team => {
                phases.push(Phase::Dependents);
                phases.push(Phase::Recompute);
            },
            Kind::Label => {
                phases.push(Phase::Dependents);
            },
            Kind::Person => {},
        }
    } else {
        match kind {
            Kind::Badge => {
                phases.push(Phase::Recompute);
            },
            _ => {},
        }
    }
    phases.push(Phase::Target);
    assert(phases@ =~= spec_plan(kind, force));
    phases
}

/// Whether `statement` deletes the rows of `table` whose `column` is `id`.
pub open spec fn deletes_where(statement: Statement, table: Table, column: Column, id: i64) -> bool {
    is_statement(statement, delete_where_text(table, column), seq![SqlValue::BigInt(id)])
}

/// Whether `statement` deletes the rows of `table` whose `column` is one of
/// `ids`, in one go.
pub open spec fn deletes_any(statement: Statement, table: Table, column: Column, ids: Seq<i64>) -> bool {
    &&& statement.text@ == delete_any_text(table, column)
    &&& statement.params@.len() == 1
    &&& statement.params@[0] matches SqlValue::BigIntList(list) && list@ == ids
}

/// What one deletion removes: the rows of `table` whose `column` is one of
/// `values`. `any` tells the two forms of the statement apart: `= ANY($1)`
/// with the list of values bound, or `= $1` with the single value bound.
pub struct DeleteOp {
    pub table: Table,
    pub column: Column,
    pub values: Seq<i64>,
    pub any: bool,
}

/// The deletion of the rows of `table` whose `column` is `id`.
pub open spec fn delete_one(table: Table, column: Column, id: i64) -> DeleteOp {
    DeleteOp { table, column, values: seq![id], any: false }
}

/// The deletion, in one statement, of the rows of `table` whose `column` is
/// one of `ids`.
pub open spec fn delete_all_of(table: Table, column: Column, ids: Seq<i64>) -> DeleteOp {
    DeleteOp { table, column, values: ids, any: true }
}

/// Whether `statement` is the statement of the deletion `op`.
pub open spec fn is_delete(statement: Statement, op: DeleteOp) -> bool {
    if op.any {
        deletes_any(statement, op.table, op.column, op.values)
    } else {
        op.values.len() == 1 && deletes_where(statement, op.table, op.column, op.values[0])
    }
}

/// The deletions of the given phase of deleting row `id` of `kind`, in
/// order; `badge_ids` are the badges that were listed. Listing and
/// recomputing delete nothing. The three deletions for a team do not depend
/// on one another and may run side by side.
pub open spec fn phase_deletes(kind: Kind, id: i64, phase: Phase, badge_ids: Seq<i64>) -> Seq<
    DeleteOp,
> {
    match phase {
        Phase::Dependents => match kind {
            Kind::Label => seq![delete_one(Table::LabelOwnerships, Column::LabelId, id)],
            Kind::Badge => seq![delete_one(Table::BadgeOwnerships, Column::BadgeId, id)],
            Kind::Category => seq![
                delete_all_of(Table::BadgeOwnerships, Column::BadgeId, badge_ids),
            ],
            Kind::Team => seq![
                delete_one(Table::LabelOwnerships, Column::TeamId, id),
                delete_one(Table::BadgeOwnerships, Column::TeamId, id),
                delete_one(Table::Persons, Column::TeamId, id),
            ],
            Kind::Person => Seq::empty(),
        },
        Phase::Badges => seq![delete_one(Table::Badges, Column::Category, id)],
        Phase::Target => seq![delete_one(kind.spec_table(), Column::Id, id)],
        Phase::ListBadges => Seq::empty(),
        Phase::Recompute => Seq::empty(),
    }
}

/// Whether `statements` are what the given phase of deleting row `id` of
/// `kind` sends to the store: one statement for each deletion of the phase,
/// in order.
pub open spec fn runs(
    statements: Seq<Statement>,
    kind: Kind,
    id: i64,
    phase: Phase,
    badge_ids: Seq<i64>,
) -> bool {
    let ops = phase_deletes(kind, id, phase, badge_ids);
    &&& statements.len() == ops.len()
    &&& forall|i: int| 0 <= i < ops.len() ==> is_delete(#[trigger] statements[i], ops[i])
}

/// A deletion that waits for the outcome of statements or of a recompute.
#[derive(Debug, PartialEq, Eq)]
pub struct Pending {
    kind: Kind,
    id: i64,
    force: bool,
    at: usize,
}

/// A forced deletion of a category that waits for the ids of its badges.
#[derive(Debug, PartialEq, Eq)]
pub struct Listing {
    kind: Kind,
    id: i64,
    force: bool,
    at: usize,
}

/// What a deletion does next.
#[derive(Debug, PartialEq, Eq)]
pub enum DeleteStep {
    /// Fetch the ids that this statement selects, then resume with them.
    List(Statement, Listing),
    /// Send these statements, side by side where there are several, then
    /// resume with the outcome.
    Run(Vec<Statement>, Pending),
    /// Derive all scores and ranks again, then resume with the outcome.
    Recompute(Pending),
    /// The row is deleted.
    Done,
    /// The deletion failed. Nothing is undone and nothing is tried again.
    Failed(EngineError),
}

/// Whether `step` is the step of deleting row `id` of `kind` when `at`
/// phases of its plan are behind it; `badge_ids` are the badges that were
/// listed, where the phase needs them.
pub open spec fn is_step(
    step: DeleteStep,
    kind: Kind,
    id: i64,
    force: bool,
    at: int,
    badge_ids: Seq<i64>,
) -> bool {
    if at >= spec_plan(kind, force).len() {
        step is Done
    } else {
        match spec_plan(kind, force)[at] {
            Phase::ListBadges => {
                &&& step matches DeleteStep::List(statement, listing)
                &&& is_statement(
                    statement,
                    select_ids_where_text(Table::Badges, Column::Category),
                    seq![SqlValue::BigInt(id)],
                )
                &&& listing.position() == (kind, id, force, at)
            },
            Phase::Recompute => {
                &&& step matches DeleteStep::Recompute(pending)
                &&& pending.position() == (kind, id, force, at)
            },
            phase => {
                &&& step matches DeleteStep::Run(statements, pending)
                &&& runs(statements@, kind, id, phase, badge_ids)
                &&& pending.position() == (kind, id, force, at)
            },
        }
    }
}

/// The step of deleting row `id` of `kind` when `at` phases are behind it.
fn enter(kind: Kind, id: i64, force: bool, at: usize, badge_ids: Vec<i64>) -> (step: DeleteStep)
    ensures
        is_step(step, kind, id, force, at as int, badge_ids@),
{
    let phases = plan(kind, force);
    if at >= phases.len() {
        return DeleteStep::Done;
    }
    let mut statements: Vec<Statement> = Vec::new();
    match phases[at] {
        Phase::ListBadges => {
            return DeleteStep::List(
                select_ids_where(Table::Badges, Column::Category, SqlValue::BigInt(id)),
                Listing { kind, id, force, at },
            );
        },
        Phase::Recompute => {
            return DeleteStep::Recompute(Pending { kind, id, force, at });
        },
        Phase::Dependents => match kind {
            Kind::Label => {
                statements.push(delete_where(Table::LabelOwnerships, Column::LabelId, id));
            },
            Kind::Badge => {
                statements.push(delete_where(Table::BadgeOwnerships, Column::BadgeId, id));
            },
            Kind::Category => {
                statements.push(delete_any(Table::BadgeOwnerships, Column::BadgeId, badge_ids));
            },
            Kind::Team => {
                statements.push(delete_where(Table::LabelOwnerships, Column::TeamId, id));
                statements.push(delete_where(Table::BadgeOwnerships, Column::TeamId, id));
                statements.push(delete_where(Table::Persons, Column::TeamId, id));
            },
            Kind::Person => {},
        },
        Phase::Badges => {
            statements.push(delete_where(Table::Badges, Column::Category, id));
        },
        Phase::Target => {
            statements.push(delete_where(kind.table(), Column::Id, id));
        },
    }
    DeleteStep::Run(statements, Pending { kind, id, force, at })
}

/// The first step of deleting row `id` of `kind`.
pub fn delete(kind: Kind, id: i64, force: bool) -> (step: DeleteStep)
    ensures
        is_step(step, kind, id, force, 0, Seq::empty()),
{
    enter(kind, id, force, 0, Vec::new())
}

impl Pending {
    /// The phase that is awaited is a phase of the plan.
    #[verifier::type_invariant]
    spec fn valid(self) -> bool {
        self.at < spec_plan(self.kind, self.force).len()
    }

    /// The deletion that is under way, and how many phases are behind it.
    pub closed spec fn position(self) -> (Kind, i64, bool, int) {
        (self.kind, self.id, self.force, self.at as int)
    }

    /// Goes on after the statements or the recompute of this phase: with the
    /// next phase where they succeeded, and to failure with the store's
    /// complaint where they did not.
    pub fn resume(self, outcome: Result<(), String>) -> (step: DeleteStep)
        ensures
            match outcome {
                Ok(_) => is_step(
                    step,
                    self.position().0,
                    self.position().1,
                    self.position().2,
                    self.position().3 + 1,
                    Seq::empty(),
                ),
                Err(complaint) => step == DeleteStep::Failed(EngineError::Database(complaint)),
            },
    {
        proof {
            use_type_invariant(&self);
        }
        match outcome {
            Ok(_) => enter(self.kind, self.id, self.force, self.at + 1, Vec::new()),
            Err(complaint) => DeleteStep::Failed(EngineError::Database(complaint)),
        }
    }
}

impl Listing {
    /// The phase that is awaited is a phase of the plan.
    #[verifier::type_invariant]
    spec fn valid(self) -> bool {
        self.at < spec_plan(self.kind, self.force).len()
    }

    /// The deletion that is under way, and how many phases are behind it.
    pub closed spec fn position(self) -> (Kind, i64, bool, int) {
        (self.kind, self.id, self.force, self.at as int)
    }

    /// Goes on with the badge ids that were listed: with the next phase, or
    /// to failure with the store's complaint where the listing failed.
    pub fn resume(self, outcome: Result<Vec<i64>, String>) -> (step: DeleteStep)
        ensures
            match outcome {
                Ok(badge_ids) => is_step(
                    step,
                    self.position().0,
                    self.position().1,
                    self.position().2,
                    self.position().3 + 1,
                    badge_ids@,
                ),
                Err(complaint) => step == DeleteStep::Failed(EngineError::Database(complaint)),
            },
    {
        proof {
            use_type_invariant(&self);
        }
        match outcome {
            Ok(badge_ids) => enter(self.kind, self.id, self.force, self.at + 1, badge_ids),
            Err(complaint) => DeleteStep::Failed(EngineError::Database(complaint)),
        }
    }
}

/// An edit payload together with the kind of row that it edits.
#[derive(Debug, Clone, PartialEq, Eq)]
pub enum Edit {
    Label(EditLabel),
    Badge(EditBadge),
    Category(EditCategory),
    Person(EditPerson),
    Team(EditTeam),
}

impl Edit {
    /// The kind of row that this payload edits.
    pub open spec fn spec_kind(self) -> Kind {
        match self {
            Edit::Label(_) => Kind::Label,
            Edit::Badge(_) => Kind::Badge,
            Edit::Category(_) => Kind::Category,
            Edit::Person(_) => Kind::Person,
            Edit::Team(_) => Kind::Team,
        }
    }

    /// The columns that this payload changes.
    pub open spec fn spec_fields(self) -> Seq<FieldEdit> {
        match self {
            Edit::Label(payload) => payload.spec_fields(),
            Edit::Badge(payload) => payload.spec_fields(),
            Edit::Category(payload) => payload.spec_fields(),
            Edit::Person(payload) => payload.spec_fields(),
            Edit::Team(payload) => payload.spec_fields(),
        }
    }

    /// The kind of row that this payload edits.
    pub fn kind(&self) -> (kind: Kind)
        ensures
            kind == self.spec_kind(),
    {
        match self {
            Edit::Label(_) => Kind::Label,
            Edit::Badge(_) => Kind::Badge,
            Edit::Category(_) => Kind::Category,
            Edit::Person(_) => Kind::Person,
            Edit::Team(_) => Kind::Team,
        }
    }

    /// The columns that this payload changes.
    pub fn fields(&self) -> (fields: Vec<FieldEdit>)
        ensures
            fields@ == self.spec_fields(),
    {
        match self {
            Edit::Label(payload) => payload.fields(),
            Edit::Badge(payload) => payload.fields(),
            Edit::Category(payload) => payload.fields(),
            Edit::Person(payload) => payload.fields(),
            Edit::Team(payload) => payload.fields(),
        }
    }
}

/// The update that edits row `id` as `payload` asks: one statement on the
/// table of the payload's kind, which sets the columns that the payload names
/// and no other. Fails exactly where a date of the payload is no date.
pub fn edit(id: i64, payload: &Edit) -> (r: Result<Statement, EngineError>)
    ensures
        r is Ok <==> dates_readable(payload.spec_fields()),
        r matches Ok(statement) ==> is_update(
            statement,
            payload.spec_kind().spec_table(),
            id,
            payload.spec_fields(),
        ),
        r matches Err(e) ==> e matches EngineError::InvalidDate(text) && first_unreadable(
            payload.spec_fields(),
            text,
        ),
{
    let fields = payload.fields();
    update_statement(payload.kind().table(), id, &fields)
}

/// Whether `complaint` is the complaint of the first of `outcomes` that
/// failed.
pub open spec fn is_first_complaint(outcomes: Seq<Result<(), String>>, complaint: String) -> bool {
    exists|i: int|
        {
            &&& 0 <= i < outcomes.len()
            &&& #[trigger] outcomes[i] == Err::<(), String>(complaint)
            &&& forall|j: int| 0 <= j < i ==> #[trigger] outcomes[j] is Ok
        }
}

/// The outcome of statements that ran side by side, from the outcome of
/// each: success where every one succeeded, and otherwise the complaint of
/// the first that failed, in the order of the statements.
pub fn join_outcomes(outcomes: &Vec<Result<(), String>>) -> (r: Result<(), String>)
    ensures
        r is Ok <==> forall|i: int| 0 <= i < outcomes.len() ==> #[trigger] outcomes[i] is Ok,
        r matches Err(complaint) ==> is_first_complaint(outcomes@, complaint),
{
    let mut i: usize = 0;
    while i < outcomes.len()
        invariant
            i <= outcomes.len(),
            forall|j: int| 0 <= j < i ==> #[trigger] outcomes[j] is Ok,
        decreases outcomes.len() - i,
    {
        if let Err(complaint) = &outcomes[i] {
            assert(outcomes@[i as int] == Err::<(), String>(*complaint));
            return Err(complaint.clone());
        }
        i = i + 1;
    }
    Ok(())
}

/// What the store's answer to a statement means for the request: its
/// complaint, where it has one, is a database failure.
pub fn settle(outcome: Result<(), String>) -> (r: Result<(), EngineError>)
    ensures
        match outcome {
            Ok(_) => r is Ok,
            Err(complaint) => r == Err::<(), EngineError>(EngineError::Database(complaint)),
        },
{
    match outcome {
        Ok(_) => Ok(()),
        Err(complaint) => Err(EngineError::Database(complaint)),
    }
}

} // verus!
