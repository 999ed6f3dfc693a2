//! Deriving scores and ranks again. Neither is kept up to date by the store:
//! after badge ownerships were added or removed, a team's score is derived
//! from the points of the badges it now owns and written back, and then the
//! ranks of all teams are derived from their scores and names and written
//! back. A caller sends the statements of this module in that order.

use vstd::prelude::*;
use crate::error::EngineError;
use crate::ranking::{
    compute_ranks, is_rank_assignment, lemma_ranks_unique, lemma_score_ignores_order, score_of,
    standing_keys, total_points, Standing,
};
use crate::statement::{is_statement, select_ids, select_ids_text, SqlValue, Statement, Table};

verus! {

/// The text that selects the points of the badges that a team owns, one row
/// for each ownership.
pub open spec fn owned_points_text() -> Seq<char> {
    "SELECT badges.points FROM badge_ownerships JOIN badges ON badges.id = badge_ownerships.badge_id WHERE badge_ownerships.team_id = $1"@
}

/// The text that writes a team's score.
pub open spec fn score_update_text() -> Seq<char> {
    "UPDATE teams SET score = $2 WHERE id = $1"@
}

/// The text that selects what ranks the teams.
pub open spec fn standings_text() -> Seq<char> {
    "SELECT id, score, name FROM teams"@
}

/// The text that writes a team's rank.
pub open spec fn rank_update_text() -> Seq<char> {
    "UPDATE teams SET rank = $2 WHERE id = $1"@
}

/// Whether `statement` writes to team `team_id` the score of a team that owns
/// badges worth `points`.
pub open spec fn writes_score(statement: Statement, team_id: i64, points: Seq<i64>) -> bool {
    is_statement(
        statement,
        score_update_text(),
        seq![SqlValue::BigInt(team_id), SqlValue::BigInt(total_points(points) as i64)],
    )
}

/// The rank that `statement` writes, where it is a rank update.
pub open spec fn rank_written(statement: Statement) -> i32 {
    match statement.params@[1] {
        SqlValue::Int(rank) => rank,
        _ => 0,
    }
}

/// Whether `statements` write to each team of `standings` its rank: one
/// update for each team, in the order of the teams, and the ranks written are
/// the rank assignment of the teams.
pub open spec fn writes_ranks(statements: Seq<Statement>, standings: Seq<Standing>) -> bool {
    &&& statements.len() == standings.len()
    &&& forall|i: int|
        0 <= i < statements.len() ==> is_statement(
            #[trigger] statements[i],
            rank_update_text(),
            seq![SqlValue::BigInt(standings[i].id), SqlValue::Int(rank_written(statements[i]))],
        )
    &&& is_rank_assignment(
        standing_keys(standings),
        Seq::new(statements.len(), |i: int| rank_written(statements[i])),
    )
}

/// The statement that lists the ids of all teams: the first step of deriving
/// every score again.
pub fn team_ids_query() -> (statement: Statement)
    ensures
        is_statement(statement, select_ids_text(Table::Teams), Seq::empty()),
{
    select_ids(Table::Teams)
}

/// The statement that fetches the points of the badges that team `team_id`
/// owns.
pub fn owned_points_query(team_id: i64) -> (statement: Statement)
    ensures
        is_statement(statement, owned_points_text(), seq![SqlValue::BigInt(team_id)]),
{
    let mut params: Vec<SqlValue> = Vec::new();
    params.push(SqlValue::BigInt(team_id));
    assert(params@ =~= seq![SqlValue::BigInt(team_id)]);
    Statement {
        text: String::from_str(
            "SELECT badges.points FROM badge_ownerships JOIN badges ON badges.id = badge_ownerships.badge_id WHERE badge_ownerships.team_id = $1",
        ),
        params,
    }
}

/// The statement that writes the score of team `team_id`, which owns badges
/// worth `points`: the score is their sum, 0 for a team without badges.
/// Fails, as the store would, exactly where the sum does not fit the score
/// column.
pub fn score_update(team_id: i64, points: &Vec<i64>) -> (r: Result<Statement, EngineError>)
    ensures
        r is Ok <==> i64::MIN <= total_points(points@) <= i64::MAX,
        r matches Ok(statement) ==> writes_score(statement, team_id, points@),
        r matches Err(e) ==> e matches EngineError::Database(complaint) && complaint@
            == "score out of range"@,
{
    match score_of(points) {
        Some(score) => {
            let mut params: Vec<SqlValue> = Vec::new();
            params.push(SqlValue::BigInt(team_id));
            params.push(SqlValue::BigInt(score));
            assert(params@ =~= seq![SqlValue::BigInt(team_id), SqlValue::BigInt(score)]);
            Ok(
                Statement {
                    text: String::from_str("UPDATE teams SET score = $2 WHERE id = $1"),
                    params,
                },
            )
        },
        None => Err(EngineError::Database(String::from_str("score out of range"))),
    }
}

/// The statement that fetches id, score and name of every team: the first
/// step of deriving the ranks again.
pub fn standings_query() -> (statement: Statement)
    ensures
        is_statement(statement, standings_text(), Seq::empty()),
{
    Statement { text: String::from_str("SELECT id, score, name FROM teams"), params: Vec::new() }
}

/// The statements that write the rank of every team of `standings`. Fails,
/// as the store would, exactly where there are more teams than the rank
/// column can count.
pub fn rank_updates(standings: &Vec<Standing>) -> (r: Result<Vec<Statement>, EngineError>)
    ensures
        r is Ok <==> standings.len() <= i32::MAX,
        r matches Ok(statements) ==> writes_ranks(statements@, standings@),
        r matches Err(e) ==> e matches EngineError::Database(complaint) && complaint@
            == "rank out of range"@,
{
    let ranks = match compute_ranks(standings) {
        Some(ranks) => ranks,
        None => {
            return Err(EngineError::Database(String::from_str("rank out of range")));
        },
    };
    let mut statements: Vec<Statement> = Vec::new();
    let mut i: usize = 0;
    while i < standings.len()
        invariant
            i <= standings.len(),
            ranks.len() == standings.len(),
            statements.len() == i,
            forall|j: int|
                0 <= j < i ==> is_statement(
                    #[trigger] statements[j],
                    rank_update_text(),
                    seq![SqlValue::BigInt(standings[j].id), SqlValue::Int(ranks[j])],
                ),
        decreases standings.len() - i,
    {
        let mut params: Vec<SqlValue> = Vec::new();
        params.push(SqlValue::BigInt(standings[i].id));
        params.push(SqlValue::Int(ranks[i]));
        assert(params@ =~= seq![SqlValue::BigInt(standings[i as int].id), SqlValue::Int(ranks[i as int])]);
        statements.push(
            Statement {
                text: String::from_str("UPDATE teams SET rank = $2 WHERE id = $1"),
                params,
            },
        );
        i = i + 1;
    }
    proof {
        assert forall|j: int| 0 <= j < statements.len() implies rank_written(statements@[j])
            == ranks@[j] by {
            assert(statements@[j].params@ == seq![
                SqlValue::BigInt(standings[j].id),
                SqlValue::Int(ranks[j]),
            ]);
        }
        assert(Seq::new(statements@.len(), |i: int| rank_written(statements@[i])) =~= ranks@);
    }
    Ok(statements)
}

/// Deriving the score of a team again, with no ownership added or removed in
/// between, writes the same score: the two updates have the same text and
/// the same parameters, in whatever order the store handed out the points.
pub proof fn lemma_score_update_repeats(
    team_id: i64,
    first_points: Seq<i64>,
    second_points: Seq<i64>,
    first: Statement,
    second: Statement,
)
    requires
        first_points.to_multiset() == second_points.to_multiset(),
        writes_score(first, team_id, first_points),
        writes_score(second, team_id, second_points),
    ensures
        first.text@ == second.text@,
        first.params@ == second.params@,
{
    lemma_score_ignores_order(first_points, second_points);
}

/// Deriving the ranks again, with no score or name changed in between,
/// writes to every team the rank it had.
pub proof fn lemma_rank_updates_repeat(
    standings: Seq<Standing>,
    first: Seq<Statement>,
    second: Seq<Statement>,
    i: int,
)
    requires
        writes_ranks(first, standings),
        writes_ranks(second, standings),
        0 <= i < standings.len(),
    ensures
        first[i].text@ == second[i].text@,
        first[i].params@ == second[i].params@,
{
    let first_ranks = Seq::new(first.len(), |i: int| rank_written(first[i]));
    let second_ranks = Seq::new(second.len(), |i: int| rank_written(second[i]));
    lemma_ranks_unique(standing_keys(standings), first_ranks, second_ranks);
    assert(first_ranks[i] == second_ranks[i]);
}

} // verus!
