use star_tec_backend::error::EngineError;
use star_tec_backend::ranking::{compute_ranks, ranking_order, score_of, sort_teams, Standing};
use star_tec_backend::recompute::{
    owned_points_query, rank_updates, score_update, standings_query, team_ids_query,
};
use star_tec_backend::schema::Team;
use star_tec_backend::statement::{SqlValue, Statement};

fn standing(id: i64, score: i64, name: &str) -> Standing {
    Standing { id, score, name: String::from(name) }
}

fn ranks(standings: &Vec<Standing>) -> Vec<i32> {
    compute_ranks(standings).unwrap()
}

fn team(id: i64, score: i64, name: &str) -> Team {
    let mut team = Team::new();
    team.id = id;
    team.score = score;
    team.name = String::from(name);
    team
}

#[test]
fn a_team_without_badges_scores_zero() {
    assert_eq!(score_of(&vec![]), Some(0));
}

#[test]
fn the_score_is_the_sum_of_the_points() {
    assert_eq!(score_of(&vec![100]), Some(100));
    assert_eq!(score_of(&vec![100, 50, 25]), Some(175));
    assert_eq!(score_of(&vec![100, -30]), Some(70));
    assert_eq!(score_of(&vec![-10, -20]), Some(-30));
}

#[test]
fn the_same_badge_owned_twice_counts_twice() {
    assert_eq!(score_of(&vec![40, 40]), Some(80));
}

#[test]
fn the_score_is_the_same_when_derived_again() {
    let points = vec![7, 11, -3, 1000];
    assert_eq!(score_of(&points), score_of(&points));
    assert_eq!(score_of(&points), Some(1015));
}

#[test]
fn a_sum_that_passes_through_large_values_still_counts() {
    assert_eq!(score_of(&vec![i64::MAX, 1, -2]), Some(i64::MAX - 1));
    assert_eq!(score_of(&vec![i64::MIN, i64::MAX]), Some(-1));
}

#[test]
fn a_sum_that_does_not_fit_is_no_score() {
    assert_eq!(score_of(&vec![i64::MAX, 1]), None);
    assert_eq!(score_of(&vec![i64::MIN, -1]), None);
    assert_eq!(score_of(&vec![i64::MAX, i64::MAX, i64::MAX]), None);
}

#[test]
fn the_limits_of_the_score_column_fit() {
    assert_eq!(score_of(&vec![i64::MAX]), Some(i64::MAX));
    assert_eq!(score_of(&vec![i64::MIN]), Some(i64::MIN));
    assert_eq!(score_of(&vec![i64::MAX - 1, 1]), Some(i64::MAX));
}

#[test]
fn no_team_no_rank() {
    assert_eq!(compute_ranks(&vec![]), Some(vec![]));
}

#[test]
fn one_team_is_first() {
    assert_eq!(compute_ranks(&vec![standing(5, -100, "Solo")]), Some(vec![1]));
}

#[test]
fn the_higher_score_ranks_first() {
    let standings = vec![standing(1, 10, "A"), standing(2, 30, "B"), standing(3, 20, "C")];
    assert_eq!(ranks(&standings), vec![3, 1, 2]);
}

#[test]
fn equal_scores_rank_by_name() {
    let standings = vec![standing(1, 50, "Zeta"), standing(2, 50, "Alpha"), standing(3, 50, "Mid")];
    assert_eq!(ranks(&standings), vec![3, 1, 2]);
}

#[test]
fn score_counts_before_name() {
    let standings = vec![standing(1, 50, "Alpha"), standing(2, 60, "Zeta")];
    assert_eq!(ranks(&standings), vec![2, 1]);
}

#[test]
fn equal_score_and_name_rank_in_the_order_given() {
    let standings = vec![standing(1, 50, "Twin"), standing(2, 70, "Top"), standing(3, 50, "Twin")];
    assert_eq!(ranks(&standings), vec![2, 1, 3]);
}

#[test]
fn negative_scores_rank_last() {
    let standings = vec![standing(1, -5, "A"), standing(2, 0, "B"), standing(3, -50, "C")];
    assert_eq!(ranks(&standings), vec![2, 1, 3]);
}

#[test]
fn ranks_are_the_numbers_from_one_without_gap() {
    let standings = vec![
        standing(1, 10, "e"),
        standing(2, 10, "d"),
        standing(3, 99, "c"),
        standing(4, 10, "d"),
        standing(5, -1, "a"),
        standing(6, 99, "b"),
        standing(7, 0, ""),
    ];
    let ranks = ranks(&standings);
    let mut sorted = ranks.clone();
    sorted.sort();
    assert_eq!(sorted, vec![1, 2, 3, 4, 5, 6, 7]);
    assert_eq!(ranks, vec![5, 3, 2, 4, 7, 1, 6]);
}

#[test]
fn a_lower_rank_means_higher_score_or_earlier_name() {
    let standings = vec![
        standing(1, 10, "e"),
        standing(2, 10, "d"),
        standing(3, 99, "c"),
        standing(5, -1, "a"),
        standing(6, 99, "b"),
    ];
    let ranks = ranks(&standings);
    for a in 0..standings.len() {
        for b in 0..standings.len() {
            let by_keys = standings[a].score > standings[b].score
                || (standings[a].score == standings[b].score && standings[a].name < standings[b].name);
            assert_eq!(ranks[a] < ranks[b], by_keys);
        }
    }
}

#[test]
fn ranks_are_the_same_when_derived_again() {
    let standings = vec![standing(1, 10, "e"), standing(2, 10, "d"), standing(3, 99, "c")];
    assert_eq!(compute_ranks(&standings), compute_ranks(&standings));
}

#[test]
fn ranks_do_not_depend_on_ids() {
    let one = vec![standing(1, 10, "e"), standing(2, 10, "d"), standing(3, 99, "c")];
    let other = vec![standing(30, 10, "e"), standing(20, 10, "d"), standing(10, 99, "c")];
    assert_eq!(compute_ranks(&one), compute_ranks(&other));
}

#[test]
fn the_order_lists_positions_from_first_to_last() {
    let standings = vec![standing(1, 10, "a"), standing(2, 30, "z"), standing(3, 20, "c"), standing(4, 30, "b")];
    assert_eq!(ranking_order(&standings), vec![3, 1, 2, 0]);
    assert_eq!(ranks(&standings), vec![4, 2, 3, 1]);
    assert_eq!(ranking_order(&vec![]), Vec::<usize>::new());
}

#[test]
fn the_score_does_not_depend_on_the_order_of_the_points() {
    assert_eq!(score_of(&vec![5, -7, 100, 3]), Some(101));
    assert_eq!(score_of(&vec![3, 100, -7, 5]), Some(101));
    assert_eq!(score_of(&vec![100, 5, 3, -7]), Some(101));
}

#[test]
fn teams_are_listed_by_score_then_name() {
    let teams = vec![team(1, 10, "Beta"), team(2, 30, "Gamma"), team(3, 10, "Alpha"), team(4, 20, "Delta")];
    let listed = sort_teams(teams);
    let ids: Vec<i64> = listed.iter().map(|t| t.id).collect();
    assert_eq!(ids, vec![2, 4, 3, 1]);
    assert_eq!(listed[0].name, "Gamma");
    assert_eq!(listed[3].score, 10);
}

#[test]
fn listing_keeps_teams_that_tie_in_order() {
    let teams = vec![team(1, 10, "Same"), team(2, 10, "Same"), team(3, 10, "Same")];
    let ids: Vec<i64> = sort_teams(teams).iter().map(|t| t.id).collect();
    assert_eq!(ids, vec![1, 2, 3]);
}

#[test]
fn listing_nothing_gives_nothing() {
    assert!(sort_teams(vec![]).is_empty());
}

#[test]
fn the_score_is_written_with_the_team_id_first() {
    let statement = score_update(7, &vec![100, 50, -25]).unwrap();
    assert_eq!(statement.text, "UPDATE teams SET score = $2 WHERE id = $1");
    assert_eq!(statement.params, vec![SqlValue::BigInt(7), SqlValue::BigInt(125)]);
}

#[test]
fn a_team_without_badges_is_written_a_zero() {
    let statement = score_update(7, &vec![]).unwrap();
    assert_eq!(statement.params, vec![SqlValue::BigInt(7), SqlValue::BigInt(0)]);
}

#[test]
fn a_score_out_of_range_is_a_database_failure() {
    assert_eq!(
        score_update(7, &vec![i64::MAX, 1]),
        Err(EngineError::Database(String::from("score out of range")))
    );
}

#[test]
fn the_recompute_queries() {
    assert_eq!(team_ids_query(), Statement { text: String::from("SELECT id FROM teams"), params: vec![] });
    assert_eq!(
        owned_points_query(3),
        Statement {
            text: String::from(
                "SELECT badges.points FROM badge_ownerships JOIN badges ON badges.id = badge_ownerships.badge_id WHERE badge_ownerships.team_id = $1"
            ),
            params: vec![SqlValue::BigInt(3)],
        }
    );
    assert_eq!(
        standings_query(),
        Statement { text: String::from("SELECT id, score, name FROM teams"), params: vec![] }
    );
}

#[test]
fn every_team_is_written_its_rank() {
    let standings = vec![standing(11, 10, "A"), standing(22, 30, "B"), standing(33, 20, "C")];
    let statements = rank_updates(&standings).unwrap();
    assert_eq!(statements.len(), 3);
    for statement in statements.iter() {
        assert_eq!(statement.text, "UPDATE teams SET rank = $2 WHERE id = $1");
    }
    assert_eq!(statements[0].params, vec![SqlValue::BigInt(11), SqlValue::Int(3)]);
    assert_eq!(statements[1].params, vec![SqlValue::BigInt(22), SqlValue::Int(1)]);
    assert_eq!(statements[2].params, vec![SqlValue::BigInt(33), SqlValue::Int(2)]);
}
