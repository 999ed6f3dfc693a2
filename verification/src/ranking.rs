//! Scores and ranks. A team's score is the sum of the points of the badges
//! it owns. Ranks order all teams by score, highest first, then by name;
//! teams that agree in both keep the order in which they were given.

use vstd::prelude::*;
use crate::schema::Team;
use crate::text::{chars_before, chars_of, lemma_text_order, text_before};

verus! {

/// The sum of `points`.
pub open spec fn total_points(points: Seq<i64>) -> int
    decreases points.len(),
{
    if points.len() == 0 {
        0
    } else {
        total_points(points.drop_last()) + points.last()
    }
}

/// The score of a team that owns badges worth `points`: their sum, which is 0
/// for a team without badges. There is no score where the sum does not fit
/// the score column.
pub fn score_of(points: &Vec<i64>) -> (score: Option<i64>)
    ensures
        score is Some <==> i64::MIN <= total_points(points@) <= i64::MAX,
        score matches Some(s) ==> s == total_points(points@),
{
    let mut sum: i128 = 0;
    let mut i: usize = 0;
    while i < points.len()
        invariant
            i <= points.len(),
            sum == total_points(points@.take(i as int)),
            -0x8000_0000_0000_0000 * i <= sum <= 0x8000_0000_0000_0000 * i,
        decreases points.len() - i,
    {
        assert(points@.take(i as int + 1).drop_last() =~= points@.take(i as int));
        sum = sum + points[i] as i128;
        i = i + 1;
    }
    assert(points@.take(i as int) =~= points@);
    if sum < i64::MIN as i128 || sum > i64::MAX as i128 {
        None
    } else {
        Some(sum as i64)
    }
}

/// What ranks a team: its score and its name.
pub type RankKey = (i64, Seq<char>);

/// Whether a team with key `a` is ranked before one with key `b` on the keys
/// alone: a higher score first, and of two equal scores the name that comes
/// first.
pub open spec fn key_before(a: RankKey, b: RankKey) -> bool {
    a.0 > b.0 || (a.0 == b.0 && text_before(a.1, b.1))
}

/// Whether team `i` is ranked before team `j`: by the keys, and where the
/// keys are the same, by position.
pub open spec fn ahead(keys: Seq<RankKey>, i: int, j: int) -> bool {
    key_before(keys[i], keys[j]) || (!key_before(keys[j], keys[i]) && i < j)
}

/// Whether `order` lists the teams from first to last: every position names
/// a team, every team is named, and a team named earlier is ahead of every
/// team named later.
pub open spec fn is_ranking_order(keys: Seq<RankKey>, order: Seq<usize>) -> bool {
    &&& order.len() == keys.len()
    &&& forall|k: int| 0 <= k < order.len() ==> 0 <= #[trigger] order[k] < keys.len()
    &&& forall|i: usize| i < keys.len() ==> #[trigger] order.contains(i)
    &&& forall|k: int, l: int|
        0 <= k < l < order.len() ==> ahead(keys, #[trigger] order[k] as int, #[trigger] order[l] as int)
}

/// Whether `ranks` gives each team its rank: the ranks are the numbers from 1
/// to the number of teams, each taken, and one team has a lower rank than
/// another exactly where it is ahead of it.
pub open spec fn is_rank_assignment(keys: Seq<RankKey>, ranks: Seq<i32>) -> bool {
    &&& ranks.len() == keys.len()
    &&& forall|i: int| 0 <= i < ranks.len() ==> 1 <= #[trigger] ranks[i] <= keys.len()
    &&& forall|r: i32| 1 <= r <= keys.len() ==> #[trigger] ranks.contains(r)
    &&& forall|i: int, j: int|
        0 <= i < ranks.len() && 0 <= j < ranks.len() ==> (#[trigger] ranks[i] < #[trigger] ranks[j]
            <==> ahead(keys, i, j))
}

/// Being ahead is a strict total order of the teams.
pub proof fn lemma_ahead_order(keys: Seq<RankKey>, i: int, j: int, k: int)
    ensures
        !ahead(keys, i, i),
        ahead(keys, i, j) ==> !ahead(keys, j, i),
        i != j ==> ahead(keys, i, j) || ahead(keys, j, i),
        ahead(keys, i, j) && ahead(keys, j, k) ==> ahead(keys, i, k),
{
    let a = keys[i];
    let b = keys[j];
    let c = keys[k];
    lemma_text_order(a.1, b.1, c.1);
    lemma_text_order(b.1, a.1, c.1);
    lemma_text_order(b.1, c.1, a.1);
    lemma_text_order(c.1, b.1, a.1);
    lemma_text_order(a.1, c.1, b.1);
    lemma_text_order(c.1, a.1, b.1);
}

/// Decides `key_before` on a score and the characters of a name.
fn before(score_a: i64, name_a: &Vec<char>, score_b: i64, name_b: &Vec<char>) -> (r: bool)
    ensures
        r == key_before((score_a, name_a@), (score_b, name_b@)),
{
    score_a > score_b || (score_a == score_b && chars_before(name_a, name_b))
}

/// The order of the teams with the given scores and names, from first to
/// last, as positions in the two vectors.
fn order_by_keys(scores: &Vec<i64>, names: &Vec<Vec<char>>) -> (order: Vec<usize>)
    requires
        scores.len() == names.len(),
    ensures
        is_ranking_order(Seq::new(scores.len() as nat, |i: int| (scores[i], names[i]@)), order@),
{
    let ghost keys = Seq::new(scores.len() as nat, |i: int| (scores[i], names[i]@));
    let n: usize = scores.len();
    let mut order: Vec<usize> = Vec::new();
    let mut i: usize = 0;
    while i < n
        invariant
            n == scores.len(),
            n == names.len(),
            keys == Seq::new(scores.len() as nat, |i: int| (scores[i], names[i]@)),
            i <= n,
            order.len() == i,
            forall|k: int| 0 <= k < order.len() ==> 0 <= #[trigger] order[k] < i,
            forall|j: usize| j < i ==> #[trigger] order@.contains(j),
            forall|k: int, l: int|
                0 <= k < l < order.len() ==> ahead(keys, #[trigger] order[k] as int, #[trigger] order[l] as int),
        decreases n - i,
    {
        let mut p: usize = i;
        while p > 0 && before(scores[i], &names[i], scores[order[p - 1]], &names[order[p - 1]])
            invariant
                n == scores.len(),
                n == names.len(),
                keys == Seq::new(scores.len() as nat, |i: int| (scores[i], names[i]@)),
                i < n,
                order.len() == i,
                p <= i,
                forall|k: int| 0 <= k < order.len() ==> 0 <= #[trigger] order[k] < i,
                forall|k: int| p <= k < order.len() ==> key_before(keys[i as int], keys[#[trigger] order[k] as int]),
            decreases p,
        {
            p = p - 1;
        }
        let ghost old_order = order@;
        order.insert(p, i);
        proof {
            let new_order = order@;
            assert(new_order == old_order.insert(p as int, i));
            assert forall|k: int, l: int| 0 <= k < l < new_order.len() implies ahead(
                keys,
                #[trigger] new_order[k] as int,
                #[trigger] new_order[l] as int,
            ) by {
                if l < p {
                    assert(new_order[k] == old_order[k] && new_order[l] == old_order[l]);
                } else if l == p {
                    // the new team goes behind the one at p - 1 and all before it
                    assert(new_order[k] == old_order[k]);
                    let last = old_order[p - 1] as int;
                    assert(ahead(keys, last, i as int));
                    if k < p - 1 {
                        assert(ahead(keys, old_order[k] as int, old_order[p - 1] as int));
                        lemma_ahead_order(keys, old_order[k] as int, last, i as int);
                    }
                } else if k < p {
                    assert(new_order[k] == old_order[k] && new_order[l] == old_order[l - 1]);
                } else if k == p {
                    assert(new_order[l] == old_order[l - 1]);
                    assert(key_before(keys[i as int], keys[old_order[l - 1] as int]));
                } else {
                    assert(new_order[k] == old_order[k - 1] && new_order[l] == old_order[l - 1]);
                }
            }
            assert forall|j: usize| j < i + 1 implies #[trigger] new_order.contains(j) by {
                if j == i {
                    assert(new_order[p as int] == j);
                } else {
                    assert(old_order.contains(j));
                    let k = choose|k: int| 0 <= k < old_order.len() && old_order[k] == j;
                    if k < p {
                        assert(new_order[k] == j);
                    } else {
                        assert(new_order[k + 1] == j);
                    }
                }
            }
            assert forall|k: int| 0 <= k < new_order.len() implies 0 <= #[trigger] new_order[k] < i
                + 1 by {
                if k < p {
                    assert(new_order[k] == old_order[k]);
                } else if k > p {
                    assert(new_order[k] == old_order[k - 1]);
                }
            }
        }
        i = i + 1;
    }
    order
}

/// Two orders of the same teams agree on their first `n` positions.
proof fn lemma_orders_agree(keys: Seq<RankKey>, first: Seq<usize>, second: Seq<usize>, n: int)
    requires
        is_ranking_order(keys, first),
        is_ranking_order(keys, second),
        0 <= n <= keys.len(),
    ensures
        forall|j: int| 0 <= j < n ==> first[j] == second[j],
    decreases n,
{
    if n > 0 {
        lemma_orders_agree(keys, first, second, n - 1);
        let k = n - 1;
        let a = first[k];
        let b = second[k];
        if a != b {
            lemma_ahead_order(keys, a as int, b as int, a as int);
            assert(second.contains(a));
            let l = choose|l: int| 0 <= l < second.len() && second[l] == a;
            if l < k {
                assert(first[l] == a);
                assert(ahead(keys, first[l] as int, first[k] as int));
            }
            assert(ahead(keys, second[k] as int, second[l] as int));
            assert(first.contains(b));
            let m = choose|m: int| 0 <= m < first.len() && first[m] == b;
            if m < k {
                assert(second[m] == b);
                assert(ahead(keys, second[m] as int, second[k] as int));
                lemma_ahead_order(keys, b as int, b as int, b as int);
            }
            assert(ahead(keys, first[k] as int, first[m] as int));
        }
    }
}

/// The teams decide their order: there is one way only to list them from
/// first to last.
pub proof fn lemma_ranking_order_unique(keys: Seq<RankKey>, first: Seq<usize>, second: Seq<usize>)
    requires
        is_ranking_order(keys, first),
        is_ranking_order(keys, second),
    ensures
        first == second,
{
    lemma_orders_agree(keys, first, second, keys.len() as int);
    assert(first =~= second);
}

/// The position of team `i` in `order`, or any position where it has none.
pub open spec fn position_in(order: Seq<usize>, i: int) -> int {
    choose|l: int| 0 <= l < order.len() && order[l] == i
}

/// The listing order and the ranks agree: the team listed at position `k`,
/// counted from 0, has rank `k + 1`.
pub proof fn lemma_listing_follows_ranks(
    keys: Seq<RankKey>,
    order: Seq<usize>,
    ranks: Seq<i32>,
    k: int,
)
    requires
        is_ranking_order(keys, order),
        is_rank_assignment(keys, ranks),
        keys.len() <= i32::MAX,
        0 <= k < keys.len(),
    ensures
        ranks[order[k] as int] == k + 1,
{
    let by_position = Seq::new(keys.len(), |i: int| (position_in(order, i) + 1) as i32);
    assert forall|l: int| 0 <= l < order.len() implies by_position[#[trigger] order[l] as int] == l
        + 1 by {
        let i = order[l] as int;
        let p = position_in(order, i);
        assert(0 <= p < order.len() && order[p] == i);
        lemma_ahead_order(keys, i, i, i);
        if p < l {
            assert(ahead(keys, order[p] as int, order[l] as int));
        } else if l < p {
            assert(ahead(keys, order[l] as int, order[p] as int));
        }
    }
    lemma_ranks_of_order(keys, order, by_position);
    lemma_ranks_unique(keys, by_position, ranks);
}

/// A team as the ranking sees it.
#[derive(Debug, Clone, PartialEq, Eq)]
pub struct Standing {
    pub id: i64,
    pub score: i64,
    pub name: String,
}

/// The keys of `standings`, in the same order.
pub open spec fn standing_keys(standings: Seq<Standing>) -> Seq<RankKey> {
    Seq::new(standings.len(), |i: int| (standings[i].score, standings[i].name@))
}

/// The keys of `teams`, in the same order.
pub open spec fn team_keys(teams: Seq<Team>) -> Seq<RankKey> {
    Seq::new(teams.len(), |i: int| (teams[i].score, teams[i].name@))
}

/// The order of the teams of `standings`, from first to last, as positions
/// in `standings`: by score, highest first, then by name; teams that agree
/// in both stay in the order given.
pub fn ranking_order(standings: &Vec<Standing>) -> (order: Vec<usize>)
    ensures
        is_ranking_order(standing_keys(standings@), order@),
{
    let n: usize = standings.len();
    let mut scores: Vec<i64> = Vec::new();
    let mut names: Vec<Vec<char>> = Vec::new();
    let mut i: usize = 0;
    while i < n
        invariant
            n == standings.len(),
            i <= n,
            scores.len() == i,
            names.len() == i,
            forall|j: int| 0 <= j < i ==> #[trigger] scores[j] == standings[j].score,
            forall|j: int| 0 <= j < i ==> #[trigger] names[j]@ == standings[j].name@,
        decreases n - i,
    {
        scores.push(standings[i].score);
        names.push(chars_of(standings[i].name.as_str()));
        i = i + 1;
    }
    assert(Seq::new(scores.len() as nat, |i: int| (scores[i], names[i]@)) =~= standing_keys(
        standings@,
    ));
    order_by_keys(&scores, &names)
}

/// The rank of every team of `standings`, in the same order: 1 for the team
/// with the highest score, and so on without a gap. Of two teams with the
/// same score the one whose name comes first has the lower rank; of two with
/// the same score and name, the one given first. There are no ranks where
/// there are more teams than the rank column can count.
pub fn compute_ranks(standings: &Vec<Standing>) -> (r: Option<Vec<i32>>)
    ensures
        r is Some <==> standings.len() <= i32::MAX,
        r matches Some(ranks) ==> is_rank_assignment(standing_keys(standings@), ranks@),
{
    let n: usize = standings.len();
    if n > i32::MAX as usize {
        return None;
    }
    let ghost keys = standing_keys(standings@);
    let order = ranking_order(standings);
    let mut ranks: Vec<i32> = Vec::new();
    let mut i: usize = 0;
    while i < n
        invariant
            i <= n,
            ranks.len() == i,
        decreases n - i,
    {
        ranks.push(0);
        i = i + 1;
    }
    let mut k: usize = 0;
    while k < n
        invariant
            n == standings.len(),
            n <= i32::MAX,
            keys.len() == n,
            k <= n,
            ranks.len() == n,
            is_ranking_order(keys, order@),
            forall|l: int| 0 <= l < k ==> ranks[#[trigger] order[l] as int] == l + 1,
        decreases n - k,
    {
        let ghost before = ranks@;
        ranks.set(order[k], (k + 1) as i32);
        proof {
            assert forall|l: int| 0 <= l < k + 1 implies ranks[#[trigger] order[l] as int] == l
                + 1 by {
                if l < k {
                    lemma_ahead_order(keys, order[l] as int, order[l] as int, order[l] as int);
                    assert(ahead(keys, order[l] as int, order[k as int] as int));
                    assert(before[order[l] as int] == l + 1);
                }
            }
        }
        k = k + 1;
    }
    proof {
        lemma_ranks_of_order(keys, order@, ranks@);
    }
    Some(ranks)
}

/// Ranks that follow a ranking order, position by position, are the rank
/// assignment.
proof fn lemma_ranks_of_order(keys: Seq<RankKey>, order: Seq<usize>, ranks: Seq<i32>)
    requires
        is_ranking_order(keys, order),
        ranks.len() == keys.len(),
        keys.len() <= i32::MAX,
        forall|l: int| 0 <= l < order.len() ==> ranks[#[trigger] order[l] as int] == l + 1,
    ensures
        is_rank_assignment(keys, ranks),
{
    let n = keys.len() as int;
    assert forall|i: int| 0 <= i < n implies 1 <= #[trigger] ranks[i] <= n by {
        assert(order.contains(i as usize));
    }
    assert forall|r: i32| 1 <= r <= n implies #[trigger] ranks.contains(r) by {
        assert(ranks[order[r - 1] as int] == r);
    }
    assert forall|i: int, j: int| 0 <= i < n && 0 <= j < n implies (#[trigger] ranks[i]
        < #[trigger] ranks[j] <==> ahead(keys, i, j)) by {
        assert(order.contains(i as usize));
        assert(order.contains(j as usize));
        let k = choose|k: int| 0 <= k < order.len() && order[k] == i as usize;
        let l = choose|l: int| 0 <= l < order.len() && order[l] == j as usize;
        assert(ranks[order[k] as int] == k + 1);
        assert(ranks[order[l] as int] == l + 1);
        lemma_ahead_order(keys, i, j, i);
        if k < l {
            assert(ahead(keys, order[k] as int, order[l] as int));
        } else if l < k {
            assert(ahead(keys, order[l] as int, order[k] as int));
        }
    }
}

/// Where no two teams have both the same score and the same name, ranks go
/// by score and name alone: one team's rank is lower than another's exactly
/// where its score is higher, or the scores are the same and its name comes
/// first.
pub proof fn lemma_rank_follows_score_and_name(keys: Seq<RankKey>, ranks: Seq<i32>, a: int, b: int)
    requires
        is_rank_assignment(keys, ranks),
        0 <= a < keys.len(),
        0 <= b < keys.len(),
        a == b || keys[a] != keys[b],
    ensures
        ranks[a] < ranks[b] <==> keys[a].0 > keys[b].0 || (keys[a].0 == keys[b].0 && text_before(
            keys[a].1,
            keys[b].1,
        )),
{
    lemma_text_order(keys[a].1, keys[b].1, keys[a].1);
    lemma_text_order(keys[b].1, keys[a].1, keys[a].1);
    assert(ranks[a] < ranks[b] <==> ahead(keys, a, b));
}

/// No two teams share a rank.
pub proof fn lemma_ranks_distinct(keys: Seq<RankKey>, ranks: Seq<i32>, a: int, b: int)
    requires
        is_rank_assignment(keys, ranks),
        0 <= a < keys.len(),
        0 <= b < keys.len(),
        a != b,
    ensures
        ranks[a] != ranks[b],
{
    lemma_ahead_order(keys, a, b, a);
    assert(ranks[a] < ranks[b] <==> ahead(keys, a, b));
    assert(ranks[b] < ranks[a] <==> ahead(keys, b, a));
}

/// The team of rank `v` is the same under any two rank assignments of the
/// same teams.
proof fn lemma_same_rank(keys: Seq<RankKey>, first: Seq<i32>, second: Seq<i32>, v: int, i: int)
    requires
        is_rank_assignment(keys, first),
        is_rank_assignment(keys, second),
        0 <= i < keys.len(),
        first[i] == v,
    ensures
        second[i] == v,
    decreases v,
{
    let w = second[i];
    if w < v {
        assert(first.contains(w));
        let other = choose|o: int| 0 <= o < first.len() && first[o] == w;
        lemma_same_rank(keys, first, second, w as int, other);
        if other != i {
            lemma_ranks_distinct(keys, second, other, i);
        }
    } else if w > v {
        assert(second.contains(v as i32));
        let other = choose|o: int| 0 <= o < second.len() && second[o] == v as i32;
        assert(second[other] < second[i] <==> ahead(keys, other, i));
        assert(first[other] < first[i] <==> ahead(keys, other, i));
        lemma_same_rank(keys, first, second, first[other] as int, other);
    }
}

/// The teams decide their ranks: whenever ranks are derived again from the
/// same scores and names, every team gets the rank it had.
pub proof fn lemma_ranks_unique(keys: Seq<RankKey>, first: Seq<i32>, second: Seq<i32>)
    requires
        is_rank_assignment(keys, first),
        is_rank_assignment(keys, second),
    ensures
        first == second,
{
    assert forall|i: int| 0 <= i < first.len() implies first[i] == second[i] by {
        lemma_same_rank(keys, first, second, first[i] as int, i);
    }
    assert(first =~= second);
}

/// Taking one entry out of `points` takes its value out of the sum.
pub proof fn lemma_total_points_remove(points: Seq<i64>, i: int)
    requires
        0 <= i < points.len(),
    ensures
        total_points(points) == total_points(points.remove(i)) + points[i],
    decreases points.len(),
{
    if i == points.len() - 1 {
        assert(points.remove(i) =~= points.drop_last());
    } else {
        lemma_total_points_remove(points.drop_last(), i);
        assert(points.drop_last().remove(i) =~= points.remove(i).drop_last());
        assert(points.remove(i).last() == points.last());
    }
}

/// The score depends on the owned badges alone, not on the order in which
/// the store hands their points out: as long as the ownerships are the same,
/// deriving the score again gives the same score.
pub proof fn lemma_score_ignores_order(first: Seq<i64>, second: Seq<i64>)
    requires
        first.to_multiset() == second.to_multiset(),
    ensures
        total_points(first) == total_points(second),
    decreases first.len(),
{
    broadcast use vstd::seq_lib::group_to_multiset_ensures;

    first.to_multiset_ensures();
    second.to_multiset_ensures();
    if first.len() > 0 {
        let x = first.last();
        assert(first.contains(x)) by {
            assert(first[first.len() - 1] == x);
        }
        assert(first.to_multiset().count(x) > 0);
        assert(second.to_multiset().count(x) > 0);
        assert(second.contains(x));
        let i = choose|i: int| 0 <= i < second.len() && second[i] == x;
        lemma_total_points_remove(second, i);
        assert(first.drop_last() =~= first.remove(first.len() - 1));
        assert(first.drop_last().to_multiset() =~= second.remove(i).to_multiset());
        lemma_score_ignores_order(first.drop_last(), second.remove(i));
    } else {
        assert(second.len() == 0);
    }
}

/// Whether `listed` holds the teams of `teams` in the order `order`.
pub open spec fn lists_by(teams: Seq<Team>, listed: Seq<Team>, order: Seq<usize>) -> bool {
    &&& is_ranking_order(team_keys(teams), order)
    &&& listed.len() == teams.len()
    &&& forall|k: int| 0 <= k < listed.len() ==> #[trigger] listed[k] == teams[order[k] as int]
}

/// Whether `listed` holds the teams of `teams` from first to last by rank.
pub open spec fn is_listing(teams: Seq<Team>, listed: Seq<Team>) -> bool {
    exists|order: Seq<usize>| lists_by(teams, listed, order)
}

/// There is one listing only of the same teams.
pub proof fn lemma_listing_unique(teams: Seq<Team>, first: Seq<Team>, second: Seq<Team>)
    requires
        is_listing(teams, first),
        is_listing(teams, second),
    ensures
        first == second,
{
    let one = choose|order: Seq<usize>| lists_by(teams, first, order);
    let other = choose|order: Seq<usize>| lists_by(teams, second, order);
    lemma_ranking_order_unique(team_keys(teams), one, other);
    assert(first =~= second);
}

/// The teams in the order in which they are listed: by score, highest first,
/// then by name; teams that agree in both stay in the order given.
pub fn sort_teams(teams: Vec<Team>) -> (listed: Vec<Team>)
    ensures
        is_listing(teams@, listed@),
{
    let n: usize = teams.len();
    let ghost keys = team_keys(teams@);
    let mut scores: Vec<i64> = Vec::new();
    let mut names: Vec<Vec<char>> = Vec::new();
    let mut i: usize = 0;
    while i < n
        invariant
            n == teams.len(),
            i <= n,
            scores.len() == i,
            names.len() == i,
            forall|j: int| 0 <= j < i ==> #[trigger] scores[j] == teams[j].score,
            forall|j: int| 0 <= j < i ==> #[trigger] names[j]@ == teams[j].name@,
        decreases n - i,
    {
        scores.push(teams[i].score);
        names.push(chars_of(teams[i].name.as_str()));
        i = i + 1;
    }
    assert(Seq::new(scores.len() as nat, |i: int| (scores[i], names[i]@)) =~= keys);
    let order = order_by_keys(&scores, &names);
    proof {
        assert forall|k: int, l: int| 0 <= k < l < order.len() implies order[k] != order[l] by {
            lemma_ahead_order(keys, order[k] as int, order[k] as int, order[k] as int);
            assert(ahead(keys, order[k] as int, order[l] as int));
        }
    }
    let listed = arrange(teams, &order);
    assert(lists_by(teams@, listed@, order@));
    listed
}

/// Moves the items into the order that `order` gives: the item at position
/// `k` of the result is the one that stood at `order[k]`.
fn arrange<T>(items: Vec<T>, order: &Vec<usize>) -> (arranged: Vec<T>)
    requires
        order.len() == items.len(),
        forall|k: int| 0 <= k < order.len() ==> #[trigger] order[k] < items.len(),
        forall|k: int, l: int| 0 <= k < l < order.len() ==> order[k] != order[l],
    ensures
        arranged.len() == items.len(),
        forall|k: int| 0 <= k < arranged.len() ==> #[trigger] arranged[k] == items[order[k] as int],
{
    let n: usize = items.len();
    let mut rest = items;
    let mut slots: Vec<Option<T>> = Vec::new();
    // the slots hold the items from last to first
    while rest.len() > 0
        invariant
            n == items.len(),
            rest.len() + slots.len() == n,
            rest@ == items@.take(rest.len() as int),
            forall|j: int| 0 <= j < slots.len() ==> #[trigger] slots[j] == Some(items[n - 1 - j]),
        decreases rest.len(),
    {
        let item = rest.pop();
        slots.push(item);
        assert(rest@ =~= items@.take(rest.len() as int));
    }
    let mut arranged: Vec<T> = Vec::new();
    let mut k: usize = 0;
    while k < n
        invariant
            n == items.len(),
            n == order.len(),
            slots.len() == n,
            k <= n,
            arranged.len() == k,
            forall|l: int| 0 <= l < order.len() ==> #[trigger] order[l] < n,
            forall|l: int, m: int| 0 <= l < m < order.len() ==> order[l] != order[m],
            forall|l: int| 0 <= l < k ==> #[trigger] arranged[l] == items[order[l] as int],
            forall|l: int| k <= l < n ==> slots[n - 1 - #[trigger] order[l]] == Some(items[order[l] as int]),
        decreases n - k,
    {
        let at: usize = n - 1 - order[k];
        let mut taken: Option<T> = None;
        slots.set_and_swap(at, &mut taken);
        arranged.push(taken.unwrap());
        k = k + 1;
    }
    arranged
}

} // verus!
