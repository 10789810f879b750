use vstd::prelude::*;
use crate::common::ABILITY_COUNT;

verus! {

/// Points a player may spend on base scores with the point-buy method.
pub const POINT_BUY_BUDGET: usize = 27;

/// Why a point-buy input was refused.
#[derive(Clone, Copy, Debug, PartialEq, Eq, Structural)]
pub enum PointBuyError {
    /// A score lies outside 8..=15.
    OutOfRange,
    /// The scores together cost more than the budget.
    OverBudget,
}

/// Whether a base score can be bought.
pub open spec fn buyable(score: usize) -> bool {
    8 <= score <= 15
}

/// Cumulative cost of buying a base score: 8 is free, each step up to 13 costs
/// one point, and 14 and 15 cost two points each.
pub open spec fn score_cost(score: int) -> int {
    if score <= 13 {
        score - 8
    } else if score == 14 {
        7
    } else {
        9
    }
}

/// Whether every one of six scores can be bought.
pub open spec fn all_buyable(points: Seq<usize>) -> bool {
    forall|i: int| 0 <= i < 6 ==> buyable(#[trigger] points[i])
}

/// What six scores cost together.
pub open spec fn total_cost(points: Seq<usize>) -> int {
    score_cost(points[0] as int) + score_cost(points[1] as int) + score_cost(points[2] as int)
        + score_cost(points[3] as int) + score_cost(points[4] as int) + score_cost(
        points[5] as int,
    )
}

/// Outcome of a point-buy check: the budget left over, or why the scores were
/// refused. A score out of range is reported before the budget is looked at.
pub open spec fn point_buy_outcome(points: Seq<usize>) -> Result<usize, PointBuyError> {
    if !all_buyable(points) {
        Err(PointBuyError::OutOfRange)
    } else if total_cost(points) > POINT_BUY_BUDGET {
        Err(PointBuyError::OverBudget)
    } else {
        Ok((POINT_BUY_BUDGET - total_cost(points)) as usize)
    }
}

/// Cost of one base score.
pub fn point_cost(score: usize) -> (r: usize)
    requires
        buyable(score),
    ensures
        r == score_cost(score as int),
{
    if score <= 13 {
        score - 8
    } else if score == 14 {
        7
    } else {
        9
    }
}

/// Checks six base scores against the point-buy rules and returns the budget
/// left over.
pub fn check_point_buy(points: [usize; 6]) -> (r: Result<usize, PointBuyError>)
    ensures
        r == point_buy_outcome(points@),
{
    let mut i: usize = 0;
    while i < ABILITY_COUNT
        invariant
            i <= ABILITY_COUNT,
            forall|k: int| 0 <= k < i ==> buyable(#[trigger] points@[k]),
        decreases ABILITY_COUNT - i,
    {
        if points[i] < 8 || points[i] > 15 {
            return Err(PointBuyError::OutOfRange);
        }
        i = i + 1;
    }
    let mut sum: usize = 0;
    let mut j: usize = 0;
    while j < ABILITY_COUNT
        invariant
            j <= ABILITY_COUNT,
            all_buyable(points@),
            sum == partial_cost(points@, j as int),
            sum <= 9 * j,
        decreases ABILITY_COUNT - j,
    {
        sum = sum + point_cost(points[j]);
        j = j + 1;
    }
    assert(sum == total_cost(points@)) by {
        reveal_with_fuel(partial_cost, 7);
    }
    if sum <= POINT_BUY_BUDGET {
        Ok(POINT_BUY_BUDGET - sum)
    } else {
        Err(PointBuyError::OverBudget)
    }
}

/// Cost of the first `n` of six scores.
pub open spec fn partial_cost(points: Seq<usize>, n: int) -> int
    decreases n,
{
    if n <= 0 {
        0
    } else {
        partial_cost(points, n - 1) + score_cost(points[n - 1] as int)
    }
}

/// Base score bought with a given number of points, for inputs written as
/// point amounts: up to 5 points raise 8 one step each, 7 points buy 14 and
/// any other amount buys 15.
pub open spec fn score_for_points(points: u8) -> u8 {
    if points < 6 {
        (points + 8) as u8
    } else if points == 7 {
        14
    } else {
        15
    }
}

/// Turns six point amounts into the base scores they buy.
pub fn calculate_point_buy(points: [u8; 6]) -> (r: [u8; 6])
    ensures
        forall|i: int| 0 <= i < 6 ==> #[trigger] r@[i] == score_for_points(points@[i]),
{
    let mut assigned: [u8; 6] = [0, 0, 0, 0, 0, 0];
    let mut i: usize = 0;
    while i < ABILITY_COUNT
        invariant
            i <= ABILITY_COUNT,
            forall|k: int| 0 <= k < i ==> #[trigger] assigned@[k] == score_for_points(points@[k]),
        decreases ABILITY_COUNT - i,
    {
        let p: u8 = points[i];
        let s: u8 = if p < 6 {
            p + 8
        } else if p == 7 {
            14
        } else {
            15
        };
        assigned[i] = s;
        i = i + 1;
    }
    assigned
}

/// A point amount that the cost table prices, turned into a score, costs
/// exactly that amount.
pub proof fn lemma_points_round_trip(points: u8)
    requires
        points <= 5 || points == 7 || points == 9,
    ensures
        buyable(score_for_points(points) as usize),
        score_cost(score_for_points(points) as int) == points,
{
}

/// Whether six indices name each of the six pool positions exactly once.
pub open spec fn is_permutation(s: Seq<usize>) -> bool {
    &&& s.len() == 6
    &&& forall|i: int| 0 <= i < 6 ==> #[trigger] s[i] < 6
    &&& forall|i: int, j: int| 0 <= i < 6 && 0 <= j < 6 && i != j ==> s[i] != s[j]
}

/// Checks that an assignment sequence is a permutation of 0..6.
pub fn is_valid_sequence(sequence: [usize; 6]) -> (r: bool)
    ensures
        r == is_permutation(sequence@),
{
    let mut i: usize = 0;
    while i < ABILITY_COUNT
        invariant
            i <= ABILITY_COUNT,
            forall|k: int| 0 <= k < i ==> #[trigger] sequence@[k] < 6,
            forall|k: int, l: int|
                0 <= k < i && 0 <= l < i && k != l ==> sequence@[k] != sequence@[l],
        decreases ABILITY_COUNT - i,
    {
        if sequence[i] >= ABILITY_COUNT {
            return false;
        }
        let mut j: usize = 0;
        while j < i
            invariant
                j <= i < ABILITY_COUNT,
                forall|l: int| 0 <= l < j ==> sequence@[l] != sequence@[i as int],
            decreases i - j,
        {
            if sequence[j] == sequence[i] {
                return false;
            }
            j = j + 1;
        }
        i = i + 1;
    }
    true
}

} // verus!
