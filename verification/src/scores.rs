//! The win matrix of a generation: how a round robin is counted, what its
//! totals are, and who is champion.
use vstd::prelude::*;
use crate::random::total_weight;
use crate::rules::GameResult;
use crate::sums::{sum_bounds, sum_congruent, sum_of_constant, sum_of_sums, sum_swap, sum_to};

verus! {

/// The results of a round robin: entry `[i][j]` is the game that member `i`
/// played as White against member `j` as Black.
pub type ResultTable = Vec<Vec<Option<GameResult>>>;

/// The largest population that the engine takes: with it every sum over a
/// win matrix fits the integers it is kept in.
pub const MAX_POPULATION: usize = 0x4000_0000;

/// Whether `table` has `n` rows of `n` entries.
pub open spec fn is_square<T>(table: Seq<Vec<T>>, n: int) -> bool {
    &&& table.len() == n
    &&& forall|i: int| 0 <= i < n ==> (#[trigger] table[i])@.len() == n
}

/// What a game adds to White's count: 1 for a checkmate by White.
pub open spec fn white_win(result: Option<GameResult>) -> int {
    if result == Some(GameResult::WhiteCheckmates) {
        1
    } else {
        0
    }
}

/// What a game adds to Black's count: 1 for a checkmate by Black.
pub open spec fn black_win(result: Option<GameResult>) -> int {
    if result == Some(GameResult::BlackCheckmates) {
        1
    } else {
        0
    }
}

/// The win matrix entry of `i` over `j`: the seed of 1, the game that `i`
/// won as White against `j`, and the game that `i` won as Black against `j`.
pub open spec fn wins(results: Seq<Vec<Option<GameResult>>>, i: int, j: int) -> int {
    1 + white_win(results[i]@[j]) + black_win(results[j]@[i])
}

/// The win matrix of one generation.
pub struct WinMatrix {
    scores: Vec<Vec<u64>>,
}

impl WinMatrix {
    /// The matrix as rows of counts.
    pub closed spec fn view(&self) -> Seq<Seq<u64>> {
        Seq::new(self.scores@.len(), |i: int| self.scores@[i]@)
    }

    /// The number of members.
    pub open spec fn size(&self) -> int {
        self@.len() as int
    }

    /// A win matrix is square, no larger than the engine takes, and every
    /// entry is the seed of 1 plus at most the two games of its pair.
    pub open spec fn wf(&self) -> bool {
        &&& self.size() <= MAX_POPULATION
        &&& forall|i: int| 0 <= i < self.size() ==> (#[trigger] self@[i]).len() == self.size()
        &&& forall|i: int, j: int|
            0 <= i < self.size() && 0 <= j < self.size() ==> 1 <= (#[trigger] self@[i][j]) <= 3
    }

    /// The matrix before any game: every entry is the seed.
    pub fn new(n: usize) -> (matrix: WinMatrix)
        requires
            n <= MAX_POPULATION,
        ensures
            matrix.wf(),
            matrix.size() == n,
            forall|i: int, j: int| 0 <= i < n && 0 <= j < n ==> (#[trigger] matrix@[i][j]) == 1,
    {
        let mut scores: Vec<Vec<u64>> = Vec::new();
        let mut i: usize = 0;
        while i < n
            invariant
                i <= n,
                scores@.len() == i,
                forall|a: int| 0 <= a < i ==> (#[trigger] scores@[a])@.len() == n,
                forall|a: int, b: int| 0 <= a < i && 0 <= b < n ==> (#[trigger] scores@[a]@[b]) == 1,
            decreases n - i,
        {
            let mut row: Vec<u64> = Vec::new();
            let mut j: usize = 0;
            while j < n
                invariant
                    j <= n,
                    row@.len() == j,
                    forall|b: int| 0 <= b < j ==> (#[trigger] row@[b]) == 1,
                decreases n - j,
            {
                row.push(1u64);
                j += 1;
            }
            scores.push(row);
            i += 1;
        }
        WinMatrix { scores }
    }

    /// Counts a round robin: `None` for a table that is not square or is
    /// larger than `MAX_POPULATION`.
    pub fn tally(results: &ResultTable) -> (matrix: Option<WinMatrix>)
        ensures
            matrix is Some <==> is_square(results@, results@.len() as int) && results@.len() <= MAX_POPULATION,
            matrix matches Some(m) ==> counted(results@, m),
    {
        let n = results.len();
        if n > MAX_POPULATION {
            return None;
        }
        let mut r: usize = 0;
        while r < n
            invariant
                r <= n,
                n == results@.len(),
                forall|a: int| 0 <= a < r ==> (#[trigger] results@[a])@.len() == n,
            decreases n - r,
        {
            if results[r].len() != n {
                return None;
            }
            r += 1;
        }
        let mut scores: Vec<Vec<u64>> = Vec::new();
        let mut i: usize = 0;
        while i < n
            invariant
                i <= n,
                n == results@.len(),
                is_square(results@, n as int),
                scores@.len() == i,
                forall|a: int| 0 <= a < i ==> (#[trigger] scores@[a])@.len() == n,
                forall|a: int, b: int|
                    0 <= a < i && 0 <= b < n ==> (#[trigger] scores@[a]@[b]) == wins(results@, a, b),
            decreases n - i,
        {
            let mut row: Vec<u64> = Vec::new();
            let mut j: usize = 0;
            while j < n
                invariant
                    i < n,
                    j <= n,
                    n == results@.len(),
                    is_square(results@, n as int),
                    row@.len() == j,
                    forall|b: int| 0 <= b < j ==> (#[trigger] row@[b]) == wins(results@, i as int, b),
                decreases n - j,
            {
                let mut count: u64 = 1;
                if is_white_win(&results[i][j]) {
                    count += 1;
                }
                if is_black_win(&results[j][i]) {
                    count += 1;
                }
                row.push(count);
                j += 1;
            }
            scores.push(row);
            i += 1;
        }
        Some(WinMatrix { scores })
    }

    /// The number of members.
    pub fn len(&self) -> (n: usize)
        ensures
            n == self.size(),
    {
        self.scores.len()
    }

    /// The entry of `i` over `j`.
    pub fn get(&self, i: usize, j: usize) -> (count: u64)
        requires
            self.wf(),
            i < self.size(),
            j < self.size(),
        ensures
            count == self@[i as int][j as int],
    {
        assert(self@[i as int].len() == self.size());
        self.scores[i][j]
    }

    /// Each member's total: the sum of its row.
    pub open spec fn totals_spec(&self) -> Seq<u64> {
        Seq::new(self.size() as nat, |i: int| total_weight(self@[i]) as u64)
    }

    /// Each member's total wins, seeds included.
    pub fn totals(&self) -> (totals: Vec<u64>)
        requires
            self.wf(),
        ensures
            totals@ == self.totals_spec(),
            forall|i: int| 0 <= i < self.size() ==> (#[trigger] totals@[i]) == total_weight(self@[i]),
    {
        let n = self.scores.len();
        let mut totals: Vec<u64> = Vec::new();
        let mut i: usize = 0;
        while i < n
            invariant
                i <= n,
                n == self.size(),
                self.wf(),
                totals@.len() == i,
                forall|a: int| 0 <= a < i ==> (#[trigger] totals@[a]) == total_weight(self@[a]),
            decreases n - i,
        {
            assert(self@[i as int].len() == n);
            let row = &self.scores[i];
            let mut sum: u64 = 0;
            let mut j: usize = 0;
            while j < n
                invariant
                    j <= n,
                    n <= MAX_POPULATION,
                    row@.len() == n,
                    row@ == self@[i as int],
                    i < n,
                    n == self.size(),
                    self.wf(),
                    sum == total_weight(row@.subrange(0, j as int)),
                    sum <= 3 * j,
                decreases n - j,
            {
                proof {
                    assert(row@.subrange(0, j + 1).drop_last() =~= row@.subrange(0, j as int));
                    assert(1 <= self@[i as int][j as int] <= 3);
                }
                sum += row[j];
                j += 1;
            }
            assert(row@.subrange(0, n as int) =~= row@);
            totals.push(sum);
            i += 1;
        }
        assert(totals@ =~= self.totals_spec());
        totals
    }
}

/// A sum of weights lies between the least and the greatest weight, each
/// taken as often as there are weights.
pub proof fn total_weight_bounds(weights: Seq<u64>, low: int, high: int)
    requires
        forall|i: int| 0 <= i < weights.len() ==> low <= #[trigger] weights[i] <= high,
    ensures
        low * weights.len() <= total_weight(weights) <= high * weights.len(),
    decreases weights.len(),
{
    if weights.len() == 0 {
        assert(low * weights.len() == 0 && high * weights.len() == 0) by (nonlinear_arith)
            requires
                weights.len() == 0,
        ;
    } else {
        let init = weights.drop_last();
        total_weight_bounds(init, low, high);
        assert(low <= weights[weights.len() - 1] <= high);
        assert(low * weights.len() == low * init.len() + low) by (nonlinear_arith)
            requires
                weights.len() == init.len() + 1,
        ;
        assert(high * weights.len() == high * init.len() + high) by (nonlinear_arith)
            requires
                weights.len() == init.len() + 1,
        ;
    }
}

/// A seeded win matrix never gives an empty distribution: the totals of a
/// population of at least one member sum to more than zero and fit a `u64`,
/// and so do the two entries of every pair of members.
pub proof fn seeded_matrix_gives_distributions(matrix: WinMatrix)
    requires
        matrix.wf(),
        matrix.size() >= 1,
    ensures
        0 < total_weight(matrix.totals_spec()) <= u64::MAX,
        forall|i: int, j: int|
            0 <= i < matrix.size() && 0 <= j < matrix.size() ==> 0 < (#[trigger] matrix@[i][j])
                + matrix@[j][i] <= u64::MAX,
{
    let n = matrix.size();
    let totals = matrix.totals_spec();
    assert forall|i: int| 0 <= i < n implies n <= #[trigger] totals[i] <= 3 * n by {
        assert(matrix@[i].len() == n);
        assert forall|j: int| 0 <= j < n implies 1 <= #[trigger] matrix@[i][j] <= 3 by {}
        total_weight_bounds(matrix@[i], 1, 3);
    }
    total_weight_bounds(totals, n, 3 * n);
    assert(n * n >= 1 && 3 * n * n <= 3 * 0x4000_0000 * 0x4000_0000) by (nonlinear_arith)
        requires
            1 <= n <= 0x4000_0000,
    ;
    assert forall|i: int, j: int| 0 <= i < n && 0 <= j < n implies 0 < (#[trigger] matrix@[i][j])
        + matrix@[j][i] <= u64::MAX by {
        assert(1 <= matrix@[j][i] <= 3);
    }
}

/// Whether a game was won by White with a checkmate.
pub fn is_white_win(result: &Option<GameResult>) -> (won: bool)
    ensures
        won == (white_win(*result) == 1),
{
    match result {
        Some(GameResult::WhiteCheckmates) => true,
        _ => false,
    }
}

/// Whether a game was won by Black with a checkmate.
pub fn is_black_win(result: &Option<GameResult>) -> (won: bool)
    ensures
        won == (black_win(*result) == 1),
{
    match result {
        Some(GameResult::BlackCheckmates) => true,
        _ => false,
    }
}

/// What a game adds to the win matrix: 1 for a checkmate, by either side.
pub open spec fn decisive(result: Option<GameResult>) -> int {
    white_win(result) + black_win(result)
}

/// The number of games of a round robin that ended in a checkmate.
pub open spec fn decisive_games(results: Seq<Vec<Option<GameResult>>>) -> int {
    sum_to(results.len() as int, |i: int| sum_to(results.len() as int, |j: int| decisive(results[i]@[j])))
}

/// Whether `scores` is the win matrix of the round robin `results`: one
/// game for every ordered pair of members, and every entry the count of its
/// pair.
pub open spec fn counted(results: Seq<Vec<Option<GameResult>>>, scores: WinMatrix) -> bool {
    &&& is_square(results, results.len() as int)
    &&& scores.wf()
    &&& scores.size() == results.len()
    &&& forall|i: int, j: int|
        0 <= i < scores.size() && 0 <= j < scores.size() ==> (#[trigger] scores@[i][j]) == wins(results, i, j)
}

/// A sum of weights is the sum of its terms over their indices.
proof fn total_weight_is_sum(weights: Seq<u64>, terms: spec_fn(int) -> int)
    requires
        forall|k: int| 0 <= k < weights.len() ==> #[trigger] terms(k) == weights[k],
    ensures
        total_weight(weights) == sum_to(weights.len() as int, terms),
    decreases weights.len(),
{
    if weights.len() > 0 {
        total_weight_is_sum(weights.drop_last(), terms);
    }
}

/// The total of member `i`: the seeds of its row, its wins as White, and
/// its wins as Black.
proof fn row_total(results: Seq<Vec<Option<GameResult>>>, scores: WinMatrix, i: int)
    requires
        counted(results, scores),
        0 <= i < results.len(),
    ensures
        total_weight(scores@[i]) == results.len() + sum_to(
            results.len() as int,
            |j: int| white_win(results[i]@[j]),
        ) + sum_to(results.len() as int, |j: int| black_win(results[j]@[i])),
{
    let n = results.len() as int;
    let row = scores@[i];
    let seeds = |j: int| 1int;
    let as_white = |j: int| white_win(results[i]@[j]);
    let as_black = |j: int| black_win(results[j]@[i]);
    let won = |j: int| as_white(j) + as_black(j);
    let entries = |j: int| row[j] as int;
    assert(row.len() == n);
    assert forall|j: int| 0 <= j < n implies #[trigger] entries(j) == seeds(j) + won(j) by {
        assert(scores@[i][j] == wins(results, i, j));
    }
    total_weight_is_sum(row, entries);
    sum_of_sums(n, seeds, won, entries);
    sum_of_sums(n, as_white, as_black, won);
    sum_of_constant(n, seeds, 1);
}

/// Summing the whole win matrix counts the round robin: one seed for each
/// of the `n * n` games that were played, a member's game against itself
/// included, and one more for every game that ended in a checkmate.
pub proof fn matrix_total_counts_every_game(results: Seq<Vec<Option<GameResult>>>, scores: WinMatrix)
    requires
        counted(results, scores),
    ensures
        total_weight(scores.totals_spec()) == results.len() * results.len() + decisive_games(results),
        0 <= decisive_games(results) <= results.len() * results.len(),
{
    let n = results.len() as int;
    let totals = scores.totals_spec();
    let total_of = |i: int| totals[i] as int;
    let seeds = |i: int| n;
    let as_white = |i: int| sum_to(n, |j: int| white_win(results[i]@[j]));
    let as_black = |i: int| sum_to(n, |j: int| black_win(results[j]@[i]));
    let lost_to_black = |i: int| sum_to(n, |j: int| black_win(results[i]@[j]));
    let won = |i: int| as_white(i) + as_black(i);
    let ended = |i: int| sum_to(n, |j: int| decisive(results[i]@[j]));
    let ended_split = |i: int| as_white(i) + lost_to_black(i);

    // Every total is its row's seeds and wins.
    assert forall|i: int| 0 <= i < n implies #[trigger] total_of(i) == seeds(i) + won(i) by {
        row_total(results, scores, i);
        assert(scores@[i].len() == n);
        total_weight_bounds(scores@[i], 1, 3);
        assert(3 * n <= u64::MAX) by (nonlinear_arith)
            requires
                n <= 0x4000_0000,
        ;
    }
    total_weight_is_sum(totals, total_of);
    sum_of_sums(n, seeds, won, total_of);
    sum_of_sums(n, as_white, as_black, won);
    sum_of_constant(n, seeds, n);

    // The games won as Black, member by member, are the games lost to Black, member by member.
    let black = |i: int, j: int| black_win(results[j]@[i]);
    assert forall|i: int| 0 <= i < n implies #[trigger] as_black(i) == sum_to(n, |j: int| black(i, j)) by {
        sum_congruent(n, |j: int| black_win(results[j]@[i]), |j: int| black(i, j));
    }
    assert forall|j: int| 0 <= j < n implies #[trigger] lost_to_black(j) == sum_to(n, |i: int| black(i, j)) by {
        sum_congruent(n, |i: int| black_win(results[j]@[i]), |i: int| black(i, j));
    }
    sum_swap(n, n, black, as_black, lost_to_black);

    // The decisive games are White's wins and Black's wins.
    assert forall|i: int| 0 <= i < n implies #[trigger] ended(i) == ended_split(i) by {
        let w = |j: int| white_win(results[i]@[j]);
        let b = |j: int| black_win(results[i]@[j]);
        let d = |j: int| decisive(results[i]@[j]);
        sum_of_sums(n, w, b, d);
    }
    sum_congruent(n, ended, ended_split);
    sum_of_sums(n, as_white, lost_to_black, ended_split);

    // Each game ends in at most one checkmate.
    assert forall|i: int| 0 <= i < n implies 0 <= #[trigger] ended(i) <= n by {
        let d = |j: int| decisive(results[i]@[j]);
        sum_bounds(n, d, 0, 1);
    }
    sum_bounds(n, ended, 0, n);
    assert(n * 0 == 0) by (nonlinear_arith);
}

/// Whether `k` is the place of the first greatest total.
pub open spec fn is_first_max(totals: Seq<u64>, k: int) -> bool {
    &&& 0 <= k < totals.len()
    &&& forall|i: int| 0 <= i < totals.len() ==> totals[i] <= totals[k]
    &&& forall|i: int| 0 <= i < k ==> totals[i] < totals[k]
}

/// The champion of a generation: the member with the greatest total, of
/// several the one with the lowest index. `None` for an empty population.
pub fn champion(totals: &Vec<u64>) -> (champ: Option<usize>)
    ensures
        champ is Some <==> totals@.len() > 0,
        champ matches Some(k) ==> is_first_max(totals@, k as int),
{
    if totals.len() == 0 {
        return None;
    }
    let mut k: usize = 0;
    let mut i: usize = 1;
    while i < totals.len()
        invariant
            1 <= i <= totals.len(),
            k < i,
            forall|a: int| 0 <= a < i ==> totals@[a] <= totals@[k as int],
            forall|a: int| 0 <= a < k ==> totals@[a] < totals@[k as int],
        decreases totals.len() - i,
    {
        if totals[i] > totals[k] {
            k = i;
        }
        i += 1;
    }
    Some(k)
}

} // verus!
