//! Finite sums over index ranges, and the laws of them that the tournament's
//! bookkeeping rests on.
use vstd::prelude::*;

verus! {

/// The sum of `f(0)`, ..., `f(n - 1)`.
pub open spec fn sum_to(n: int, f: spec_fn(int) -> int) -> int
    decreases n,
{
    if n <= 0 {
        0
    } else {
        sum_to(n - 1, f) + f(n - 1)
    }
}

/// Sums of functions that agree below `n` are equal.
pub proof fn sum_congruent(n: int, f: spec_fn(int) -> int, g: spec_fn(int) -> int)
    requires
        forall|k: int| 0 <= k < n ==> #[trigger] f(k) == g(k),
    ensures
        sum_to(n, f) == sum_to(n, g),
    decreases n,
{
    if n > 0 {
        sum_congruent(n - 1, f, g);
    }
}

/// The sum of a pointwise sum is the sum of the sums.
pub proof fn sum_of_sums(n: int, f: spec_fn(int) -> int, g: spec_fn(int) -> int, both: spec_fn(int) -> int)
    requires
        forall|k: int| 0 <= k < n ==> #[trigger] both(k) == f(k) + g(k),
    ensures
        sum_to(n, both) == sum_to(n, f) + sum_to(n, g),
    decreases n,
{
    if n > 0 {
        sum_of_sums(n - 1, f, g, both);
    }
}

/// A sum lies between its length times a lower and times an upper bound of
/// its terms.
pub proof fn sum_bounds(n: int, f: spec_fn(int) -> int, low: int, high: int)
    requires
        0 <= n,
        forall|k: int| 0 <= k < n ==> low <= #[trigger] f(k) <= high,
    ensures
        n * low <= sum_to(n, f) <= n * high,
    decreases n,
{
    if n > 0 {
        sum_bounds(n - 1, f, low, high);
        assert(n * low == (n - 1) * low + low) by (nonlinear_arith);
        assert(n * high == (n - 1) * high + high) by (nonlinear_arith);
    } else {
        assert(n * low == 0 && n * high == 0) by (nonlinear_arith)
            requires
                n == 0,
        ;
    }
}

/// A double sum may be taken in either order: `by_row(i)` sums `f(i, _)`
/// over `m` columns, `by_column(j)` sums `f(_, j)` over `n` rows.
pub proof fn sum_swap(
    n: int,
    m: int,
    f: spec_fn(int, int) -> int,
    by_row: spec_fn(int) -> int,
    by_column: spec_fn(int) -> int,
)
    requires
        0 <= n,
        0 <= m,
        forall|i: int| 0 <= i < n ==> #[trigger] by_row(i) == sum_to(m, |j: int| f(i, j)),
        forall|j: int| 0 <= j < m ==> #[trigger] by_column(j) == sum_to(n, |i: int| f(i, j)),
    ensures
        sum_to(n, by_row) == sum_to(m, by_column),
    decreases n,
{
    if n == 0 {
        sum_bounds(m, by_column, 0, 0);
    } else {
        let shorter = |j: int| sum_to(n - 1, |i: int| f(i, j));
        let last = |j: int| f(n - 1, j);
        sum_swap(n - 1, m, f, by_row, shorter);
        assert forall|j: int| 0 <= j < m implies #[trigger] by_column(j) == shorter(j) + last(j) by {
            assert(sum_to(n, |i: int| f(i, j)) == sum_to(n - 1, |i: int| f(i, j)) + f(n - 1, j));
        }
        sum_of_sums(m, shorter, last, by_column);
        assert(by_row(n - 1) == sum_to(m, |j: int| f(n - 1, j)));
        sum_congruent(m, last, |j: int| f(n - 1, j));
    }
}

/// The sum of a constant is the constant times the length.
pub proof fn sum_of_constant(n: int, f: spec_fn(int) -> int, c: int)
    requires
        0 <= n,
        forall|k: int| 0 <= k < n ==> #[trigger] f(k) == c,
    ensures
        sum_to(n, f) == n * c,
{
    sum_bounds(n, f, c, c);
}

} // verus!
