use vstd::prelude::*;
use rand::Rng;
use rayon::iter::{IntoParallelRefIterator, ParallelIterator};

verus! {

/// The number of rows and columns of a generated matrix.
pub const SIZE: usize = 4096;

/// A number drawn uniformly from `0..bound` (`Rng::gen_range` on the thread's generator).
/// Trusted: the number lies in the range; which one it is depends on chance.
#[verifier::external_body]
fn random_below(bound: u32) -> (r: u32)
    requires
        bound > 0,
    ensures
        r < bound,
{
    rand::thread_rng().gen_range(0..bound)
}

/// A `SIZE` x `SIZE` matrix of random numbers below 100.
pub fn generate_matrix() -> (m: Vec<Vec<u32>>)
    ensures
        m@.len() == SIZE,
        forall|i: int| 0 <= i < m@.len() ==> #[trigger] m@[i]@.len() == SIZE,
        forall|i: int, j: int|
            0 <= i < m@.len() && 0 <= j < m@[i]@.len() ==> #[trigger] m@[i]@[j] < 100,
{
    let mut m: Vec<Vec<u32>> = Vec::new();
    let mut i: usize = 0;
    while i < SIZE
        invariant
            i <= SIZE,
            m@.len() == i,
            forall|a: int| 0 <= a < m@.len() ==> #[trigger] m@[a]@.len() == SIZE,
            forall|a: int, b: int|
                0 <= a < m@.len() && 0 <= b < m@[a]@.len() ==> #[trigger] m@[a]@[b] < 100,
        decreases SIZE - i,
    {
        let mut row: Vec<u32> = Vec::new();
        let mut j: usize = 0;
        while j < SIZE
            invariant
                j <= SIZE,
                row@.len() == j,
                forall|b: int| 0 <= b < row@.len() ==> #[trigger] row@[b] < 100,
            decreases SIZE - j,
        {
            row.push(random_below(100));
            j = j + 1;
        }
        m.push(row);
        i = i + 1;
    }
    m
}

/// The sum of the numbers.
pub open spec fn sum_row(s: Seq<u32>) -> int
    decreases s.len(),
{
    if s.len() == 0 {
        0
    } else {
        sum_row(s.drop_last()) + s.last()
    }
}

/// The sum of the numbers in each row, added up.
pub open spec fn sum_rows(s: Seq<int>) -> int
    decreases s.len(),
{
    if s.len() == 0 {
        0
    } else {
        sum_rows(s.drop_last()) + s.last()
    }
}

/// The sum of all the numbers in the matrix.
pub open spec fn matrix_total(m: Seq<Vec<u32>>) -> int {
    sum_rows(m.map_values(|r: Vec<u32>| sum_row(r@)))
}

proof fn lemma_sum_row_bound(s: Seq<u32>)
    ensures
        0 <= sum_row(s) <= s.len() * 0xffff_ffff,
    decreases s.len(),
{
    if s.len() > 0 {
        lemma_sum_row_bound(s.drop_last());
    }
}

/// The sum of the numbers in a row.
pub fn row_sum(row: &Vec<u32>) -> (r: u64)
    requires
        row@.len() <= 0xffff_ffff,
    ensures
        r == sum_row(row@),
{
    let mut total: u64 = 0;
    let mut j: usize = 0;
    while j < row.len()
        invariant
            j <= row@.len(),
            row@.len() <= 0xffff_ffff,
            total == sum_row(row@.take(j as int)),
        decreases row.len() - j,
    {
        proof {
            lemma_sum_row_bound(row@.take(j + 1));
            assert(row@.take(j + 1).drop_last() == row@.take(j as int));
            assert((j + 1) * 0xffff_ffff <= 0xffff_ffff * 0xffff_ffff) by (nonlinear_arith)
                requires
                    j + 1 <= 0xffff_ffff,
            ;
        }
        total = total + row[j] as u64;
        j = j + 1;
    }
    assert(row@.take(row@.len() as int) == row@);
    total
}

/// The sum of each row, computed in parallel (`rayon`'s `par_iter().map(..).collect()`).
/// Trusted: the result has one entry per row, in row order, each the sum of its row as
/// computed by `row_sum`.
#[verifier::external_body]
fn row_sums_parallel(matrix: &Vec<Vec<u32>>) -> (r: Vec<u64>)
    requires
        forall|i: int| 0 <= i < matrix@.len() ==> #[trigger] matrix@[i]@.len() <= 0xffff_ffff,
    ensures
        r@.len() == matrix@.len(),
        forall|i: int| 0 <= i < matrix@.len() ==> #[trigger] r@[i] == sum_row(matrix@[i]@),
{
    matrix.par_iter().map(|row| row_sum(row)).collect()
}

/// The sum of all the numbers in the matrix, rows summed in parallel.
pub fn parallel_sum(matrix: &Vec<Vec<u32>>) -> (r: u64)
    requires
        forall|i: int| 0 <= i < matrix@.len() ==> #[trigger] matrix@[i]@.len() <= 0xffff_ffff,
        matrix_total(matrix@) <= u64::MAX,
    ensures
        r == matrix_total(matrix@),
{
    let sums = row_sums_parallel(matrix);
    let ghost totals = matrix@.map_values(|r: Vec<u32>| sum_row(r@));
    assert forall|i: int| 0 <= i < totals.len() implies totals[i] == sums@[i] by {}
    let mut total: u64 = 0;
    let mut i: usize = 0;
    while i < sums.len()
        invariant
            i <= sums@.len(),
            sums@.len() == totals.len(),
            forall|k: int| 0 <= k < totals.len() ==> totals[k] == sums@[k],
            totals == matrix@.map_values(|r: Vec<u32>| sum_row(r@)),
            sum_rows(totals) <= u64::MAX,
            total == sum_rows(totals.take(i as int)),
        decreases sums.len() - i,
    {
        proof {
            assert(totals.take(i + 1).drop_last() == totals.take(i as int));
            lemma_sum_rows_prefix(totals, i + 1);
        }
        total = total + sums[i];
        i = i + 1;
    }
    assert(totals.take(totals.len() as int) == totals);
    total
}

proof fn lemma_sum_rows_prefix(s: Seq<int>, k: int)
    requires
        0 <= k <= s.len(),
        forall|i: int| 0 <= i < s.len() ==> s[i] >= 0,
    ensures
        sum_rows(s.take(k)) <= sum_rows(s),
    decreases s.len() - k,
{
    if k < s.len() {
        lemma_sum_rows_prefix(s.drop_last(), k);
        assert(s.drop_last().take(k) == s.take(k));
        lemma_sum_rows_nonneg(s.drop_last());
    } else {
        assert(s.take(k) == s);
    }
}

proof fn lemma_sum_rows_nonneg(s: Seq<int>)
    requires
        forall|i: int| 0 <= i < s.len() ==> s[i] >= 0,
    ensures
        sum_rows(s) >= 0,
    decreases s.len(),
{
    if s.len() > 0 {
        lemma_sum_rows_nonneg(s.drop_last());
    }
}

} // verus!
