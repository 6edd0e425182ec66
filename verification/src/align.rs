//! Alignment of per-character data to phoneme granularity: the adjusted
//! phoneme counts and the repetition of embedding rows.

use vstd::prelude::*;
use crate::error::TtsError;

verus! {

/// The phoneme counts after adjustment: every count doubled, and the first one
/// raised by one for the leading boundary token.
pub open spec fn adjusted(word2ph: Seq<usize>) -> Seq<int> {
    Seq::new(
        word2ph.len(),
        |i: int|
            if i == 0 {
                2 * word2ph[i] + 1
            } else {
                2 * word2ph[i]
            },
    )
}

/// The sum of the counts.
pub open spec fn total(counts: Seq<int>) -> int
    decreases counts.len(),
{
    if counts.len() == 0 {
        0
    } else {
        total(counts.drop_last()) + counts.last()
    }
}

/// The counts as mathematical integers.
pub open spec fn as_ints(counts: Seq<usize>) -> Seq<int> {
    counts.map_values(|count: usize| count as int)
}

/// The rows of a matrix held as a vector of rows.
pub open spec fn rows_of<T>(matrix: Seq<Vec<T>>) -> Seq<Seq<T>> {
    matrix.map_values(|row: Vec<T>| row@)
}

/// Row `i` of `rows` repeated `counts[i]` times, for every `i` in order.
pub open spec fn repeated<T>(rows: Seq<Seq<T>>, counts: Seq<int>) -> Seq<Seq<T>>
    recommends
        rows.len() == counts.len(),
    decreases counts.len(),
{
    if counts.len() == 0 || rows.len() == 0 {
        seq![]
    } else {
        repeated(rows.drop_last(), counts.drop_last()) + Seq::new(
            counts.last() as nat,
            |k: int| rows.last(),
        )
    }
}

/// The adjusted counts sum to twice the sum of the counts, plus one where there
/// is a first count to raise.
pub proof fn lemma_adjusted_total(word2ph: Seq<usize>)
    ensures
        total(adjusted(word2ph)) == 2 * total(as_ints(word2ph)) + if word2ph.len() > 0 {
            1int
        } else {
            0int
        },
    decreases word2ph.len(),
{
    if word2ph.len() > 0 {
        lemma_adjusted_total(word2ph.drop_last());
        assert(adjusted(word2ph).drop_last() =~= adjusted(word2ph.drop_last()));
        assert(as_ints(word2ph).drop_last() =~= as_ints(word2ph.drop_last()));
    }
}

/// Repeated rows are as many as their non-negative counts sum to.
pub proof fn lemma_repeated_len<T>(rows: Seq<Seq<T>>, counts: Seq<int>)
    requires
        rows.len() == counts.len(),
        forall|i: int| 0 <= i < counts.len() ==> counts[i] >= 0,
    ensures
        repeated(rows, counts).len() == total(counts),
    decreases counts.len(),
{
    if counts.len() > 0 {
        lemma_repeated_len(rows.drop_last(), counts.drop_last());
    }
}

/// The sum of a prefix never exceeds the sum of the whole, the counts being
/// non-negative.
proof fn lemma_total_prefix(counts: Seq<int>, n: int)
    requires
        0 <= n <= counts.len(),
        forall|i: int| 0 <= i < counts.len() ==> counts[i] >= 0,
    ensures
        0 <= total(counts.take(n)) <= total(counts),
    decreases counts.len() - n,
{
    if n == 0 {
        lemma_total_nonnegative(counts);
    } else if n == counts.len() {
        assert(counts.take(n) =~= counts);
        lemma_total_nonnegative(counts);
    } else {
        lemma_total_prefix(counts, n + 1);
        assert(counts.take(n + 1).drop_last() =~= counts.take(n));
        lemma_total_nonnegative(counts.take(n));
    }
}

/// Counts that are not negative sum to nothing negative.
pub proof fn lemma_total_nonnegative(counts: Seq<int>)
    requires
        forall|i: int| 0 <= i < counts.len() ==> counts[i] >= 0,
    ensures
        total(counts) >= 0,
    decreases counts.len(),
{
    if counts.len() > 0 {
        lemma_total_nonnegative(counts.drop_last());
    }
}

/// Doubles every count and raises the first by one, provided the adjusted counts
/// sum to `expected`.
pub fn adjust_word2ph(word2ph: &Vec<usize>, expected: usize) -> (result: Result<Vec<usize>, TtsError>)
    ensures
        match result {
            Ok(counts) => as_ints(counts@) == adjusted(word2ph@) && total(adjusted(word2ph@))
                == expected,
            Err(e) => e == TtsError::Misaligned && total(adjusted(word2ph@)) != expected,
        },
{
    let mut counts: Vec<usize> = Vec::new();
    let mut sum: usize = 0;
    let mut i: usize = 0;
    while i < word2ph.len()
        invariant
            i <= word2ph.len(),
            sum <= expected,
            sum == total(adjusted(word2ph@).take(i as int)),
            as_ints(counts@) == adjusted(word2ph@).take(i as int),
        decreases word2ph.len() - i,
    {
        let room: usize = expected - sum;
        let count: usize = word2ph[i];
        let extra: usize = if i == 0 {
            1
        } else {
            0
        };
        proof {
            let upto = adjusted(word2ph@).take(i + 1);
            assert(upto.drop_last() =~= adjusted(word2ph@).take(i as int));
            lemma_total_prefix(adjusted(word2ph@), i + 1);
        }
        if count > room / 2 || 2 * count + extra > room {
            return Err(TtsError::Misaligned);
        }
        counts.push(2 * count + extra);
        sum = sum + 2 * count + extra;
        i += 1;
    }
    assert(adjusted(word2ph@).take(i as int) =~= adjusted(word2ph@));
    if sum != expected {
        return Err(TtsError::Misaligned);
    }
    Ok(counts)
}

/// A copy of the row.
fn copy_row<T: Copy>(row: &Vec<T>) -> (copy: Vec<T>)
    ensures
        copy@ == row@,
{
    let mut copy: Vec<T> = Vec::new();
    let mut i: usize = 0;
    while i < row.len()
        invariant
            i <= row.len(),
            copy@ == row@.take(i as int),
        decreases row.len() - i,
    {
        copy.push(row[i]);
        i += 1;
    }
    copy
}

/// Repeats row `i` of `rows` over `counts[i]` consecutive rows, for every `i` in
/// order.
pub fn repeat_rows<T: Copy>(rows: &Vec<Vec<T>>, counts: &Vec<usize>) -> (out: Vec<Vec<T>>)
    requires
        rows.len() == counts.len(),
    ensures
        rows_of(out@) == repeated(rows_of(rows@), as_ints(counts@)),
{
    let mut out: Vec<Vec<T>> = Vec::new();
    let mut i: usize = 0;
    while i < rows.len()
        invariant
            i <= rows.len(),
            rows.len() == counts.len(),
            rows_of(out@) == repeated(
                rows_of(rows@).take(i as int),
                as_ints(counts@).take(i as int),
            ),
        decreases rows.len() - i,
    {
        let ghost done = rows_of(out@);
        let ghost row = rows@[i as int]@;
        let mut j: usize = 0;
        while j < counts[i]
            invariant
                i < rows.len(),
                rows.len() == counts.len(),
                j <= counts[i as int],
                row == rows@[i as int]@,
                rows_of(out@) == done + Seq::new(j as nat, |k: int| row),
            decreases counts[i as int] - j,
        {
            let ghost before = rows_of(out@);
            out.push(copy_row(&rows[i]));
            assert(rows_of(out@) =~= before.push(row));
            j += 1;
        }
        proof {
            let r = rows_of(rows@).take(i + 1);
            let c = as_ints(counts@).take(i + 1);
            assert(r.drop_last() =~= rows_of(rows@).take(i as int));
            assert(c.drop_last() =~= as_ints(counts@).take(i as int));
        }
        i += 1;
    }
    assert(rows_of(rows@).take(i as int) =~= rows_of(rows@));
    assert(as_ints(counts@).take(i as int) =~= as_ints(counts@));
    out
}

} // verus!
