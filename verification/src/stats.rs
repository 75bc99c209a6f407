//! The minimum-of-many statistic and its companion maximum.
//!
//! Execution-time distributions on real hardware are right-skewed by
//! interrupts, scheduling and thermal effects; the minimum over many batches
//! is the robust point estimate of a function's true cost, and the spread
//! `max - min` over the family is the headline figure.

use vstd::prelude::*;

verus! {

/// The smaller of two `u64` values.
pub open spec fn min_u64(a: u64, b: u64) -> u64 {
    if a < b {
        a
    } else {
        b
    }
}

/// The larger of two `u64` values.
pub open spec fn max_u64(a: u64, b: u64) -> u64 {
    if a > b {
        a
    } else {
        b
    }
}

/// The minimum of a sequence of samples, starting from the sentinel
/// `u64::MAX` that no sample ever exceeds.
pub open spec fn seq_min(s: Seq<u64>) -> u64
    decreases s.len(),
{
    if s.len() == 0 {
        u64::MAX
    } else {
        min_u64(seq_min(s.drop_last()), s.last())
    }
}

/// The maximum of a sequence of samples, starting from the sentinel `0`
/// that no sample falls under.
pub open spec fn seq_max(s: Seq<u64>) -> u64
    decreases s.len(),
{
    if s.len() == 0 {
        0
    } else {
        max_u64(seq_max(s.drop_last()), s.last())
    }
}

/// Fold the minimum over a vector of samples; the empty fold is the
/// sentinel `u64::MAX`.
pub fn fold_min(xs: &Vec<u64>) -> (r: u64)
    ensures
        r == seq_min(xs@),
{
    let mut acc: u64 = u64::MAX;
    let mut i: usize = 0;
    while i < xs.len()
        invariant
            i <= xs@.len(),
            acc == seq_min(xs@.take(i as int)),
        decreases xs@.len() - i,
    {
        let x = xs[i];
        if x < acc {
            acc = x;
        }
        proof {
            assert(xs@.take(i + 1).drop_last() =~= xs@.take(i as int));
            assert(xs@.take(i + 1).last() == xs@[i as int]);
        }
        i = i + 1;
    }
    proof {
        assert(xs@.take(xs@.len() as int) =~= xs@);
    }
    acc
}

/// The reported minimum never exceeds any individual sample: in particular
/// it is at or below every single batch latency, warm or cold.
pub proof fn lemma_seq_min_le_all(s: Seq<u64>, i: int)
    requires
        0 <= i < s.len(),
    ensures
        seq_min(s) <= s[i],
    decreases s.len(),
{
    if i < s.len() - 1 {
        lemma_seq_min_le_all(s.drop_last(), i);
    }
}

/// The reported maximum is at or above every individual sample.
pub proof fn lemma_seq_max_ge_all(s: Seq<u64>, i: int)
    requires
        0 <= i < s.len(),
    ensures
        seq_max(s) >= s[i],
    decreases s.len(),
{
    if i < s.len() - 1 {
        lemma_seq_max_ge_all(s.drop_last(), i);
    }
}

/// The spread is well-defined: over a non-empty set of samples the minimum
/// never exceeds the maximum, so `max - min` never underflows and the
/// spread is non-negative.
pub proof fn lemma_spread_nonnegative(s: Seq<u64>)
    requires
        s.len() >= 1,
    ensures
        seq_min(s) <= seq_max(s),
{
    lemma_seq_min_le_all(s, 0);
    lemma_seq_max_ge_all(s, 0);
}

} // verus!
