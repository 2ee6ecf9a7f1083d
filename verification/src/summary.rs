//! Aggregating a batch of outcomes.
//!
//! The summary is a pure reduction over all per-file outcomes: how
//! many files were processed, their total size before and after, and
//! the elapsed wall-clock time the front end measured. Totals are
//! held in 128 bits so that no sum of 64-bit file sizes can overflow.

use vstd::prelude::*;
use vstd::arithmetic::mul::lemma_mul_inequality;
use crate::outcome::FileOutcome;

verus! {

/// The sum of the original sizes of a batch of outcomes.
pub open spec fn sum_before(s: Seq<FileOutcome>) -> int
    decreases s.len(),
{
    if s.len() == 0 {
        0
    } else {
        sum_before(s.drop_last()) + s.last().stats.before
    }
}

/// The sum of the final sizes of a batch of outcomes.
pub open spec fn sum_after(s: Seq<FileOutcome>) -> int
    decreases s.len(),
{
    if s.len() == 0 {
        0
    } else {
        sum_after(s.drop_last()) + s.last().stats.after
    }
}

/// The reduction of a whole batch: count of files, summed sizes, and
/// the elapsed wall-clock time attached by the front end.
#[derive(Copy, Clone, Debug, PartialEq, Eq, Structural)]
pub struct BatchSummary {
    /// Number of outcomes folded in.
    pub count: usize,
    /// Sum of the original sizes, in bytes.
    pub before_total: u128,
    /// Sum of the final sizes, in bytes.
    pub after_total: u128,
    /// Elapsed wall-clock time, in milliseconds.
    pub elapsed_ms: u64,
}

impl BatchSummary {
    /// Net byte reduction of the batch: negative when optimization
    /// enlarged more than it saved.
    pub fn reduction(&self) -> (r: i128)
        requires
            self.before_total <= i128::MAX as u128,
            self.after_total <= i128::MAX as u128,
        ensures
            r == self.before_total - self.after_total,
    {
        self.before_total as i128 - self.after_total as i128
    }

    /// The reduction percentage in tenths of a percent, truncated
    /// toward zero; 0 when nothing was there to reduce, so an empty
    /// batch divides by nothing.
    pub fn reduction_pct_tenths(&self) -> (r: i128)
        requires
            self.before_total <= (i128::MAX as u128) / 1000,
            self.after_total <= (i128::MAX as u128) / 1000,
        ensures
            self.before_total == 0 ==> r == 0,
            self.before_total > 0 && self.after_total <= self.before_total ==> r == (
            self.before_total - self.after_total) * 1000 / (self.before_total as int),
            self.before_total > 0 && self.after_total > self.before_total ==> r == -((
            self.after_total - self.before_total) * 1000 / (self.before_total as int)),
    {
        if self.before_total == 0 {
            0
        } else if self.after_total <= self.before_total {
            let diff: u128 = self.before_total - self.after_total;
            ((diff * 1000) / self.before_total) as i128
        } else {
            let diff: u128 = self.after_total - self.before_total;
            -(((diff * 1000) / self.before_total) as i128)
        }
    }
}

/// Reduce all outcomes of a batch into one summary. Pure; an empty
/// outcome list yields all-zero sums.
pub fn summarize(outcomes: &Vec<FileOutcome>, elapsed_ms: u64) -> (r: BatchSummary)
    ensures
        r.count == outcomes@.len(),
        r.before_total == sum_before(outcomes@),
        r.after_total == sum_after(outcomes@),
        r.elapsed_ms == elapsed_ms,
{
    let mut before_total: u128 = 0;
    let mut after_total: u128 = 0;
    let n = outcomes.len();
    for i in 0..n
        invariant
            n == outcomes@.len(),
            before_total == sum_before(outcomes@.take(i as int)),
            after_total == sum_after(outcomes@.take(i as int)),
            before_total <= i * (u64::MAX as int),
            after_total <= i * (u64::MAX as int),
    {
        proof {
            assert(outcomes@.take(i + 1).drop_last() =~= outcomes@.take(i as int));
            assert(outcomes@.take(i + 1).last() == outcomes@[i as int]);
            lemma_mul_inequality(i + 1, u64::MAX as int, u64::MAX as int);
        }
        before_total = before_total + (outcomes[i].stats.before as u128);
        after_total = after_total + (outcomes[i].stats.after as u128);
    }
    proof {
        assert(outcomes@.take(n as int) =~= outcomes@);
    }
    BatchSummary { count: n, before_total, after_total, elapsed_ms }
}

/// An empty batch sums to zero on both sides, and so reports a zero
/// reduction percentage without dividing by anything.
pub proof fn lemma_empty_batch()
    ensures
        sum_before(Seq::<FileOutcome>::empty()) == 0,
        sum_after(Seq::<FileOutcome>::empty()) == 0,
{
}

} // verus!
