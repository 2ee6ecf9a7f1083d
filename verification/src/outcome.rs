//! Per-file outcomes and the batch fan-in.
//!
//! Each file of a batch is optimized independently: the front end
//! measures the file, lets the external engine rewrite it in place,
//! and reports the engine's result here as a plain value. Failure of
//! one file never stops the batch — a failed file keeps its original
//! size and is folded into the outcome list like any success.

use vstd::prelude::*;

verus! {

/// Per-file byte sizes before and after optimization.
#[derive(Copy, Clone, Debug, PartialEq, Eq, Structural)]
pub struct Stats {
    /// Original file size in bytes.
    pub before: u64,
    /// Optimized file size in bytes.
    pub after: u64,
}

impl Stats {
    /// Net byte reduction: positive when the file shrank, negative
    /// when it grew.
    pub fn reduction(&self) -> (r: i64)
        requires
            self.before <= i64::MAX as u64,
            self.after <= i64::MAX as u64,
        ensures
            r == self.before - self.after,
    {
        self.before as i64 - self.after as i64
    }

    /// The size reduction as tenths of a percent of the original
    /// size, truncated toward zero; 0 for an empty original, so a
    /// zero-byte file divides by nothing. Negative when the file grew.
    pub fn reduction_pct_tenths(&self) -> (r: i128)
        ensures
            self.before == 0 ==> r == 0,
            self.before > 0 && self.after <= self.before ==> r == (self.before - self.after) * 1000
                / (self.before as int),
            self.before > 0 && self.after > self.before ==> r == -((self.after - self.before)
                * 1000 / (self.before as int)),
    {
        if self.before == 0 {
            0
        } else if self.after <= self.before {
            let diff: u128 = (self.before - self.after) as u128;
            ((diff * 1000) / (self.before as u128)) as i128
        } else {
            let diff: u128 = (self.after - self.before) as u128;
            -(((diff * 1000) / (self.before as u128)) as i128)
        }
    }
}

impl Default for Stats {
    /// A zero-sized pair of measurements.
    fn default() -> (r: Self)
        ensures
            r.before == 0,
            r.after == 0,
    {
        Stats { before: 0, after: 0 }
    }
}

/// How a file fared.
#[derive(Copy, Clone, Debug, PartialEq, Eq, Structural)]
pub enum OutcomeStatus {
    /// The engine rewrote the file to fewer bytes.
    Improved,
    /// The engine succeeded without shrinking the file.
    Unchanged,
    /// The engine failed; the file was left as it was.
    Failed,
}

/// The result of optimizing one file.
#[derive(Copy, Clone, Debug, PartialEq, Eq, Structural)]
pub struct FileOutcome {
    /// Sizes before and after; on failure `after == before`.
    pub stats: Stats,
    /// Success or failure classification.
    pub status: OutcomeStatus,
}

/// What the front end reports of one engine invocation: the size the
/// file had before, and the size it had after a successful rewrite,
/// or `None` when the engine failed.
#[derive(Copy, Clone, Debug)]
pub struct EngineReport {
    /// File size before the engine ran.
    pub before: u64,
    /// File size after a successful rewrite, `None` on failure.
    pub result: Option<u64>,
}

/// The outcome a report classifies to: a failure keeps the original
/// size; a success is `Improved` exactly when the file shrank.
pub open spec fn spec_classify(before: u64, result: Option<u64>) -> FileOutcome {
    match result {
        None => FileOutcome {
            stats: Stats { before, after: before },
            status: OutcomeStatus::Failed,
        },
        Some(after) => FileOutcome {
            stats: Stats { before, after },
            status: if after < before {
                OutcomeStatus::Improved
            } else {
                OutcomeStatus::Unchanged
            },
        },
    }
}

/// Classify one engine report into a file outcome.
pub fn classify_outcome(before: u64, result: Option<u64>) -> (r: FileOutcome)
    ensures
        r == spec_classify(before, result),
{
    match result {
        None => FileOutcome {
            stats: Stats { before, after: before },
            status: OutcomeStatus::Failed,
        },
        Some(after) => FileOutcome {
            stats: Stats { before, after },
            status: if after < before {
                OutcomeStatus::Improved
            } else {
                OutcomeStatus::Unchanged
            },
        },
    }
}

/// Fold the engine reports of a whole batch into outcomes: exactly
/// one outcome per report, in the same order, each the classification
/// of its report. Failures are folded in like successes.
pub fn run_batch(reports: &Vec<EngineReport>) -> (r: Vec<FileOutcome>)
    ensures
        r@.len() == reports@.len(),
        forall|i: int|
            0 <= i < reports@.len() ==> r@[i] == spec_classify(
                reports@[i].before,
                reports@[i].result,
            ),
{
    let mut r: Vec<FileOutcome> = Vec::new();
    let n = reports.len();
    for i in 0..n
        invariant
            n == reports@.len(),
            r@.len() == i,
            forall|j: int|
                0 <= j < i ==> r@[j] == spec_classify(reports@[j].before, reports@[j].result),
    {
        r.push(classify_outcome(reports[i].before, reports[i].result));
    }
    r
}

/// A failed file keeps its original size and is marked failed; it
/// costs the batch nothing else.
pub proof fn lemma_failure_absorbed(before: u64)
    ensures
        spec_classify(before, None).stats.after == before,
        spec_classify(before, None).stats.before == before,
        spec_classify(before, None).status is Failed,
{
}

/// A second pass over an already optimized file starts from the first
/// pass's final size, and an engine run that leaves the size alone
/// classifies as `Unchanged` with that same size: `after == before`
/// is a stable terminal state.
pub proof fn lemma_second_pass_stable(before: u64, after: u64)
    requires
        after <= before,
    ensures
        ({
            let first = spec_classify(before, Some(after));
            let second = spec_classify(first.stats.after, Some(after));
            &&& second.stats.before == first.stats.after
            &&& second.stats.after == first.stats.after
            &&& second.status is Unchanged
        }),
{
}

} // verus!
