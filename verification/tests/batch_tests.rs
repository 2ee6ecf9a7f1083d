use blairpng::{
    classify_outcome, run_batch, summarize, EngineReport, OutcomeStatus, Stats,
};

#[test]
fn classify_success_that_shrank_is_improved() {
    let o = classify_outcome(1000, Some(900));
    assert_eq!(o.stats.before, 1000);
    assert_eq!(o.stats.after, 900);
    assert_eq!(o.status, OutcomeStatus::Improved);
}

#[test]
fn classify_success_without_change_is_unchanged() {
    let o = classify_outcome(500, Some(500));
    assert_eq!(o.stats.after, 500);
    assert_eq!(o.status, OutcomeStatus::Unchanged);
}

#[test]
fn classify_growth_counts_as_unchanged_status() {
    let o = classify_outcome(100, Some(150));
    assert_eq!(o.stats.before, 100);
    assert_eq!(o.stats.after, 150);
    assert_eq!(o.status, OutcomeStatus::Unchanged);
}

#[test]
fn classify_failure_keeps_original_size() {
    let o = classify_outcome(777, None);
    assert_eq!(o.stats.before, 777);
    assert_eq!(o.stats.after, 777);
    assert_eq!(o.status, OutcomeStatus::Failed);
}

#[test]
fn run_batch_yields_one_outcome_per_input() {
    let reports = vec![
        EngineReport { before: 10, result: Some(8) },
        EngineReport { before: 20, result: None },
        EngineReport { before: 30, result: Some(30) },
    ];
    let outcomes = run_batch(&reports);
    assert_eq!(outcomes.len(), reports.len());
}

#[test]
fn one_failure_does_not_disturb_the_rest() {
    let reports = vec![
        EngineReport { before: 10, result: Some(8) },
        EngineReport { before: 20, result: None },
        EngineReport { before: 30, result: Some(25) },
    ];
    let outcomes = run_batch(&reports);
    assert_eq!(outcomes.len(), 3);
    assert_eq!(outcomes[1].stats.after, 20);
    assert_eq!(outcomes[1].status, OutcomeStatus::Failed);
    assert_eq!(outcomes[0].status, OutcomeStatus::Improved);
    assert_eq!(outcomes[2].stats.after, 25);
    assert_eq!(outcomes[2].status, OutcomeStatus::Improved);
}

#[test]
fn second_pass_over_optimized_file_is_stable() {
    let first = classify_outcome(1000, Some(900));
    let second = classify_outcome(first.stats.after, Some(first.stats.after));
    assert_eq!(second.stats.before, first.stats.after);
    assert_eq!(second.stats.after, first.stats.after);
    assert_eq!(second.status, OutcomeStatus::Unchanged);
}

#[test]
fn summarize_empty_batch_is_all_zero() {
    let s = summarize(&vec![], 0);
    assert_eq!(s.count, 0);
    assert_eq!(s.before_total, 0);
    assert_eq!(s.after_total, 0);
    assert_eq!(s.reduction(), 0);
    assert_eq!(s.reduction_pct_tenths(), 0);
}

#[test]
fn summarize_attaches_elapsed_time() {
    let s = summarize(&vec![], 1234);
    assert_eq!(s.elapsed_ms, 1234);
}

#[test]
fn end_to_end_three_file_batch() {
    let reports = vec![
        EngineReport { before: 1000, result: Some(900) },
        EngineReport { before: 2000, result: Some(1000) },
        EngineReport { before: 0, result: None },
    ];
    let outcomes = run_batch(&reports);
    assert_eq!(outcomes.len(), 3);
    assert_eq!(outcomes[2].status, OutcomeStatus::Failed);
    let s = summarize(&outcomes, 50);
    assert_eq!(s.count, 3);
    assert_eq!(s.before_total, 3000);
    assert_eq!(s.after_total, 1900);
    assert_eq!(s.reduction(), 1100);
    assert_eq!(s.reduction_pct_tenths(), 366);
}

#[test]
fn summary_reduction_may_be_negative() {
    let reports = vec![EngineReport { before: 100, result: Some(150) }];
    let outcomes = run_batch(&reports);
    let s = summarize(&outcomes, 1);
    assert_eq!(s.reduction(), -50);
    assert_eq!(s.reduction_pct_tenths(), -500);
}

#[test]
fn stats_reduction_pct_in_tenths() {
    assert_eq!(Stats { before: 1000, after: 900 }.reduction_pct_tenths(), 100);
    assert_eq!(Stats { before: 1000, after: 1100 }.reduction_pct_tenths(), -100);
    assert_eq!(Stats { before: 0, after: 0 }.reduction_pct_tenths(), 0);
    assert_eq!(Stats { before: 3000, after: 1900 }.reduction_pct_tenths(), 366);
}

#[test]
fn stats_reduction_is_signed() {
    let shrank = Stats { before: 1000, after: 900 };
    assert_eq!(shrank.reduction(), 100);
    let grew = Stats { before: 900, after: 1000 };
    assert_eq!(grew.reduction(), -100);
    let zero = Stats::default();
    assert_eq!(zero.reduction(), 0);
}
