use rust_ga::test_results::sum_checked;
use rust_ga::test_results::CaseRanked;
use rust_ga::test_results::CaseResult;
use rust_ga::test_results::Error;
use rust_ga::test_results::Ranked;
use rust_ga::test_results::Score;
use rust_ga::test_results::TestResult;
use rust_ga::test_results::TestResults;

#[test]
fn score_bigger_is_better() {
    let first = Score { score: 37 };
    let second = Score { score: 82 };
    assert!(first < second);
    assert!(first != second);
    assert!(!(first > second));
}

#[test]
fn error_smaller_is_better() {
    let first = Error { error: 37 };
    let second = Error { error: 82 };
    assert!(first > second);
    assert!(first != second);
    assert!(!(first < second));
}

#[test]
fn score_compares_to_score() {
    let first = TestResult::Score(Score { score: 32 });
    let second = TestResult::Score(Score { score: 87 });
    assert!(first < second);
    assert!(first != second);
    assert!(!(first > second));
}

#[test]
fn error_compares_to_error() {
    let first = TestResult::Error(Error { error: 32 });
    let second = TestResult::Error(Error { error: 87 });
    assert!(first > second);
    assert!(first != second);
    assert!(!(first < second));
}

#[test]
fn error_and_score_incomparable() {
    let first = TestResult::Score(Score { score: 32 });
    let second = TestResult::Error(Error { error: 87 });
    assert!(!(first > second));
    assert!(first != second);
    assert!(!(first < second));
    assert!(first.partial_cmp(&second).is_none());
    assert!(second.partial_cmp(&first).is_none());
}

#[test]
fn equal_scores_compare_equal() {
    let first = Score { score: 5 };
    let second = Score { score: 5 };
    assert_eq!(first.partial_cmp(&second), Some(std::cmp::Ordering::Equal));
    assert!(first == second);
    assert!(first <= second && first >= second);
}

#[test]
fn equal_errors_compare_equal() {
    let first = Error { error: -4 };
    let second = Error { error: -4 };
    assert_eq!(first.partial_cmp(&second), Some(std::cmp::Ordering::Equal));
    assert!(first == second);
}

#[test]
fn score_and_error_from_number() {
    assert_eq!(Score::from(12), Score { score: 12 });
    assert_eq!(Error::from(-7), Error { error: -7 });
    assert_eq!(Score::from_raw(3).raw(), 3);
    assert_eq!(Error::from_raw(3).raw(), 3);
}

#[test]
fn merit_order_of_scores_and_errors() {
    assert!(Score { score: 9 }.at_least(&Score { score: 3 }));
    assert!(!Score { score: 3 }.at_least(&Score { score: 9 }));
    assert!(Score { score: 3 }.at_least(&Score { score: 3 }));
    assert!(Error { error: 3 }.at_least(&Error { error: 9 }));
    assert!(!Error { error: 9 }.at_least(&Error { error: 3 }));
    assert!(Error { error: i64::MIN }.at_least(&Error { error: i64::MAX }));
    assert!(7i64.at_least(&7));
    assert!(!6i64.at_least(&7));
}

#[test]
fn sums_of_numbers() {
    assert_eq!(sum_checked(&vec![]), Some(0));
    assert_eq!(sum_checked(&vec![1, 2, 3, -10]), Some(-4));
    assert_eq!(sum_checked(&vec![i64::MAX, 1]), None);
    assert_eq!(sum_checked(&vec![i64::MIN, -1]), None);
    // The running sum leaves the range, the sum itself does not.
    assert_eq!(sum_checked(&vec![i64::MAX, 1, -1]), Some(i64::MAX));
    assert_eq!(sum_checked(&vec![i64::MIN, -5, 5]), Some(i64::MIN));
    assert_eq!(Score::sum(&vec![4, 5, 6]), Some(Score { score: 15 }));
    assert_eq!(Score::sum(&vec![i64::MAX, i64::MAX]), None);
    assert_eq!(Error::sum(&vec![4, -5]), Some(Error { error: -1 }));
    assert_eq!(Error::sum(&vec![i64::MIN, i64::MIN]), None);
}

#[test]
fn results_are_built_from_cases() {
    let made = TestResults::from_results(vec![Score { score: 5 }, Score { score: 8 }, Score { score: 0 }]);
    let made = made.unwrap();
    assert_eq!(made.total_result, Score { score: 13 });
    assert_eq!(made.results, vec![Score { score: 5 }, Score { score: 8 }, Score { score: 0 }]);

    let none: Vec<Error> = vec![];
    let empty = TestResults::from_results(none).unwrap();
    assert_eq!(empty.total_result, Error { error: 0 });
    assert!(empty.results.is_empty());

    let too_much = TestResults::from_results(vec![Error { error: i64::MAX }, Error { error: 1 }]);
    assert!(too_much.is_none());
    let back_in_range = TestResults::from_results(
        vec![Error { error: i64::MAX }, Error { error: 1 }, Error { error: -2 }],
    );
    assert_eq!(back_in_range.unwrap().total_result, Error { error: i64::MAX - 1 });
}

#[test]
fn results_are_ordered_by_their_total_alone() {
    let low = TestResults { total_result: Score { score: 1 }, results: vec![Score { score: 100 }] };
    let high = TestResults { total_result: Score { score: 2 }, results: vec![Score { score: 0 }] };
    assert!(low < high);
    assert!(high.at_least(&low));
    assert!(!low.at_least(&high));
    // Case by case it is the other way round.
    assert!(low.case_at_least(0, &high));
    assert!(!high.case_at_least(0, &low));
    assert_eq!(low.case_count(), 1);

    let small = TestResults { total_result: Error { error: 1 }, results: vec![] };
    let large = TestResults { total_result: Error { error: 2 }, results: vec![] };
    assert!(small > large);
    assert!(small.at_least(&large));
    assert_eq!(small.case_count(), 0);
}

#[test]
fn scores_are_totally_ordered() {
    let mut scores = vec![Score { score: 3 }, Score { score: -1 }, Score { score: 7 }];
    scores.sort();
    assert_eq!(scores, vec![Score { score: -1 }, Score { score: 3 }, Score { score: 7 }]);
    assert_eq!(scores.iter().max(), Some(&Score { score: 7 }));
    assert_eq!(Score { score: 3 }.cmp(&Score { score: 7 }), std::cmp::Ordering::Less);
    assert_eq!(Score { score: 3 }.partial_cmp(&Score { score: 7 }), Some(std::cmp::Ordering::Less));
}
