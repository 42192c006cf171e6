use rust_ga::error::ConfigurationError;
use rust_ga::error::EvolutionError;
use rust_ga::individual::Individual;
use rust_ga::random::RandomSource;
use rust_ga::selector::best::best_index;
use rust_ga::selector::best::Best;
use rust_ga::selector::lexicase::has_case_count;
use rust_ga::selector::lexicase::keep_case_best;
use rust_ga::selector::lexicase::Lexicase;
use rust_ga::selector::random::Random;
use rust_ga::selector::strategy::Strategy;
use rust_ga::selector::tournament::sample_winner;
use rust_ga::selector::tournament::Tournament;
use rust_ga::selector::weighted::Weighted;
use rust_ga::selector::Selector;
use rust_ga::test_results::Error;
use rust_ga::test_results::Score;
use rust_ga::test_results::TestResults;

fn errors(values: Vec<i64>) -> TestResults<Error> {
    TestResults::from_results(values.into_iter().map(|error| Error { error }).collect()).unwrap()
}

fn scores(values: Vec<i64>) -> TestResults<Score> {
    TestResults::from_results(values.into_iter().map(|score| Score { score }).collect()).unwrap()
}

#[test]
fn can_select_twice() {
    let pop: Vec<i64> = vec![5, 8, 9, 6, 3, 2, 0];
    let mut rng = RandomSource::from_seed(0);
    assert_eq!(&9, Best.select(&pop, &mut rng).unwrap());
    assert_eq!(&9, Best.select(&pop, &mut rng).unwrap());
}

#[test]
fn best_refuses_an_empty_population() {
    let pop: Vec<i64> = vec![];
    let mut rng = RandomSource::from_seed(1);
    assert_eq!(Best.select(&pop, &mut rng), Err(EvolutionError::EmptyCollection));
    assert_eq!(best_index(&pop), None);
}

#[test]
fn best_takes_the_first_of_several_best() {
    let pop: Vec<i64> = vec![3, 9, 1, 9, 9];
    assert_eq!(best_index(&pop), Some(1));
    assert_eq!(best_index(&vec![4i64]), Some(0));
    assert_eq!(best_index(&vec![1i64, 2, 3]), Some(2));
    assert_eq!(best_index(&vec![3i64, 2, 1]), Some(0));
}

#[test]
fn best_is_the_same_whatever_the_random_source() {
    let pop = vec![errors(vec![4, 4]), errors(vec![1, 2]), errors(vec![0, 3]), errors(vec![9, 9])];
    for seed in 0..50u64 {
        let mut rng = RandomSource::from_seed(seed);
        let chosen = Best.select(&pop, &mut rng).unwrap();
        // Smaller errors are better: 3 is the smallest total, first held by the second member.
        assert_eq!(chosen.total_result, Error { error: 3 });
        assert_eq!(chosen.results, vec![Error { error: 1 }, Error { error: 2 }]);
    }
}

#[test]
fn best_of_scores_is_the_largest_total() {
    let pop = vec![scores(vec![1, 1]), scores(vec![5, 0]), scores(vec![2, 2])];
    let mut rng = RandomSource::from_seed(3);
    assert_eq!(Best.select(&pop, &mut rng).unwrap().total_result, Score { score: 5 });
}

#[test]
fn random_returns_a_member() {
    let pop: Vec<i64> = vec![10, 20, 30];
    let mut seen = [false; 3];
    for seed in 0..200u64 {
        let mut rng = RandomSource::from_seed(seed);
        let chosen = *Random.select(&pop, &mut rng).unwrap();
        assert!(pop.contains(&chosen));
        seen[(chosen / 10 - 1) as usize] = true;
    }
    assert_eq!(seen, [true, true, true]);
    let nobody: Vec<i64> = vec![];
    let mut rng = RandomSource::from_seed(0);
    assert_eq!(Random.select(&nobody, &mut rng), Err(EvolutionError::EmptyCollection));
}

#[test]
fn tournament_winner_of_a_given_sample() {
    let pop: Vec<i64> = vec![5, 8, 9, 6, 9];
    assert_eq!(sample_winner(&pop, &vec![0, 3, 1]), Some(1));
    assert_eq!(sample_winner(&pop, &vec![3]), Some(3));
    // Of two equally good members the one drawn first wins.
    assert_eq!(sample_winner(&pop, &vec![4, 2, 0]), Some(4));
    assert_eq!(sample_winner(&pop, &vec![0, 2, 4]), Some(2));
    assert_eq!(sample_winner(&pop, &vec![1, 1, 1]), Some(1));
    assert_eq!(sample_winner(&pop, &vec![]), None);
}

#[test]
fn tournament_returns_a_member_and_refuses_what_it_must() {
    let pop: Vec<i64> = vec![5, 8, 9, 6, 3, 2, 0];
    for seed in 0..100u64 {
        let mut rng = RandomSource::from_seed(seed);
        let chosen = *Tournament::new(2).select(&pop, &mut rng).unwrap();
        assert!(pop.contains(&chosen));
    }
    let mut rng = RandomSource::from_seed(7);
    let nobody: Vec<i64> = vec![];
    assert_eq!(Tournament::new(2).select(&nobody, &mut rng), Err(EvolutionError::EmptyCollection));
    assert_eq!(Tournament::new(0).select(&nobody, &mut rng), Err(EvolutionError::EmptyCollection));
    assert_eq!(
        Tournament::new(0).select(&pop, &mut rng),
        Err(EvolutionError::ConfigurationError(ConfigurationError::EmptyTournament))
    );
}

#[test]
fn a_large_tournament_finds_the_best() {
    // With 200 draws from 3 members, a sample without the best member is
    // as good as impossible.
    let pop: Vec<i64> = vec![1, 7, 3];
    for seed in 0..20u64 {
        let mut rng = RandomSource::from_seed(seed);
        assert_eq!(Tournament::new(200).select(&pop, &mut rng), Ok(&7));
    }
}

#[test]
fn a_tournament_of_one_is_a_random_choice() {
    let pop: Vec<i64> = vec![1, 7, 3];
    let mut seen = [false; 3];
    for seed in 0..200u64 {
        let mut rng = RandomSource::from_seed(seed);
        let chosen = *Tournament::new(1).select(&pop, &mut rng).unwrap();
        seen[pop.iter().position(|m| *m == chosen).unwrap()] = true;
    }
    assert_eq!(seen, [true, true, true]);
}

#[test]
fn lexicase_filters_case_by_case() {
    let pop = vec![errors(vec![0, 5]), errors(vec![5, 0]), errors(vec![2, 2])];
    let lexicase = Lexicase::new(2);
    assert_eq!(lexicase.survivors_in_order(&pop, &vec![0, 1]), Ok(vec![0]));
    assert_eq!(lexicase.survivors_in_order(&pop, &vec![1, 0]), Ok(vec![1]));
    assert_eq!(lexicase.survivors_in_order(&pop, &vec![]), Ok(vec![0, 1, 2]));
    assert_eq!(keep_case_best(&pop, &vec![0, 1, 2], 0), vec![0]);
    assert_eq!(keep_case_best(&pop, &vec![1, 2], 0), vec![2]);
    assert_eq!(keep_case_best(&pop, &vec![0, 2], 1), vec![2]);
}

#[test]
fn lexicase_keeps_all_that_tie() {
    let pop = vec![errors(vec![1, 3]), errors(vec![1, 3]), errors(vec![1, 4]), errors(vec![2, 0])];
    let lexicase = Lexicase::new(2);
    assert_eq!(lexicase.survivors_in_order(&pop, &vec![0]), Ok(vec![0, 1, 2]));
    assert_eq!(lexicase.survivors_in_order(&pop, &vec![0, 1]), Ok(vec![0, 1]));
    assert_eq!(lexicase.survivors_in_order(&pop, &vec![1, 0]), Ok(vec![3]));
    let mut seen = [false; 4];
    for seed in 0..300u64 {
        let mut rng = RandomSource::from_seed(seed);
        let chosen = lexicase.select(&pop, &mut rng).unwrap();
        if chosen.results == vec![Error { error: 2 }, Error { error: 0 }] {
            seen[3] = true;
        } else {
            assert_eq!(chosen.results, vec![Error { error: 1 }, Error { error: 3 }]);
            seen[0] = true;
        }
    }
    assert!(seen[0] && seen[3]);
}

#[test]
fn lexicase_never_returns_the_one_that_is_nowhere_best() {
    let pop = vec![errors(vec![0, 5]), errors(vec![5, 0]), errors(vec![2, 2])];
    let lexicase = Lexicase::new(2);
    let mut first = 0;
    let mut second = 0;
    for seed in 0..1000u64 {
        let mut rng = RandomSource::from_seed(seed);
        let chosen = lexicase.select(&pop, &mut rng).unwrap();
        assert_ne!(chosen.results, vec![Error { error: 2 }, Error { error: 2 }]);
        if chosen.results == vec![Error { error: 0 }, Error { error: 5 }] {
            first += 1;
        } else {
            assert_eq!(chosen.results, vec![Error { error: 5 }, Error { error: 0 }]);
            second += 1;
        }
    }
    assert!(first > 0);
    assert!(second > 0);
    assert_eq!(first + second, 1000);
}

#[test]
fn lexicase_returns_the_one_that_dominates() {
    let pop = vec![
        errors(vec![3, 1, 4]),
        errors(vec![2, 1, 4]),
        errors(vec![2, 0, 3]),
        errors(vec![2, 7, 3]),
        errors(vec![9, 0, 9]),
    ];
    let lexicase = Lexicase::new(3);
    for seed in 0..500u64 {
        let mut rng = RandomSource::from_seed(seed);
        let chosen = lexicase.select(&pop, &mut rng).unwrap();
        assert_eq!(chosen.results, vec![Error { error: 2 }, Error { error: 0 }, Error { error: 3 }]);
    }
    let orders: Vec<Vec<usize>> =
        vec![vec![0, 1, 2], vec![0, 2, 1], vec![1, 0, 2], vec![1, 2, 0], vec![2, 0, 1], vec![2, 1, 0]];
    for order in orders {
        assert_eq!(lexicase.survivors_in_order(&pop, &order), Ok(vec![2]));
    }
}

#[test]
fn lexicase_with_scores_prefers_larger_results() {
    let pop = vec![scores(vec![0, 5]), scores(vec![5, 0]), scores(vec![2, 2])];
    let lexicase = Lexicase::new(2);
    assert_eq!(lexicase.survivors_in_order(&pop, &vec![0, 1]), Ok(vec![1]));
    assert_eq!(lexicase.survivors_in_order(&pop, &vec![1, 0]), Ok(vec![0]));
}

#[test]
fn lexicase_without_cases_is_a_random_choice() {
    let pop = vec![
        TestResults { total_result: Error { error: 1 }, results: vec![] },
        TestResults { total_result: Error { error: 2 }, results: vec![] },
        TestResults { total_result: Error { error: 3 }, results: vec![] },
    ];
    let lexicase = Lexicase::new(0);
    let mut seen = [false; 3];
    for seed in 0..200u64 {
        let mut rng = RandomSource::from_seed(seed);
        let chosen = lexicase.select(&pop, &mut rng).unwrap();
        seen[(chosen.total_result.error - 1) as usize] = true;
    }
    assert_eq!(seen, [true, true, true]);
}

#[test]
fn lexicase_refuses_what_it_must() {
    let mut rng = RandomSource::from_seed(11);
    let nobody: Vec<TestResults<Error>> = vec![];
    assert_eq!(Lexicase::new(2).select(&nobody, &mut rng), Err(EvolutionError::EmptyCollection));
    let uneven = vec![errors(vec![0, 5]), errors(vec![5])];
    let mismatch = Err(EvolutionError::ConfigurationError(ConfigurationError::CaseCountMismatch));
    assert_eq!(Lexicase::new(2).select(&uneven, &mut rng), mismatch);
    let even = vec![errors(vec![0, 5]), errors(vec![5, 0])];
    assert_eq!(Lexicase::new(3).select(&even, &mut rng), mismatch);
    assert_eq!(Lexicase::new(1).select(&even, &mut rng), mismatch);
    assert!(has_case_count(&even, 2));
    assert!(!has_case_count(&even, 3));
    assert!(!has_case_count(&uneven, 2));
    assert!(has_case_count(&nobody, 5));
    assert_eq!(
        Lexicase::new(2).survivors_in_order(&nobody, &vec![0, 1]),
        Err(EvolutionError::EmptyCollection)
    );
    assert_eq!(
        Lexicase::new(2).survivors_in_order(&uneven, &vec![0, 1]),
        Err(EvolutionError::ConfigurationError(ConfigurationError::CaseCountMismatch))
    );
}

#[test]
fn lexicase_works_on_individuals() {
    let pop = vec![
        Individual::new(vec![true, false], errors(vec![0, 5])),
        Individual::new(vec![false, true], errors(vec![5, 0])),
        Individual::new(vec![false, false], errors(vec![2, 2])),
    ];
    for seed in 0..100u64 {
        let mut rng = RandomSource::from_seed(seed);
        let chosen = Lexicase::new(2).select(&pop, &mut rng).unwrap();
        assert_ne!(chosen.genome, vec![false, false]);
    }
    let mut rng = RandomSource::from_seed(0);
    assert_eq!(Best.select(&pop, &mut rng).unwrap().genome, vec![false, false]);
}

#[test]
fn weighted_locates_the_entry_of_a_draw() {
    let weighted =
        Weighted::new(Best, 1).unwrap().with_selector(Best, 5).unwrap().with_selector(Best, 94).unwrap();
    assert_eq!(weighted.total_weight(), 100);
    assert_eq!(weighted.len(), 3);
    assert_eq!(weighted.entry_for(0), Some(0));
    assert_eq!(weighted.entry_for(1), Some(1));
    assert_eq!(weighted.entry_for(5), Some(1));
    assert_eq!(weighted.entry_for(6), Some(2));
    assert_eq!(weighted.entry_for(99), Some(2));
    assert_eq!(weighted.entry_for(100), None);
    assert_eq!(weighted.entry_for(usize::MAX), None);
    let mut counts = [0usize; 3];
    for draw in 0..100 {
        counts[weighted.entry_for(draw).unwrap()] += 1;
    }
    assert_eq!(counts, [1, 5, 94]);
}

#[test]
fn weighted_chooses_in_proportion_to_the_weights() {
    // Three members, and three selectors of which each can only return
    // one of them: the best total, the best on the only case, and the
    // winner of a tournament so large that it finds the best.
    let pop = vec![
        TestResults { total_result: Score { score: 9 }, results: vec![Score { score: 0 }] },
        TestResults { total_result: Score { score: 1 }, results: vec![Score { score: 7 }] },
    ];
    let weighted = Weighted::new(Strategy::Best(Best), 1)
        .unwrap()
        .with_selector(Strategy::Lexicase(Lexicase::new(1)), 5)
        .unwrap()
        .with_selector(Strategy::Best(Best), 94)
        .unwrap();
    let mut rng = RandomSource::from_seed(2024);
    let draws = 100_000;
    let mut by_lexicase = 0;
    for _ in 0..draws {
        let chosen = weighted.select(&pop, &mut rng).unwrap();
        if chosen.total_result == (Score { score: 1 }) {
            by_lexicase += 1;
        }
    }
    // 5 in 100 draws go to lexicase: 5000 of 100000, give or take.
    assert!(by_lexicase > 4500, "{by_lexicase}");
    assert!(by_lexicase < 5500, "{by_lexicase}");

    let mut counts = [0usize; 3];
    for _ in 0..draws {
        counts[weighted.entry_for(rng.below(weighted.total_weight())).unwrap()] += 1;
    }
    assert!(counts[0] > 700 && counts[0] < 1300, "{counts:?}");
    assert!(counts[1] > 4500 && counts[1] < 5500, "{counts:?}");
    assert!(counts[2] > 93_000 && counts[2] < 95_000, "{counts:?}");
}

#[test]
fn weighted_refuses_what_it_must() {
    let zero = Err(EvolutionError::ConfigurationError(ConfigurationError::NonPositiveWeight));
    assert_eq!(Weighted::new(Best, 0).map(|w| w.len()), zero);
    let one = Weighted::new(Best, 1).unwrap();
    assert_eq!(one.clone().with_selector(Best, 0).map(|w| w.len()), zero);
    assert_eq!(
        one.clone().with_selector(Best, usize::MAX).map(|w| w.len()),
        Err(EvolutionError::ConfigurationError(ConfigurationError::TotalWeightTooLarge))
    );
    assert_eq!(one.clone().with_selector(Best, usize::MAX - 1).map(|w| w.total_weight()), Ok(usize::MAX));
    let nothing: Vec<(Best, usize)> = vec![];
    assert_eq!(
        Weighted::from_entries(nothing).map(|w| w.len()),
        Err(EvolutionError::ConfigurationError(ConfigurationError::NoSelectors))
    );
    assert_eq!(Weighted::from_entries(vec![(Best, 2), (Best, 0)]).map(|w| w.len()), zero);
    assert_eq!(
        Weighted::from_entries(vec![(Best, usize::MAX), (Best, 1)]).map(|w| w.len()),
        Err(EvolutionError::ConfigurationError(ConfigurationError::TotalWeightTooLarge))
    );
    let listed = Weighted::from_entries(vec![(Best, 2), (Best, 3)]).unwrap();
    assert_eq!(listed.total_weight(), 5);
    assert_eq!(listed.entry_for(1), Some(0));
    assert_eq!(listed.entry_for(2), Some(1));
}

#[test]
fn weighted_hands_on_the_failure_of_its_selector() {
    let nobody: Vec<TestResults<Score>> = vec![];
    let weighted = Weighted::new(Strategy::Best(Best), 1)
        .unwrap()
        .with_selector(Strategy::Tournament(Tournament::new(2)), 3)
        .unwrap();
    let mut rng = RandomSource::from_seed(5);
    assert_eq!(weighted.select(&nobody, &mut rng), Err(EvolutionError::EmptyCollection));
    let uneven = vec![scores(vec![1]), scores(vec![1, 2])];
    let only_lexicase = Weighted::new(Strategy::Lexicase(Lexicase::new(1)), 4).unwrap();
    assert_eq!(
        only_lexicase.select(&uneven, &mut rng),
        Err(EvolutionError::ConfigurationError(ConfigurationError::CaseCountMismatch))
    );
}

#[test]
fn strategies_select_as_what_they_hold() {
    let pop = vec![scores(vec![0, 5]), scores(vec![6, 0]), scores(vec![2, 2])];
    let mut rng = RandomSource::from_seed(8);
    assert_eq!(Strategy::Best(Best).select(&pop, &mut rng).unwrap().total_result, Score { score: 6 });
    for _ in 0..50 {
        let by_lexicase = Strategy::Lexicase(Lexicase::new(2)).select(&pop, &mut rng).unwrap();
        assert_ne!(by_lexicase.total_result, Score { score: 4 });
        let by_tournament = Strategy::Tournament(Tournament::new(100)).select(&pop, &mut rng).unwrap();
        assert_eq!(by_tournament.total_result, Score { score: 6 });
        let by_chance = Strategy::Random(Random).select(&pop, &mut rng).unwrap();
        assert!(pop.contains(by_chance));
    }
}

#[test]
fn the_winner_is_sampled_and_as_good_as_all_sampled() {
    let pop = vec![scores(vec![3]), scores(vec![9]), scores(vec![1]), scores(vec![9]), scores(vec![4])];
    let mut rng = RandomSource::from_seed(31);
    for size in 1..6usize {
        for _ in 0..100 {
            let sample: Vec<usize> = (0..size).map(|_| rng.below(pop.len())).collect();
            let winner = sample_winner(&pop, &sample).unwrap();
            assert!(sample.contains(&winner));
            for drawn in &sample {
                assert!(pop[winner].total_result >= pop[*drawn].total_result);
            }
            // The first of the best draws.
            let first_best = sample.iter().find(|drawn| pop[**drawn].total_result == pop[winner].total_result);
            assert_eq!(first_best, Some(&winner));
        }
    }
}
