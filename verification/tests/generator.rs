use rust_ga::error::EvolutionError;
use rust_ga::generator::pick_copy;
use rust_ga::generator::CollectionGenerator;
use rust_ga::generator::Generator;
use rust_ga::random::RandomSource;

#[test]
fn a_vector_generates_one_of_its_options() {
    let options = vec![3, 5, 8];
    let mut seen = [false; 3];
    for seed in 0..200u64 {
        let mut rng = RandomSource::from_seed(seed);
        let made = options.generate(&mut rng).unwrap();
        seen[options.iter().position(|option| *option == made).unwrap()] = true;
    }
    assert_eq!(seen, [true, true, true]);
}

#[test]
fn an_array_generates_one_of_its_options() {
    let options = [String::from("a"), String::from("b")];
    let mut rng = RandomSource::from_seed(1);
    for _ in 0..50 {
        let made = options.generate(&mut rng).unwrap();
        assert!(made == "a" || made == "b");
    }
    let by_reference = &options;
    assert!(options.contains(&by_reference.generate(&mut rng).unwrap()));
}

#[test]
fn nothing_is_generated_from_no_options() {
    let mut rng = RandomSource::from_seed(2);
    let nothing: Vec<u8> = vec![];
    assert_eq!(nothing.generate(&mut rng), Err(EvolutionError::EmptyCollection));
    let none: [u8; 0] = [];
    assert_eq!(none.generate(&mut rng), Err(EvolutionError::EmptyCollection));
    assert_eq!(pick_copy(&nothing, &mut rng), Err(EvolutionError::EmptyCollection));
    assert_eq!(pick_copy(&[7u8], &mut rng), Ok(7));
}

#[test]
fn the_random_source_keeps_its_promises() {
    let mut rng = RandomSource::from_seed(3);
    for bound in 1..200usize {
        assert!(rng.below(bound) < bound);
    }
    assert_eq!(rng.below(1), 0);
    let mut heads = 0;
    for _ in 0..1000 {
        if rng.coin() {
            heads += 1;
        }
    }
    assert!(heads > 400 && heads < 600, "{heads}");
    let mut items: Vec<usize> = (0..50).collect();
    rng.shuffle(&mut items);
    assert_ne!(items, (0..50).collect::<Vec<usize>>());
    items.sort();
    assert_eq!(items, (0..50).collect::<Vec<usize>>());
    let nothing: Vec<u8> = vec![];
    assert_eq!(rng.pick(&nothing), None);
    assert_eq!(rng.pick(&[4u8]), Some(&4));
    // The same seed gives the same draws, another seed other draws.
    let mut one = RandomSource::from_seed(5);
    let mut same = RandomSource::from_seed(5);
    let mut other = RandomSource::from_seed(6);
    let first: Vec<usize> = (0..20).map(|_| one.below(1000)).collect();
    let second: Vec<usize> = (0..20).map(|_| same.below(1000)).collect();
    let third: Vec<usize> = (0..20).map(|_| other.below(1000)).collect();
    assert_eq!(first, second);
    assert_ne!(first, third);
}

#[test]
fn a_collection_generator_makes_as_many_as_asked() {
    let mut rng = RandomSource::from_seed(4);
    let digits = CollectionGenerator { size: 25, element_generator: vec![1u8, 2, 3] };
    let made = digits.generate(&mut rng).unwrap();
    assert_eq!(made.len(), 25);
    assert!(made.iter().all(|digit| [1u8, 2, 3].contains(digit)));
    let rows = CollectionGenerator { size: 4, element_generator: digits.clone() };
    let table = rows.generate(&mut rng).unwrap();
    assert_eq!(table.len(), 4);
    assert!(table.iter().all(|row| row.len() == 25));
    let nothing: Vec<u8> = vec![];
    let failing = CollectionGenerator { size: 3, element_generator: nothing.clone() };
    assert_eq!(failing.generate(&mut rng), Err(EvolutionError::EmptyCollection));
    let none = CollectionGenerator { size: 0, element_generator: nothing };
    assert_eq!(none.generate(&mut rng), Ok(vec![]));
}
