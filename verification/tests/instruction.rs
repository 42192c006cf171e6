use rust_ga::instruction::bool::BoolInstruction;
use rust_ga::instruction::ErrorSeverity;
use rust_ga::instruction::PushState;
use rust_ga::instruction::Stack;
use rust_ga::instruction::StackError;

/// A state whose stacks may hold up to `max` values, with the given values
/// on them: the first of each list on top.
fn state(max: usize, bools: Vec<bool>, ints: Vec<i64>) -> PushState {
    let mut state = PushState::new(max);
    for value in bools.into_iter().rev() {
        state.bool.push(value).unwrap();
    }
    for value in ints.into_iter().rev() {
        state.int.push(value).unwrap();
    }
    state
}

fn all_instructions() -> Vec<BoolInstruction> {
    vec![
        BoolInstruction::Push(true),
        BoolInstruction::Push(false),
        BoolInstruction::Not,
        BoolInstruction::Or,
        BoolInstruction::And,
        BoolInstruction::Xor,
        BoolInstruction::Implies,
        BoolInstruction::FromInt,
    ]
}

#[test]
fn ops_do_not_crash() {
    for instruction in all_instructions() {
        for x in [false, true] {
            for y in [false, true] {
                for i in [i64::MIN, -1, 0, 1, i64::MAX] {
                    assert!(instruction.perform(state(10, vec![x, y], vec![i])).is_ok());
                }
            }
        }
    }
}

#[test]
fn and_is_correct() {
    for x in [false, true] {
        for y in [false, true] {
            let result_state = BoolInstruction::And.perform(state(10, vec![x, y], vec![])).unwrap();
            assert_eq!(result_state.bool.size(), 1);
            assert_eq!(*result_state.bool.top().unwrap(), x && y);
        }
    }
}

#[test]
fn implies_is_correct() {
    for x in [false, true] {
        for y in [false, true] {
            let result_state = BoolInstruction::Implies.perform(state(10, vec![x, y], vec![])).unwrap();
            assert_eq!(result_state.bool.size(), 1);
            assert_eq!(*result_state.bool.top().unwrap(), !x || y);
        }
    }
}

#[test]
fn or_xor_and_not_are_correct() {
    for x in [false, true] {
        for y in [false, true] {
            let or = BoolInstruction::Or.perform(state(10, vec![x, y, true], vec![])).unwrap();
            assert_eq!(or.bool.values, vec![true, x || y]);
            let xor = BoolInstruction::Xor.perform(state(10, vec![x, y, false], vec![])).unwrap();
            assert_eq!(xor.bool.values, vec![false, x != y]);
        }
        let not = BoolInstruction::Not.perform(state(10, vec![x, true], vec![4])).unwrap();
        assert_eq!(not.bool.values, vec![true, !x]);
        assert_eq!(not.int.values, vec![4]);
    }
}

#[test]
fn push_and_from_int_are_correct() {
    let pushed = BoolInstruction::Push(true).perform(state(3, vec![false], vec![7])).unwrap();
    assert_eq!(pushed.bool.values, vec![false, true]);
    assert_eq!(pushed.int.values, vec![7]);
    for (i, expected) in [(0, false), (1, true), (-3, true), (i64::MIN, true)] {
        let after = BoolInstruction::FromInt.perform(state(3, vec![true], vec![i, 9])).unwrap();
        assert_eq!(after.bool.values, vec![true, expected]);
        assert_eq!(after.int.values, vec![9]);
    }
}

#[test]
fn too_few_values_are_a_recoverable_failure() {
    let cases = [
        (BoolInstruction::Not, state(5, vec![], vec![1])),
        (BoolInstruction::And, state(5, vec![true], vec![1])),
        (BoolInstruction::Or, state(5, vec![], vec![])),
        (BoolInstruction::Xor, state(5, vec![false], vec![])),
        (BoolInstruction::Implies, state(5, vec![true], vec![])),
        (BoolInstruction::FromInt, state(5, vec![true, true], vec![])),
    ];
    for (instruction, before) in cases {
        let failure = instruction.perform(before.clone()).unwrap_err();
        assert_eq!(failure.error, StackError::Underflow);
        assert_eq!(failure.severity, ErrorSeverity::Recoverable);
        assert_eq!(failure.state, before);
    }
}

#[test]
fn no_room_is_a_fatal_failure() {
    let full = state(2, vec![true, false], vec![5]);
    for instruction in [BoolInstruction::Push(true), BoolInstruction::FromInt] {
        let failure = instruction.perform(full.clone()).unwrap_err();
        assert_eq!(failure.error, StackError::Overflow);
        assert_eq!(failure.severity, ErrorSeverity::Fatal);
        assert_eq!(failure.state, full);
    }
    // A full stack with no integer: the missing room is found first.
    let failure = BoolInstruction::FromInt.perform(state(1, vec![true], vec![])).unwrap_err();
    assert_eq!(failure.error, StackError::Overflow);
    // The instructions that take before they give work on a full stack.
    assert_eq!(BoolInstruction::Not.perform(full.clone()).unwrap().bool.values, vec![false, false]);
    assert_eq!(BoolInstruction::And.perform(full).unwrap().bool.values, vec![false]);
}

#[test]
fn stacks_keep_their_bound() {
    let mut stack: Stack<i64> = Stack::new(2);
    assert_eq!(stack.size(), 0);
    assert!(!stack.is_full());
    assert_eq!(stack.top(), Err(StackError::Underflow));
    assert_eq!(stack.pop(), Err(StackError::Underflow));
    assert_eq!(stack.pop2(), Err(StackError::Underflow));
    assert_eq!(stack.push(1), Ok(()));
    assert_eq!(stack.pop2(), Err(StackError::Underflow));
    assert_eq!(stack.size(), 1);
    assert_eq!(stack.push(2), Ok(()));
    assert!(stack.is_full());
    assert_eq!(stack.push(3), Err(StackError::Overflow));
    assert_eq!(stack.values, vec![1, 2]);
    assert_eq!(stack.top(), Ok(&2));
    assert_eq!(stack.pop2(), Ok((2, 1)));
    assert_eq!(stack.size(), 0);
    assert_eq!(stack.push(4), Ok(()));
    assert_eq!(stack.pop(), Ok(4));
    let none: Stack<bool> = Stack::new(0);
    assert!(none.is_full());
}
