//! The instructions on booleans.

use crate::instruction::ErrorSeverity;
use crate::instruction::InstructionError;
use crate::instruction::PushState;
use crate::instruction::PushStateModel;
use crate::instruction::StackError;
use vstd::prelude::*;

verus! {

/// An instruction that works on the stack of booleans.
#[derive(Debug, Clone, Copy, PartialEq, Eq, Structural)]
pub enum BoolInstruction {
    /// Puts the value on the stack.
    Push(bool),
    /// Replaces the top value by its negation.
    Not,
    /// Replaces the two top values by their disjunction.
    Or,
    /// Replaces the two top values by their conjunction.
    And,
    /// Replaces the two top values by `true` where they differ.
    Xor,
    /// Replaces the two top values by `true` unless the top one holds and
    /// the one below it does not.
    Implies,
    /// Takes the top integer off its stack and puts on the stack of
    /// booleans whether it is other than zero.
    FromInt,
}

/// What an instruction on two booleans makes of the top value `x` and the
/// one below it, `y`. (The other instructions make nothing of two values.)
pub open spec fn combined(instruction: BoolInstruction, x: bool, y: bool) -> bool {
    match instruction {
        BoolInstruction::And => x && y,
        BoolInstruction::Or => x || y,
        BoolInstruction::Xor => x != y,
        BoolInstruction::Implies => !x || y,
        _ => false,
    }
}

/// The state with `bools` in place of its booleans.
pub open spec fn with_bools(state: PushStateModel, bools: Seq<bool>) -> PushStateModel {
    PushStateModel { bools, ..state }
}

/// What performing `instruction` on `state` comes to: the new state, or
/// what went wrong and how bad it is. An instruction that finds too few
/// values fails recoverably, one that finds no room for its result
/// fatally.
pub open spec fn performed(instruction: BoolInstruction, state: PushStateModel) -> Result<
    PushStateModel,
    (StackError, ErrorSeverity),
> {
    let bools = state.bools;
    let full = bools.len() >= state.bool_max;
    match instruction {
        BoolInstruction::Push(b) => if full {
            Err((StackError::Overflow, ErrorSeverity::Fatal))
        } else {
            Ok(with_bools(state, bools.push(b)))
        },
        BoolInstruction::Not => if bools.len() == 0 {
            Err((StackError::Underflow, ErrorSeverity::Recoverable))
        } else {
            Ok(with_bools(state, bools.drop_last().push(!bools.last())))
        },
        BoolInstruction::FromInt => if full {
            Err((StackError::Overflow, ErrorSeverity::Fatal))
        } else if state.ints.len() == 0 {
            Err((StackError::Underflow, ErrorSeverity::Recoverable))
        } else {
            Ok(
                PushStateModel {
                    bools: bools.push(state.ints.last() != 0),
                    ints: state.ints.drop_last(),
                    ..state
                },
            )
        },
        BoolInstruction::And
        | BoolInstruction::Or
        | BoolInstruction::Xor
        | BoolInstruction::Implies => if bools.len() < 2 {
            Err((StackError::Underflow, ErrorSeverity::Recoverable))
        } else {
            Ok(
                with_bools(
                    state,
                    bools.take(bools.len() - 2).push(
                        combined(instruction, bools[bools.len() - 1], bools[bools.len() - 2]),
                    ),
                ),
            )
        },
    }
}

/// The failure of an instruction that has left `state` as it was.
fn failed(state: PushState, error: StackError, severity: ErrorSeverity) -> (out: Result<
    PushState,
    InstructionError,
>)
    ensures
        out matches Err(failure) && failure.state@ == state@ && failure.error == error
            && failure.severity == severity,
{
    Err(InstructionError { state, error, severity })
}

impl BoolInstruction {
    /// Performs the instruction on `state`. After a failure the state is as
    /// it was.
    pub fn perform(&self, state: PushState) -> (out: Result<PushState, InstructionError>)
        ensures
            match out {
                Ok(after) => performed(*self, state@) == Ok::<PushStateModel, (StackError, ErrorSeverity)>(
                    after@,
                ),
                Err(failure) => failure.state@ == state@ && performed(*self, state@) == Err::<
                    PushStateModel,
                    (StackError, ErrorSeverity),
                >((failure.error, failure.severity)),
            },
    {
        let mut state = state;
        match self {
            BoolInstruction::Push(b) => match state.bool.push(*b) {
                Ok(_) => Ok(state),
                Err(e) => failed(state, e, ErrorSeverity::Fatal),
            },
            BoolInstruction::Not => match state.bool.pop() {
                Err(e) => failed(state, e, ErrorSeverity::Recoverable),
                Ok(x) => {
                    state.bool.values.push(!x);
                    Ok(state)
                },
            },
            BoolInstruction::FromInt => {
                if state.bool.is_full() {
                    return failed(state, StackError::Overflow, ErrorSeverity::Fatal);
                }
                match state.int.pop() {
                    Err(e) => failed(state, e, ErrorSeverity::Recoverable),
                    Ok(i) => {
                        state.bool.values.push(i != 0);
                        Ok(state)
                    },
                }
            },
            BoolInstruction::And
            | BoolInstruction::Or
            | BoolInstruction::Xor
            | BoolInstruction::Implies => {
                match state.bool.pop2() {
                    Err(e) => failed(state, e, ErrorSeverity::Recoverable),
                    Ok((x, y)) => {
                        let result = match self {
                            BoolInstruction::And => x && y,
                            BoolInstruction::Or => x || y,
                            BoolInstruction::Xor => x != y,
                            _ => !x || y,
                        };
                        state.bool.values.push(result);
                        Ok(state)
                    },
                }
            },
        }
    }
}

} // verus!
