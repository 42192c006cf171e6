//! Instructions of a small stack machine, and the state they work on.

use vstd::prelude::*;

pub mod bool;

verus! {

/// Why a stack operation could not be done.
#[derive(Debug, Clone, Copy, PartialEq, Eq, Structural)]
pub enum StackError {
    /// The stack holds fewer values than were asked for.
    Underflow,
    /// The stack holds as many values as it may.
    Overflow,
}

/// How bad a failed instruction is for the program it stands in: after a
/// recoverable failure the program goes on with the next instruction,
/// after a fatal one it ends.
#[derive(Debug, Clone, Copy, PartialEq, Eq, Structural)]
pub enum ErrorSeverity {
    Recoverable,
    Fatal,
}

/// A stack with a largest size. The top of the stack is the last of its
/// values.
#[derive(Debug, Clone, PartialEq, Eq)]
pub struct Stack<T> {
    pub max_stack_size: usize,
    pub values: Vec<T>,
}

/// The state of the machine: a stack of booleans and a stack of integers.
#[derive(Debug, Clone, PartialEq, Eq)]
pub struct PushState {
    pub bool: Stack<bool>,
    pub int: Stack<i64>,
}

/// What a state holds.
pub struct PushStateModel {
    pub bool_max: usize,
    pub bools: Seq<bool>,
    pub int_max: usize,
    pub ints: Seq<i64>,
}

impl View for PushState {
    type V = PushStateModel;

    open spec fn view(&self) -> PushStateModel {
        PushStateModel {
            bool_max: self.bool.max_stack_size,
            bools: self.bool.values@,
            int_max: self.int.max_stack_size,
            ints: self.int.values@,
        }
    }
}

/// A failed instruction: the state, which the instruction has left as it
/// was, what went wrong, and how bad that is.
#[derive(Debug, Clone, PartialEq, Eq)]
pub struct InstructionError {
    pub state: PushState,
    pub error: StackError,
    pub severity: ErrorSeverity,
}

impl<T> Stack<T> {
    /// An empty stack that may hold up to `max_stack_size` values.
    pub fn new(max_stack_size: usize) -> (stack: Self)
        ensures
            stack.max_stack_size == max_stack_size,
            stack.values@ == Seq::<T>::empty(),
    {
        Stack { max_stack_size, values: Vec::new() }
    }

    /// The number of values on the stack.
    pub fn size(&self) -> (n: usize)
        ensures
            n == self.values@.len(),
    {
        self.values.len()
    }

    /// Whether the stack holds as many values as it may, or more.
    pub fn is_full(&self) -> (full: bool)
        ensures
            full == (self.values@.len() >= self.max_stack_size),
    {
        self.values.len() >= self.max_stack_size
    }

    /// The value on top of the stack.
    pub fn top(&self) -> (out: Result<&T, StackError>)
        ensures
            match out {
                Ok(value) => self.values@.len() > 0 && *value == self.values@.last(),
                Err(e) => self.values@.len() == 0 && e == StackError::Underflow,
            },
    {
        if self.values.len() == 0 {
            Err(StackError::Underflow)
        } else {
            Ok(&self.values[self.values.len() - 1])
        }
    }

    /// Takes the top value off the stack. An empty stack stays as it is.
    pub fn pop(&mut self) -> (out: Result<T, StackError>)
        ensures
            final(self).max_stack_size == old(self).max_stack_size,
            match out {
                Ok(value) => old(self).values@.len() > 0 && value == old(self).values@.last()
                    && final(self).values@ == old(self).values@.drop_last(),
                Err(e) => old(self).values@.len() == 0 && e == StackError::Underflow
                    && final(self).values@ == old(self).values@,
            },
    {
        match self.values.pop() {
            Some(value) => Ok(value),
            None => Err(StackError::Underflow),
        }
    }

    /// Takes the two top values off the stack: the top first, then the one
    /// below it. A stack with fewer than two values stays as it is.
    pub fn pop2(&mut self) -> (out: Result<(T, T), StackError>)
        ensures
            final(self).max_stack_size == old(self).max_stack_size,
            match out {
                Ok(pair) => {
                    &&& old(self).values@.len() >= 2
                    &&& pair.0 == old(self).values@[old(self).values@.len() - 1]
                    &&& pair.1 == old(self).values@[old(self).values@.len() - 2]
                    &&& final(self).values@ == old(self).values@.take(old(self).values@.len() - 2)
                },
                Err(e) => old(self).values@.len() < 2 && e == StackError::Underflow
                    && final(self).values@ == old(self).values@,
            },
    {
        if self.values.len() < 2 {
            return Err(StackError::Underflow);
        }
        let first = self.values.pop().unwrap();
        let second = self.values.pop().unwrap();
        Ok((first, second))
    }

    /// Puts `value` on top of the stack. A full stack stays as it is.
    pub fn push(&mut self, value: T) -> (out: Result<(), StackError>)
        ensures
            final(self).max_stack_size == old(self).max_stack_size,
            match out {
                Ok(_) => old(self).values@.len() < old(self).max_stack_size && final(self).values@
                    == old(self).values@.push(value),
                Err(e) => old(self).values@.len() >= old(self).max_stack_size && e
                    == StackError::Overflow && final(self).values@ == old(self).values@,
            },
    {
        if self.values.len() >= self.max_stack_size {
            Err(StackError::Overflow)
        } else {
            self.values.push(value);
            Ok(())
        }
    }
}

impl PushState {
    /// The state with empty stacks that may each hold up to
    /// `max_stack_size` values.
    pub fn new(max_stack_size: usize) -> (state: Self)
        ensures
            state@ == (PushStateModel {
                bool_max: max_stack_size,
                bools: Seq::<bool>::empty(),
                int_max: max_stack_size,
                ints: Seq::<i64>::empty(),
            }),
    {
        PushState { bool: Stack::new(max_stack_size), int: Stack::new(max_stack_size) }
    }
}

} // verus!
