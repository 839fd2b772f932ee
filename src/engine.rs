//! The domain engine: `dividend / n` for two fixed dividends, with one
//! rejected input per operation.

use vstd::prelude::*;

verus! {

/// Dividend of the first operation.
pub const DIVIDEND_42: usize = 42;

/// Input that the first operation refuses by policy.
pub const REJECTED_42: usize = 13;

/// Dividend of the second operation.
pub const DIVIDEND_1337: usize = 1337;

/// Input that the second operation refuses by policy.
pub const REJECTED_1337: usize = 23;

/// The domain failures.
#[derive(PartialEq, Eq, Structural, Clone, Copy, Debug)]
pub enum Error {
    /// The input is the operation's rejected value.
    DontLikeIt,
    /// The input is zero.
    DivisionByZero,
}

/// The two operations that the service offers.
#[derive(PartialEq, Eq, Structural, Clone, Copy, Debug)]
pub enum Operation {
    Op42,
    Op1337,
}

pub open spec fn dividend(op: Operation) -> usize {
    match op {
        Operation::Op42 => DIVIDEND_42,
        Operation::Op1337 => DIVIDEND_1337,
    }
}

pub open spec fn rejected(op: Operation) -> usize {
    match op {
        Operation::Op42 => REJECTED_42,
        Operation::Op1337 => REJECTED_1337,
    }
}

/// The policy, in its fixed order: the rejected value first, then zero, else
/// the truncating quotient.
pub open spec fn spec_evaluate(op: Operation, n: usize) -> Result<usize, Error> {
    if n == rejected(op) {
        Err(Error::DontLikeIt)
    } else if n == 0 {
        Err(Error::DivisionByZero)
    } else {
        Ok((dividend(op) / n) as usize)
    }
}

/// `42 / n`, refusing 13 and zero.
pub fn nth42(n: usize) -> (r: Result<usize, Error>)
    ensures
        r == spec_evaluate(Operation::Op42, n),
{
    if n == REJECTED_42 {
        Err(Error::DontLikeIt)
    } else if n == 0 {
        Err(Error::DivisionByZero)
    } else {
        Ok(DIVIDEND_42 / n)
    }
}

/// `1337 / n`, refusing 23 and zero.
pub fn nth1337(n: usize) -> (r: Result<usize, Error>)
    ensures
        r == spec_evaluate(Operation::Op1337, n),
{
    if n == REJECTED_1337 {
        Err(Error::DontLikeIt)
    } else if n == 0 {
        Err(Error::DivisionByZero)
    } else {
        Ok(DIVIDEND_1337 / n)
    }
}

} // verus!
