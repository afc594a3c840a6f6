//! The integer operations shared by the evaluator and the stack machine:
//! 32-bit signed arithmetic where a result out of range is an error, and where
//! division truncates toward zero.
use vstd::prelude::*;

verus! {

#[derive(Debug, Clone, Copy, PartialEq, Eq, Structural)]
pub enum BinOp {
    Add,
    Sub,
    Mul,
    Div,
}

#[derive(Debug, Clone, Copy, PartialEq, Eq, Structural)]
pub enum ArithError {
    DivisionByZero,
    Overflow,
}

/// Division truncated toward zero.
pub open spec fn trunc_div(x: int, d: int) -> int {
    if x == 0 {
        0
    } else if x > 0 && d > 0 {
        x / d
    } else if x < 0 && d < 0 {
        (-x) / (-d)
    } else if x < 0 {
        -((-x) / d)
    } else {
        -(x / (-d))
    }
}

/// The exact result of `a op b`, before any range check.
pub open spec fn exact(op: BinOp, a: int, b: int) -> int {
    match op {
        BinOp::Add => a + b,
        BinOp::Sub => a - b,
        BinOp::Mul => a * b,
        BinOp::Div => trunc_div(a, b),
    }
}

/// `a op b` as an `i32`: division by zero and results out of range are errors.
pub open spec fn spec_apply(op: BinOp, a: i32, b: i32) -> Result<i32, ArithError> {
    if op == BinOp::Div && b == 0 {
        Err(ArithError::DivisionByZero)
    } else if i32::MIN <= exact(op, a as int, b as int) <= i32::MAX {
        Ok(exact(op, a as int, b as int) as i32)
    } else {
        Err(ArithError::Overflow)
    }
}

pub fn apply(op: BinOp, a: i32, b: i32) -> (r: Result<i32, ArithError>)
    ensures
        r == spec_apply(op, a, b),
{
    let checked = match op {
        BinOp::Add => a.checked_add(b),
        BinOp::Sub => a.checked_sub(b),
        BinOp::Mul => a.checked_mul(b),
        BinOp::Div => {
            if b == 0 {
                return Err(ArithError::DivisionByZero);
            }
            a.checked_div(b)
        },
    };
    match checked {
        Some(v) => Ok(v),
        None => Err(ArithError::Overflow),
    }
}

} // verus!
