//! The meaning of expressions, as spec functions over mathematical integers.
use crate::expr::{ArithCmpOp, ArithExpr, BinArithOp, BinLogicOp, BoolExpr, EvalError, Expr, Value};
use vstd::prelude::*;

verus! {

/// Number of distinct 64-bit values.
pub open spec fn modulus64() -> int {
    0x1_0000_0000_0000_0000
}

/// The 64-bit two's complement integer congruent to `x` modulo 2^64:
/// what native wrapping arithmetic keeps of an exact result.
pub open spec fn wrap_i64(x: int) -> i64 {
    let m = x % modulus64();
    if m > i64::MAX {
        (m - modulus64()) as i64
    } else {
        m as i64
    }
}

pub open spec fn abs(x: int) -> int {
    if x < 0 {
        -x
    } else {
        x
    }
}

/// Integer quotient rounded toward zero (meaningful for `d != 0`).
pub open spec fn trunc_div(x: int, d: int) -> int {
    let q = abs(x) / abs(d);
    if (x < 0) == (d < 0) {
        q
    } else {
        -q
    }
}

/// The result of applying an arithmetic operator to two evaluated operands.
pub open spec fn arith_op_value(op: BinArithOp, a: i64, b: i64) -> Result<i64, EvalError> {
    match op {
        BinArithOp::AddOp => Ok(wrap_i64(a + b)),
        BinArithOp::SubOp => Ok(wrap_i64(a - b)),
        BinArithOp::MulOp => Ok(wrap_i64(a * b)),
        BinArithOp::IntDivOp => if b == 0 {
            Err(EvalError::DivisionByZero)
        } else {
            Ok(wrap_i64(trunc_div(a as int, b as int)))
        },
    }
}

/// The result of applying a comparison operator to two integers.
pub open spec fn cmp_op_value(op: ArithCmpOp, p: i64, q: i64) -> bool {
    match op {
        ArithCmpOp::LtOp => p < q,
        ArithCmpOp::LteOp => p <= q,
        ArithCmpOp::GtOp => p > q,
        ArithCmpOp::GteOp => p >= q,
        ArithCmpOp::ArithEqOp => p == q,
        ArithCmpOp::ArithNeqOp => p != q,
    }
}

/// The result of applying a logic operator to two booleans.
pub open spec fn logic_op_value(op: BinLogicOp, x: bool, y: bool) -> bool {
    match op {
        BinLogicOp::AndOp => x && y,
        BinLogicOp::OrOp => x || y,
        BinLogicOp::BoolEqOp => x == y,
        BinLogicOp::BoolNeqOp => x != y,
    }
}

/// The integer an arithmetic tree denotes, or the failure that stops its evaluation.
pub open spec fn arith_value(e: ArithExpr) -> Result<i64, EvalError>
    decreases e,
{
    match e {
        ArithExpr::IntLit(n) => Ok(n),
        ArithExpr::BinArithExpr { left, right, op } => match arith_value(*left) {
            Err(err) => Err(err),
            Ok(a) => match arith_value(*right) {
                Err(err) => Err(err),
                Ok(b) => arith_op_value(op, a, b),
            },
        },
    }
}

/// The boolean a boolean tree denotes, or the failure that stops its evaluation.
pub open spec fn bool_value(e: BoolExpr) -> Result<bool, EvalError>
    decreases e,
{
    match e {
        BoolExpr::BoolLit(b) => Ok(b),
        BoolExpr::NotExpr(inner) => match bool_value(*inner) {
            Err(err) => Err(err),
            Ok(x) => Ok(!x),
        },
        BoolExpr::ArithCmpExpr { left, right, op } => match arith_value(*left) {
            Err(err) => Err(err),
            Ok(p) => match arith_value(*right) {
                Err(err) => Err(err),
                Ok(q) => Ok(cmp_op_value(op, p, q)),
            },
        },
        BoolExpr::BinBoolExpr { left, right, op } => match bool_value(*left) {
            Err(err) => Err(err),
            Ok(x) => match bool_value(*right) {
                Err(err) => Err(err),
                Ok(y) => Ok(logic_op_value(op, x, y)),
            },
        },
    }
}

/// The value an expression denotes: an integer for an arithmetic tree, a
/// boolean for a boolean tree.
pub open spec fn expr_value(e: Expr) -> Result<Value, EvalError> {
    match e {
        Expr::ArithExpr(a) => match arith_value(a) {
            Err(err) => Err(err),
            Ok(n) => Ok(Value::IntValue(n)),
        },
        Expr::BoolExpr(b) => match bool_value(b) {
            Err(err) => Err(err),
            Ok(x) => Ok(Value::BoolValue(x)),
        },
    }
}

} // verus!
