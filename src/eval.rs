//! The evaluator: reduces a tree to its value, leaves first.
use crate::expr::{ArithCmpOp, ArithExpr, BinArithOp, BinLogicOp, BoolExpr, EvalError, Expr, Value};
use crate::semantics::{arith_op_value, arith_value, bool_value, cmp_op_value, expr_value, logic_op_value};
use vstd::prelude::*;

verus! {

/// Applies an arithmetic operator with 64-bit wrapping on overflow; fails only
/// on a division by zero.
fn apply_arith_op(op: BinArithOp, a: i64, b: i64) -> (r: Result<i64, EvalError>)
    ensures
        r == arith_op_value(op, a, b),
{
    match op {
        BinArithOp::AddOp => Ok(a.wrapping_add(b)),
        BinArithOp::SubOp => Ok(a.wrapping_sub(b)),
        BinArithOp::MulOp => Ok(a.wrapping_mul(b)),
        BinArithOp::IntDivOp => {
            if b == 0 {
                Err(EvalError::DivisionByZero)
            } else {
                match a.checked_div(b) {
                    Some(q) => Ok(q),
                    None => Ok(i64::MIN),
                }
            }
        },
    }
}

/// Applies a comparison operator to two integers.
fn apply_cmp_op(op: ArithCmpOp, p: i64, q: i64) -> (r: bool)
    ensures
        r == cmp_op_value(op, p, q),
{
    match op {
        ArithCmpOp::LtOp => p < q,
        ArithCmpOp::LteOp => p <= q,
        ArithCmpOp::GtOp => p > q,
        ArithCmpOp::GteOp => p >= q,
        ArithCmpOp::ArithEqOp => p == q,
        ArithCmpOp::ArithNeqOp => p != q,
    }
}

/// Applies a logic operator to two booleans; both operands are already evaluated.
fn apply_logic_op(op: BinLogicOp, x: bool, y: bool) -> (r: bool)
    ensures
        r == logic_op_value(op, x, y),
{
    match op {
        BinLogicOp::AndOp => x && y,
        BinLogicOp::OrOp => x || y,
        BinLogicOp::BoolEqOp => x == y,
        BinLogicOp::BoolNeqOp => x != y,
    }
}

/// Evaluates an expression: an arithmetic tree gives an `IntValue`, a boolean
/// tree a `BoolValue`. The one failure is a division by zero anywhere in the tree.
pub fn eval(expr: Expr) -> (r: Result<Value, EvalError>)
    ensures
        r == expr_value(expr),
        expr is ArithExpr ==> (r is Ok <==> r matches Ok(Value::IntValue(_))),
        expr is BoolExpr ==> (r is Ok <==> r matches Ok(Value::BoolValue(_))),
{
    match expr {
        Expr::ArithExpr(arith_expr) => match eval_arith_expr(arith_expr) {
            Ok(n) => Ok(Value::IntValue(n)),
            Err(err) => Err(err),
        },
        Expr::BoolExpr(bool_expr) => match eval_bool_expr(bool_expr) {
            Ok(b) => Ok(Value::BoolValue(b)),
            Err(err) => Err(err),
        },
    }
}

/// Evaluates an arithmetic tree to the integer it denotes. Addition,
/// subtraction and multiplication wrap on 64-bit overflow; division rounds
/// toward zero and fails with `DivisionByZero` on a zero divisor.
pub fn eval_arith_expr(arith_expr: ArithExpr) -> (r: Result<i64, EvalError>)
    ensures
        r == arith_value(arith_expr),
    decreases arith_expr,
{
    match arith_expr {
        ArithExpr::BinArithExpr { left, right, op } => {
            let a = match eval_arith_expr(*left) {
                Ok(a) => a,
                Err(err) => return Err(err),
            };
            let b = match eval_arith_expr(*right) {
                Ok(b) => b,
                Err(err) => return Err(err),
            };
            apply_arith_op(op, a, b)
        },
        ArithExpr::IntLit(num) => Ok(num),
    }
}

/// Evaluates a boolean tree to the boolean it denotes; fails only where an
/// arithmetic subtree divides by zero.
pub fn eval_bool_expr(bool_expr: BoolExpr) -> (r: Result<bool, EvalError>)
    ensures
        r == bool_value(bool_expr),
    decreases bool_expr,
{
    match bool_expr {
        BoolExpr::ArithCmpExpr { left, right, op } => {
            let p = match eval_arith_expr(*left) {
                Ok(p) => p,
                Err(err) => return Err(err),
            };
            let q = match eval_arith_expr(*right) {
                Ok(q) => q,
                Err(err) => return Err(err),
            };
            Ok(apply_cmp_op(op, p, q))
        },
        BoolExpr::BinBoolExpr { left, right, op } => {
            let x = match eval_bool_expr(*left) {
                Ok(x) => x,
                Err(err) => return Err(err),
            };
            let y = match eval_bool_expr(*right) {
                Ok(y) => y,
                Err(err) => return Err(err),
            };
            Ok(apply_logic_op(op, x, y))
        },
        BoolExpr::NotExpr(bool_ex) => match eval_bool_expr(*bool_ex) {
            Ok(x) => Ok(!x),
            Err(err) => Err(err),
        },
        BoolExpr::BoolLit(b) => Ok(b),
    }
}

} // verus!
