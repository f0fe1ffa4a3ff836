//! A tree-walking evaluator for a small language of integer arithmetic,
//! integer comparisons and boolean logic.
pub mod eval;
pub mod expr;
pub mod laws;
pub mod semantics;

pub use eval::{eval, eval_arith_expr, eval_bool_expr};
pub use expr::{ArithCmpOp, ArithExpr, BinArithOp, BinLogicOp, BoolExpr, EvalError, Expr, Value};
