use vstd::prelude::*;

verus! {

/// Any expression of the language: an arithmetic tree or a boolean tree.
pub enum Expr {
    ArithExpr(ArithExpr),
    BoolExpr(BoolExpr),
}

/// An expression whose value is a 64-bit signed integer.
#[allow(inconsistent_fields)]
pub enum ArithExpr {
    BinArithExpr { left: Box<ArithExpr>, right: Box<ArithExpr>, op: BinArithOp },
    IntLit(i64),
}

/// An expression whose value is a boolean.
#[allow(inconsistent_fields)]
pub enum BoolExpr {
    ArithCmpExpr { left: Box<ArithExpr>, right: Box<ArithExpr>, op: ArithCmpOp },
    BinBoolExpr { left: Box<BoolExpr>, right: Box<BoolExpr>, op: BinLogicOp },
    NotExpr(Box<BoolExpr>),
    BoolLit(bool),
}

/// Operators from two integers to an integer.
#[derive(Clone, Copy, Debug, PartialEq, Eq, Structural)]
pub enum BinArithOp {
    AddOp,
    SubOp,
    MulOp,
    IntDivOp,
}

/// Operators from two integers to a boolean.
#[derive(Clone, Copy, Debug, PartialEq, Eq, Structural)]
pub enum ArithCmpOp {
    LtOp,
    LteOp,
    GtOp,
    GteOp,
    ArithEqOp,
    ArithNeqOp,
}

/// Operators from two booleans to a boolean.
#[derive(Clone, Copy, Debug, PartialEq, Eq, Structural)]
pub enum BinLogicOp {
    AndOp,
    OrOp,
    BoolEqOp,
    BoolNeqOp,
}

/// The result of evaluating an expression.
#[derive(Clone, Copy, Debug, PartialEq, Eq, Structural)]
pub enum Value {
    BoolValue(bool),
    IntValue(i64),
}

/// Why an evaluation failed.
#[derive(Clone, Copy, Debug, PartialEq, Eq, Structural)]
pub enum EvalError {
    /// An integer division whose divisor evaluated to zero.
    DivisionByZero,
}

} // verus!
