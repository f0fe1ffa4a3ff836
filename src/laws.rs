//! Algebraic laws of the evaluator, proved over the spec-level meaning of trees.
use crate::expr::{ArithCmpOp, ArithExpr, BinArithOp, BinLogicOp, BoolExpr, EvalError, Expr, Value};
use crate::semantics::{abs, arith_value, bool_value, expr_value, modulus64, trunc_div, wrap_i64};
use vstd::arithmetic::div_mod::{lemma_div_multiples_vanish, lemma_mod_multiples_vanish};
use vstd::prelude::*;

verus! {

/// The arithmetic tree `left op right`.
pub open spec fn arith_bin(left: ArithExpr, right: ArithExpr, op: BinArithOp) -> ArithExpr {
    ArithExpr::BinArithExpr { left: Box::new(left), right: Box::new(right), op }
}

/// The boolean tree comparing `left` and `right` with `op`.
pub open spec fn cmp_bin(left: ArithExpr, right: ArithExpr, op: ArithCmpOp) -> BoolExpr {
    BoolExpr::ArithCmpExpr { left: Box::new(left), right: Box::new(right), op }
}

/// The boolean tree `left op right`.
pub open spec fn logic_bin(left: BoolExpr, right: BoolExpr, op: BinLogicOp) -> BoolExpr {
    BoolExpr::BinBoolExpr { left: Box::new(left), right: Box::new(right), op }
}

/// The boolean tree negating `operand`.
pub open spec fn not(operand: BoolExpr) -> BoolExpr {
    BoolExpr::NotExpr(Box::new(operand))
}

/// Wrapping leaves a value that already fits in 64 bits unchanged.
pub proof fn lemma_wrap_fits(x: int)
    requires
        i64::MIN <= x <= i64::MAX,
    ensures
        wrap_i64(x) == x,
{
}

/// Wrapping does not see multiples of 2^64.
pub proof fn lemma_wrap_periodic(x: int, k: int)
    ensures
        wrap_i64(x + modulus64() * k) == wrap_i64(x),
{
    lemma_mod_multiples_vanish(k, x, modulus64());
}

/// Adding `b` and then subtracting `b` gives back `a`, overflow or not.
pub proof fn lemma_add_then_sub(a: i64, b: i64)
    ensures
        expr_value(Expr::ArithExpr(arith_bin(
            arith_bin(ArithExpr::IntLit(a), ArithExpr::IntLit(b), BinArithOp::AddOp),
            ArithExpr::IntLit(b),
            BinArithOp::SubOp,
        ))) == Ok::<Value, EvalError>(Value::IntValue(a)),
{
    let sum = arith_bin(ArithExpr::IntLit(a), ArithExpr::IntLit(b), BinArithOp::AddOp);
    let s = wrap_i64(a + b);
    assert(arith_value(ArithExpr::IntLit(a)) == Ok::<i64, EvalError>(a));
    assert(arith_value(ArithExpr::IntLit(b)) == Ok::<i64, EvalError>(b));
    assert(arith_value(sum) == Ok::<i64, EvalError>(s));
    if a + b > i64::MAX {
        lemma_wrap_periodic(a + b, -1);
        lemma_wrap_fits(a + b - modulus64());
        lemma_wrap_periodic(a as int, -1);
    } else if a + b < i64::MIN {
        lemma_wrap_periodic(a + b, 1);
        lemma_wrap_fits(a + b + modulus64());
        lemma_wrap_periodic(a as int, 1);
    } else {
        lemma_wrap_fits(a + b);
    }
    lemma_wrap_fits(a as int);
    assert(wrap_i64(s - b) == a);
}

/// Truncating division undoes a multiplication by a nonzero divisor.
pub proof fn lemma_trunc_div_of_product(a: int, b: int)
    requires
        b != 0,
    ensures
        trunc_div(a * b, b) == a,
{
    assert(abs(a * b) == abs(b) * abs(a)) by (nonlinear_arith);
    lemma_div_multiples_vanish(abs(a), abs(b));
    if a > 0 {
        assert((a * b < 0) == (b < 0)) by (nonlinear_arith)
            requires
                a > 0,
                b != 0,
        ;
    } else if a < 0 {
        assert((a * b < 0) != (b < 0)) by (nonlinear_arith)
            requires
                a < 0,
                b != 0,
        ;
    } else {
        assert(a * b == 0);
    }
}

/// Multiplying by a nonzero `b` and then dividing by `b` gives back `a`,
/// provided the product fits in 64 bits.
pub proof fn lemma_mul_then_div(a: i64, b: i64)
    requires
        b != 0,
        i64::MIN <= a * b <= i64::MAX,
    ensures
        expr_value(Expr::ArithExpr(arith_bin(
            arith_bin(ArithExpr::IntLit(a), ArithExpr::IntLit(b), BinArithOp::MulOp),
            ArithExpr::IntLit(b),
            BinArithOp::IntDivOp,
        ))) == Ok::<Value, EvalError>(Value::IntValue(a)),
{
    let product = arith_bin(ArithExpr::IntLit(a), ArithExpr::IntLit(b), BinArithOp::MulOp);
    assert(arith_value(ArithExpr::IntLit(a)) == Ok::<i64, EvalError>(a));
    assert(arith_value(ArithExpr::IntLit(b)) == Ok::<i64, EvalError>(b));
    lemma_wrap_fits(a * b);
    assert(arith_value(product) == Ok::<i64, EvalError>((a * b) as i64));
    lemma_trunc_div_of_product(a as int, b as int);
    lemma_wrap_fits(a as int);
}

/// Dividing any integer by the literal zero fails with `DivisionByZero`.
pub proof fn lemma_div_by_zero(n: i64)
    ensures
        expr_value(Expr::ArithExpr(arith_bin(
            ArithExpr::IntLit(n),
            ArithExpr::IntLit(0),
            BinArithOp::IntDivOp,
        ))) == Err::<Value, EvalError>(EvalError::DivisionByZero),
{
    assert(arith_value(ArithExpr::IntLit(n)) == Ok::<i64, EvalError>(n));
    assert(arith_value(ArithExpr::IntLit(0)) == Ok::<i64, EvalError>(0));
}

/// Negating "less than" gives "greater or equal", for any two arithmetic
/// subtrees (integer literals among them).
pub proof fn lemma_not_lt_is_ge(a: ArithExpr, b: ArithExpr)
    ensures
        expr_value(Expr::BoolExpr(not(cmp_bin(a, b, ArithCmpOp::LtOp)))) == expr_value(
            Expr::BoolExpr(cmp_bin(a, b, ArithCmpOp::GteOp)),
        ),
{
    let lt = cmp_bin(a, b, ArithCmpOp::LtOp);
    assert(bool_value(lt) is Ok ==> bool_value(lt)->Ok_0 == (arith_value(a)->Ok_0
        < arith_value(b)->Ok_0));
    assert(bool_value(not(lt)) == bool_value(
        cmp_bin(a, b, ArithCmpOp::GteOp),
    ));
}

/// Negating twice gives back the value of the operand, or its failure.
pub proof fn lemma_double_negation(x: BoolExpr)
    ensures
        expr_value(Expr::BoolExpr(not(not(x)))) == expr_value(Expr::BoolExpr(x)),
{
    let once = not(x);
    assert(bool_value(once) is Ok <==> bool_value(x) is Ok);
    assert(bool_value(once) is Ok ==> bool_value(once)->Ok_0 == !bool_value(x)->Ok_0);
    assert(bool_value(not(once)) == bool_value(x));
}

/// `And` and `Or` over boolean leaves do not depend on the order of the operands.
pub proof fn lemma_and_or_commutative(x: bool, y: bool, op: BinLogicOp)
    requires
        op is AndOp || op is OrOp,
    ensures
        expr_value(Expr::BoolExpr(logic_bin(BoolExpr::BoolLit(x), BoolExpr::BoolLit(y), op)))
            == expr_value(Expr::BoolExpr(logic_bin(BoolExpr::BoolLit(y), BoolExpr::BoolLit(x), op))),
{
    assert(bool_value(BoolExpr::BoolLit(x)) == Ok::<bool, EvalError>(x));
    assert(bool_value(BoolExpr::BoolLit(y)) == Ok::<bool, EvalError>(y));
}

/// `And` and `Or` over boolean leaves do not depend on how three operands are grouped.
pub proof fn lemma_and_or_associative(x: bool, y: bool, z: bool, op: BinLogicOp)
    requires
        op is AndOp || op is OrOp,
    ensures
        expr_value(Expr::BoolExpr(logic_bin(
            logic_bin(BoolExpr::BoolLit(x), BoolExpr::BoolLit(y), op),
            BoolExpr::BoolLit(z),
            op,
        ))) == expr_value(Expr::BoolExpr(logic_bin(
            BoolExpr::BoolLit(x),
            logic_bin(BoolExpr::BoolLit(y), BoolExpr::BoolLit(z), op),
            op,
        ))),
{
    assert(bool_value(BoolExpr::BoolLit(x)) == Ok::<bool, EvalError>(x));
    assert(bool_value(BoolExpr::BoolLit(y)) == Ok::<bool, EvalError>(y));
    assert(bool_value(BoolExpr::BoolLit(z)) == Ok::<bool, EvalError>(z));
    let xy = logic_bin(BoolExpr::BoolLit(x), BoolExpr::BoolLit(y), op);
    let yz = logic_bin(BoolExpr::BoolLit(y), BoolExpr::BoolLit(z), op);
    assert(bool_value(xy) is Ok);
    assert(bool_value(yz) is Ok);
}

/// An arithmetic tree that evaluates gives an integer value; a boolean tree
/// that evaluates gives a boolean value.
pub proof fn lemma_value_tag(e: Expr)
    ensures
        e is ArithExpr && expr_value(e) is Ok ==> expr_value(e)->Ok_0 is IntValue,
        e is BoolExpr && expr_value(e) is Ok ==> expr_value(e)->Ok_0 is BoolValue,
{
}

} // verus!
