//! Reduction of condition and arithmetic trees to a literal.
use vstd::prelude::*;
use crate::ast::Expr;
use crate::context::{Data, DataV, get_var, get_var_spec};
use crate::error::{ErrV, ErrorKind, InterpretError, err_of};
use crate::literal::{Infix, LitV, Literal, cmp_lit, cmp_spec, res_view};

verus! {

/// Operands that evaluate directly: literals and identifiers.
pub open spec fn is_operand(e: Expr) -> bool {
    e is LitExpr || e is IdentExpr
}

pub open spec fn operand_spec(e: Expr, d: DataV) -> Result<LitV, ErrV> {
    match e {
        Expr::LitExpr(l) => Ok(l@),
        Expr::IdentExpr(n) => get_var_spec(n@, d),
        _ => Err(err_of(ErrorKind::InvalidCondition)),
    }
}

/// Whether an infix node with these operands reduces: both operands are
/// direct, or at least one is itself an infix node.
pub open spec fn reducible(a: Expr, b: Expr) -> bool {
    (is_operand(a) && is_operand(b)) || a is InfixExpr || b is InfixExpr
}

/// The value of an expression: infix nodes reduce through the operator
/// table, anything else is an operand.
pub open spec fn eval_expr(e: Expr, d: DataV) -> Result<LitV, ErrV>
    decreases e,
{
    match e {
        Expr::InfixExpr(i, a, b) => if reducible(*a, *b) {
            cmp_spec(i, eval_expr(*a, d), eval_expr(*b, d))
        } else {
            Err(err_of(ErrorKind::InvalidCondition))
        },
        _ => operand_spec(e, d),
    }
}

/// The value of `a infix b`.
pub open spec fn eval_infix(i: Infix, a: Expr, b: Expr, d: DataV) -> Result<LitV, ErrV> {
    if reducible(a, b) {
        cmp_spec(i, eval_expr(a, d), eval_expr(b, d))
    } else {
        Err(err_of(ErrorKind::InvalidCondition))
    }
}

/// Whether a guard lets its block run: an infix guard unless it reduces to
/// `false` or fails, a literal always, an identifier when it resolves.
pub open spec fn valid_spec(e: Expr, d: DataV) -> bool {
    match e {
        Expr::InfixExpr(i, a, b) => match eval_infix(i, *a, *b, d) {
            Ok(LitV::Bool(false)) => false,
            Ok(_) => true,
            Err(_) => false,
        },
        Expr::LitExpr(_) => true,
        Expr::IdentExpr(n) => get_var_spec(n@, d) is Ok,
        _ => false,
    }
}

pub open spec fn expr_size(e: Expr) -> nat
    decreases e,
{
    match e {
        Expr::InfixExpr(_, a, b) => 1 + expr_size(*a) + expr_size(*b),
        _ => 1,
    }
}

fn check_if_ident(expr: &Expr) -> (r: bool)
    ensures
        r == is_operand(*expr),
{
    match expr {
        Expr::LitExpr(..) => true,
        Expr::IdentExpr(..) => true,
        _ => false,
    }
}

/// The value of a direct operand.
pub fn gen_literal(expr: &Expr, data: &Data) -> (r: Result<Literal, InterpretError>)
    ensures
        res_view(r) == operand_spec(*expr, data@),
{
    match expr {
        Expr::LitExpr(l) => Ok(l.copy()),
        Expr::IdentExpr(n) => get_var(n, data),
        _ => Err(InterpretError::new(ErrorKind::InvalidCondition)),
    }
}

/// Evaluates `expr1 infix expr2`, reducing nested infix operands first.
pub fn evaluate_condition(infix: &Infix, expr1: &Expr, expr2: &Expr, data: &Data) -> (r: Result<
    Literal,
    InterpretError,
>)
    ensures
        res_view(r) == eval_infix(*infix, *expr1, *expr2, data@),
    decreases expr_size(*expr1) + expr_size(*expr2),
{
    if check_if_ident(expr1) && check_if_ident(expr2) {
        return cmp_lit(infix, gen_literal(expr1, data), gen_literal(expr2, data));
    }
    match (expr1, expr2) {
        (Expr::InfixExpr(i1, a1, b1), Expr::InfixExpr(i2, a2, b2)) => {
            let l = evaluate_condition(i1, a1, b1, data);
            let r = evaluate_condition(i2, a2, b2, data);
            cmp_lit(infix, l, r)
        },
        (Expr::InfixExpr(i1, a1, b1), e) => {
            let l = evaluate_condition(i1, a1, b1, data);
            cmp_lit(infix, l, gen_literal(e, data))
        },
        (e, Expr::InfixExpr(i2, a2, b2)) => {
            let l = gen_literal(e, data);
            cmp_lit(infix, l, evaluate_condition(i2, a2, b2, data))
        },
        _ => Err(InterpretError::new(ErrorKind::InvalidCondition)),
    }
}

/// Evaluates any expression that `eval_expr` gives a value.
pub fn evaluate(expr: &Expr, data: &Data) -> (r: Result<Literal, InterpretError>)
    ensures
        res_view(r) == eval_expr(*expr, data@),
{
    match expr {
        Expr::InfixExpr(i, a, b) => evaluate_condition(i, a, b, data),
        _ => gen_literal(expr, data),
    }
}

/// Decides whether an `if` guard holds.
pub fn valid_condition(expr: &Expr, data: &Data) -> (r: bool)
    ensures
        r == valid_spec(*expr, data@),
{
    match expr {
        Expr::InfixExpr(inf, exp1, exp2) => {
            match evaluate_condition(inf, exp1, exp2, data) {
                Ok(Literal::BoolLiteral(false)) => false,
                Ok(_) => true,
                Err(_e) => false,
            }
        },
        Expr::LitExpr(..) => true,
        Expr::IdentExpr(ident) => get_var(ident, data).is_ok(),
        _ => false,
    }
}

} // verus!
