//! Recursive-descent parser from source text to the syntax tree.
use vstd::prelude::*;
use crate::ast::{
    BlockType, Expr, Flow, GotoType, ReservedFunction, Step, has_step, names_of, names_unique,
};
use crate::lexer::{
    Input, ParseError, ident_at, ident_spec, is_ident_name, is_named, parse_ident, parse_int,
    parse_string, parse_symbol, parse_word, skip_ws, symbol_spec, word_spec,
};
use crate::literal::{Infix, Literal};
use crate::grammar::{
    actions_syntax, add_op_syntax, add_rest, add_syntax, and_rest, and_syntax, as_var_syntax, ask_syntax, assignation_syntax, block_rest, block_syntax, body_syntax, call_args_syntax, cmp_op_syntax, cmp_syntax, expr_syntax, flow_rest, flow_syntax, goto_syntax, hold_syntax, hook_syntax, if_syntax, import_syntax, keyword_expr_syntax, mul_op_syntax, mul_rest, mul_syntax, or_rest, pair_syntax, primary_syntax, remember_syntax, root_functions_syntax, statement_syntax, Outcome, fails, goto_kind,
};

verus! {

/// A parser's outcome: on success it consumed input and stopped inside it;
/// on failure the position it reports lies inside the input.
pub open spec fn advances<T>(r: Result<(T, usize), ParseError>, pos: int, len: int) -> bool {
    match r {
        Ok((_, q)) => pos < q <= len,
        Err(e) => e.position <= len,
    }
}

/// What a parser's result says of the text: where the construct ends, or
/// where and why it was rejected.
pub open spec fn outcome<T>(r: Result<(T, usize), ParseError>) -> Outcome {
    match r {
        Ok((_, q)) => Ok(q as int),
        Err(e) => Err((e.position as int, e.message@)),
    }
}

fn fail(position: usize, message: &str) -> (e: ParseError)
    ensures
        e.position == position,
        e.message@ == message@,
{
    ParseError { position, message: message.to_owned() }
}

fn boxed(op: Infix, a: Expr, b: Expr) -> (e: Expr)
    ensures
        e == Expr::InfixExpr(op, Box::new(a), Box::new(b)),
{
    Expr::InfixExpr(op, Box::new(a), Box::new(b))
}

/// A literal, a parenthesised expression, an identifier or a call.
fn parse_primary(inp: &Input, pos: usize) -> (r: Result<(Expr, usize), ParseError>)
    requires
        inp.wf(),
        pos <= inp.len(),
    ensures
        advances(r, pos as int, inp.len()),
        outcome(r) == primary_syntax(inp.chars@, pos as int),
    decreases inp.len() - pos, 0int,
{
    let p = skip_ws(inp, pos);
    if p == inp.chars.len() {
        return Err(fail(p, "expected an expression"));
    }
    let c = inp.chars[p];
    if c == '"' {
        match parse_string(inp, p) {
            Ok((s, q)) => Ok((Expr::LitExpr(Literal::StringLiteral(s)), q)),
            Err(e) => Err(e),
        }
    } else if '0' <= c && c <= '9' {
        match parse_int(inp, p) {
            Ok((v, q)) => Ok((Expr::LitExpr(Literal::IntLiteral(v)), q)),
            Err(e) => Err(e),
        }
    } else if c == '(' {
        match parse_expr(inp, p + 1) {
            Ok((e, q)) => match parse_symbol(inp, q, ')') {
                Some(q2) => Ok((e, q2)),
                None => Err(fail(q, "missing ')'")),
            },
            Err(e) => Err(e),
        }
    } else {
        match parse_ident(inp, p) {
            None => Err(fail(p, "expected an expression")),
            Some((name, q)) => {
                if is_named(&name, "true") {
                    Ok((Expr::LitExpr(Literal::BoolLiteral(true)), q))
                } else if is_named(&name, "false") {
                    Ok((Expr::LitExpr(Literal::BoolLiteral(false)), q))
                } else if is_named(&name, "null") {
                    Ok((Expr::LitExpr(Literal::Null), q))
                } else {
                    match parse_symbol(inp, q, '(') {
                        None => Ok((Expr::IdentExpr(name), q)),
                        Some(q1) => match parse_call_args(inp, q1) {
                            Ok((arg, q2)) => Ok(
                                (
                                    Expr::FunctionExpr(
                                        ReservedFunction::Normal(name, Box::new(arg)),
                                    ),
                                    q2,
                                ),
                            ),
                            Err(e) => Err(e),
                        },
                    }
                }
            },
        }
    }
}

/// The argument of a call and its closing parenthesis; `()` passes null.
fn parse_call_args(inp: &Input, pos: usize) -> (r: Result<(Expr, usize), ParseError>)
    requires
        inp.wf(),
        pos <= inp.len(),
    ensures
        advances(r, pos as int, inp.len()),
        outcome(r) == call_args_syntax(inp.chars@, pos as int),
    decreases inp.len() - pos, 6int,
{
    match parse_symbol(inp, pos, ')') {
        Some(q) => Ok((Expr::LitExpr(Literal::Null), q)),
        None => match parse_expr(inp, pos) {
            Ok((e, q)) => match parse_symbol(inp, q, ')') {
                Some(q2) => Ok((e, q2)),
                None => Err(fail(q, "missing ')' after argument")),
            },
            Err(e) => Err(e),
        },
    }
}

/// A two-character operator `a b` after optional whitespace.
fn parse_pair(inp: &Input, pos: usize, a: char, b: char) -> (r: Option<usize>)
    requires
        pos <= inp.len(),
    ensures
        r matches Some(q) ==> pos < q <= inp.len(),
        r is Some == pair_syntax(inp.chars@, pos as int, a, b) is Some,
        r is Some ==> pair_syntax(inp.chars@, pos as int, a, b) == Some(r->Some_0 as int),
{
    let p = skip_ws(inp, pos);
    if p < inp.chars.len() && p + 1 < inp.chars.len() && inp.chars[p] == a && inp.chars[p + 1] == b {
        Some(p + 2)
    } else {
        None
    }
}

fn mul_op(inp: &Input, pos: usize) -> (r: Option<(Infix, usize)>)
    requires
        pos <= inp.len(),
    ensures
        r matches Some((_, q)) ==> pos < q <= inp.len(),
        r is Some == mul_op_syntax(inp.chars@, pos as int) is Some,
        r is Some ==> mul_op_syntax(inp.chars@, pos as int) == Some(r->Some_0.1 as int),
{
    match parse_symbol(inp, pos, '*') {
        Some(q) => Some((Infix::Multiply, q)),
        None => match parse_symbol(inp, pos, '/') {
            Some(q) => Some((Infix::Divide, q)),
            None => None,
        },
    }
}

fn add_op(inp: &Input, pos: usize) -> (r: Option<(Infix, usize)>)
    requires
        pos <= inp.len(),
    ensures
        r matches Some((_, q)) ==> pos < q <= inp.len(),
        r is Some == add_op_syntax(inp.chars@, pos as int) is Some,
        r is Some ==> add_op_syntax(inp.chars@, pos as int) == Some(r->Some_0.1 as int),
{
    match parse_symbol(inp, pos, '+') {
        Some(q) => Some((Infix::Addition, q)),
        None => match parse_symbol(inp, pos, '-') {
            Some(q) => Some((Infix::Subtraction, q)),
            None => None,
        },
    }
}

fn cmp_op(inp: &Input, pos: usize) -> (r: Option<(Infix, usize)>)
    requires
        pos <= inp.len(),
    ensures
        r matches Some((_, q)) ==> pos < q <= inp.len(),
        r is Some == cmp_op_syntax(inp.chars@, pos as int) is Some,
        r is Some ==> cmp_op_syntax(inp.chars@, pos as int) == Some(r->Some_0.1 as int),
{
    if let Some(q) = parse_pair(inp, pos, '=', '=') {
        return Some((Infix::Equal, q));
    }
    if let Some(q) = parse_pair(inp, pos, '>', '=') {
        return Some((Infix::GreaterThanEqual, q));
    }
    if let Some(q) = parse_pair(inp, pos, '<', '=') {
        return Some((Infix::LessThanEqual, q));
    }
    if let Some(q) = parse_symbol(inp, pos, '>') {
        return Some((Infix::GreaterThan, q));
    }
    if let Some(q) = parse_symbol(inp, pos, '<') {
        return Some((Infix::LessThan, q));
    }
    None
}

/// Products and quotients, left-associative.
fn parse_mul(inp: &Input, pos: usize) -> (r: Result<(Expr, usize), ParseError>)
    requires
        inp.wf(),
        pos <= inp.len(),
    ensures
        advances(r, pos as int, inp.len()),
        outcome(r) == mul_syntax(inp.chars@, pos as int),
    decreases inp.len() - pos, 1int,
{
    let (mut left, mut q) = match parse_primary(inp, pos) {
        Ok(x) => x,
        Err(e) => return Err(e),
    };
    loop
        invariant
            mul_syntax(inp.chars@, pos as int) == mul_rest(inp.chars@, q as int),
            inp.wf(),
            pos < q <= inp.len(),
        decreases inp.len() - q,
    {
        match mul_op(inp, q) {
            None => return Ok((left, q)),
            Some((op, q1)) => match parse_primary(inp, q1) {
                Ok((right, q2)) => {
                    left = boxed(op, left, right);
                    q = q2;
                },
                Err(e) => return Err(e),
            },
        }
    }
}

/// Sums and differences, left-associative.
fn parse_add(inp: &Input, pos: usize) -> (r: Result<(Expr, usize), ParseError>)
    requires
        inp.wf(),
        pos <= inp.len(),
    ensures
        advances(r, pos as int, inp.len()),
        outcome(r) == add_syntax(inp.chars@, pos as int),
    decreases inp.len() - pos, 2int,
{
    let (mut left, mut q) = match parse_mul(inp, pos) {
        Ok(x) => x,
        Err(e) => return Err(e),
    };
    loop
        invariant
            add_syntax(inp.chars@, pos as int) == add_rest(inp.chars@, q as int),
            inp.wf(),
            pos < q <= inp.len(),
        decreases inp.len() - q,
    {
        match add_op(inp, q) {
            None => return Ok((left, q)),
            Some((op, q1)) => match parse_mul(inp, q1) {
                Ok((right, q2)) => {
                    left = boxed(op, left, right);
                    q = q2;
                },
                Err(e) => return Err(e),
            },
        }
    }
}

/// At most one comparison between two sums.
fn parse_cmp(inp: &Input, pos: usize) -> (r: Result<(Expr, usize), ParseError>)
    requires
        inp.wf(),
        pos <= inp.len(),
    ensures
        advances(r, pos as int, inp.len()),
        outcome(r) == cmp_syntax(inp.chars@, pos as int),
    decreases inp.len() - pos, 3int,
{
    let (left, q) = match parse_add(inp, pos) {
        Ok(x) => x,
        Err(e) => return Err(e),
    };
    match cmp_op(inp, q) {
        None => Ok((left, q)),
        Some((op, q1)) => match parse_add(inp, q1) {
            Ok((right, q2)) => Ok((boxed(op, left, right), q2)),
            Err(e) => Err(e),
        },
    }
}

/// Conjunctions `&&`, left-associative.
fn parse_and(inp: &Input, pos: usize) -> (r: Result<(Expr, usize), ParseError>)
    requires
        inp.wf(),
        pos <= inp.len(),
    ensures
        advances(r, pos as int, inp.len()),
        outcome(r) == and_syntax(inp.chars@, pos as int),
    decreases inp.len() - pos, 4int,
{
    let (mut left, mut q) = match parse_cmp(inp, pos) {
        Ok(x) => x,
        Err(e) => return Err(e),
    };
    loop
        invariant
            and_syntax(inp.chars@, pos as int) == and_rest(inp.chars@, q as int),
            inp.wf(),
            pos < q <= inp.len(),
        decreases inp.len() - q,
    {
        match parse_pair(inp, q, '&', '&') {
            None => return Ok((left, q)),
            Some(q1) => match parse_cmp(inp, q1) {
                Ok((right, q2)) => {
                    left = boxed(Infix::And, left, right);
                    q = q2;
                },
                Err(e) => return Err(e),
            },
        }
    }
}

/// An expression: disjunctions `||` of conjunctions, left-associative.
pub fn parse_expr(inp: &Input, pos: usize) -> (r: Result<(Expr, usize), ParseError>)
    requires
        inp.wf(),
        pos <= inp.len(),
    ensures
        advances(r, pos as int, inp.len()),
        outcome(r) == expr_syntax(inp.chars@, pos as int),
    decreases inp.len() - pos, 5int,
{
    let (mut left, mut q) = match parse_and(inp, pos) {
        Ok(x) => x,
        Err(e) => return Err(e),
    };
    loop
        invariant
            expr_syntax(inp.chars@, pos as int) == or_rest(inp.chars@, q as int),
            inp.wf(),
            pos < q <= inp.len(),
        decreases inp.len() - q,
    {
        match parse_pair(inp, q, '|', '|') {
            None => return Ok((left, q)),
            Some(q1) => match parse_and(inp, q1) {
                Ok((right, q2)) => {
                    left = boxed(Infix::Or, left, right);
                    q = q2;
                },
                Err(e) => return Err(e),
            },
        }
    }
}

fn func(f: ReservedFunction) -> (e: Expr)
    ensures
        e == Expr::FunctionExpr(f),
{
    Expr::FunctionExpr(f)
}

/// An expression, optionally followed by `as name`, which binds what it
/// produces to a step variable.
fn parse_as_variable(inp: &Input, pos: usize) -> (r: Result<(Expr, usize), ParseError>)
    requires
        inp.wf(),
        pos <= inp.len(),
    ensures
        advances(r, pos as int, inp.len()),
        outcome(r) == as_var_syntax(inp.chars@, pos as int),
{
    let (e, q) = match parse_expr(inp, pos) {
        Ok(x) => x,
        Err(err) => return Err(err),
    };
    match parse_word(inp, q, "as") {
        None => Ok((e, q)),
        Some(q1) => match parse_ident(inp, q1) {
            Some((name, q2)) => Ok((func(ReservedFunction::As(name, Box::new(e))), q2)),
            None => Err(fail(q1, "missing name after as")),
        },
    }
}

/// `say expr [as name]`.
fn parse_say(inp: &Input, pos: usize) -> (r: Result<(Expr, usize), ParseError>)
    requires
        inp.wf(),
        pos <= inp.len(),
    ensures
        advances(r, pos as int, inp.len()),
        r matches Ok((e, _)) ==> e matches Expr::FunctionExpr(ReservedFunction::Say(_)),
        word_spec(inp.chars@, pos as int, "say"@) is None ==> r is Err,
        outcome(r) == keyword_expr_syntax(inp.chars@, pos as int, "say"@, "expected say"@),
{
    match parse_word(inp, pos, "say") {
        None => Err(fail(skip_ws(inp, pos), "expected say")),
        Some(q) => match parse_as_variable(inp, q) {
            Ok((e, q2)) => Ok((func(ReservedFunction::Say(Box::new(e))), q2)),
            Err(err) => Err(err),
        },
    }
}

/// `use expr [as name]`.
fn parse_use(inp: &Input, pos: usize) -> (r: Result<(Expr, usize), ParseError>)
    requires
        inp.wf(),
        pos <= inp.len(),
    ensures
        advances(r, pos as int, inp.len()),
        r matches Ok((e, _)) ==> e matches Expr::FunctionExpr(ReservedFunction::Use(_)),
        word_spec(inp.chars@, pos as int, "use"@) is None ==> r is Err,
        outcome(r) == keyword_expr_syntax(inp.chars@, pos as int, "use"@, "expected use"@),
{
    match parse_word(inp, pos, "use") {
        None => Err(fail(skip_ws(inp, pos), "expected use")),
        Some(q) => match parse_as_variable(inp, q) {
            Ok((e, q2)) => Ok((func(ReservedFunction::Use(Box::new(e))), q2)),
            Err(err) => Err(err),
        },
    }
}

/// `hold`.
fn parse_hold(inp: &Input, pos: usize) -> (r: Result<(Expr, usize), ParseError>)
    requires
        inp.wf(),
        pos <= inp.len(),
    ensures
        advances(r, pos as int, inp.len()),
        match word_spec(inp.chars@, pos as int, "hold"@) {
            Some(q) => r matches Ok((e, q2)) && e == Expr::FunctionExpr(ReservedFunction::Hold)
                && q2 == q,
            None => r is Err,
        },
        outcome(r) == hold_syntax(inp.chars@, pos as int),
{
    match parse_word(inp, pos, "hold") {
        None => Err(fail(skip_ws(inp, pos), "expected hold")),
        Some(q) => Ok((func(ReservedFunction::Hold), q)),
    }
}

/// `goto [step|flow|@] name`; a bare name is a step.
fn parse_goto(inp: &Input, pos: usize) -> (r: Result<(Expr, usize), ParseError>)
    requires
        inp.wf(),
        pos <= inp.len(),
    ensures
        advances(r, pos as int, inp.len()),
        r matches Ok((e, q)) ==> e matches Expr::FunctionExpr(ReservedFunction::Goto(_, n))
            && ident_at(inp.chars@, q as int, n@),
        match word_spec(inp.chars@, pos as int, "goto"@) {
            None => r is Err,
            Some(q) => {
                let (t, q1) = goto_kind(inp.chars@, q);
                match ident_spec(inp.chars@, q1) {
                    None => r matches Err(e) && e.message@ == "missing step name after goto"@,
                    Some((n, q2)) => r matches Ok((e, q3)) && q3 == q2 && (e matches Expr::FunctionExpr(
                        ReservedFunction::Goto(t2, n2),
                    ) && t2 == t && n2@ == n),
                }
            },
        },
        outcome(r) == goto_syntax(inp.chars@, pos as int),
{
    let q = match parse_word(inp, pos, "goto") {
        None => return Err(fail(skip_ws(inp, pos), "expected goto")),
        Some(q) => q,
    };
    let (kind, q1) = if let Some(q1) = parse_word(inp, q, "step") {
        (GotoType::Step, q1)
    } else if let Some(q1) = parse_word(inp, q, "flow") {
        (GotoType::Flow, q1)
    } else if let Some(q1) = parse_symbol(inp, q, '@') {
        (GotoType::Hook, q1)
    } else {
        (GotoType::Step, q)
    };
    match parse_ident(inp, q1) {
        Some((name, q2)) => Ok((func(ReservedFunction::Goto(kind, name)), q2)),
        None => Err(fail(q1, "missing step name after goto")),
    }
}

/// `remember expr as name`.
fn parse_remember(inp: &Input, pos: usize) -> (r: Result<(Expr, usize), ParseError>)
    requires
        inp.wf(),
        pos <= inp.len(),
    ensures
        advances(r, pos as int, inp.len()),
        r matches Ok((e, q)) ==> e matches Expr::FunctionExpr(ReservedFunction::Remember(n, _))
            && ident_at(inp.chars@, q as int, n@),
        word_spec(inp.chars@, pos as int, "remember"@) is None ==> r is Err,
        outcome(r) == remember_syntax(inp.chars@, pos as int),
{
    let q = match parse_word(inp, pos, "remember") {
        None => return Err(fail(skip_ws(inp, pos), "expected remember")),
        Some(q) => q,
    };
    let (e, q1) = match parse_expr(inp, q) {
        Ok(x) => x,
        Err(err) => return Err(err),
    };
    let q2 = match parse_word(inp, q1, "as") {
        Some(q2) => q2,
        None => return Err(fail(q1, "missing as name after remember var")),
    };
    match parse_ident(inp, q2) {
        Some((name, q3)) => Ok((func(ReservedFunction::Remember(name, Box::new(e))), q3)),
        None => Err(fail(q2, "missing name after as")),
    }
}

/// `import [step] name`.
fn parse_import(inp: &Input, pos: usize) -> (r: Result<(Expr, usize), ParseError>)
    requires
        inp.wf(),
        pos <= inp.len(),
    ensures
        advances(r, pos as int, inp.len()),
        r matches Ok((e, q)) ==> e matches Expr::FunctionExpr(ReservedFunction::Import(n))
            && ident_at(inp.chars@, q as int, n@),
        match word_spec(inp.chars@, pos as int, "import"@) {
            None => r is Err,
            Some(q) => {
                let q1 = match word_spec(inp.chars@, q, "step"@) {
                    Some(q1) => q1,
                    None => q,
                };
                match ident_spec(inp.chars@, q1) {
                    None => r matches Err(e) && e.message@ == "missing step name after import"@,
                    Some((n, q2)) => r matches Ok((e, q3)) && q3 == q2 && (e matches Expr::FunctionExpr(
                        ReservedFunction::Import(n2),
                    ) && n2@ == n),
                }
            },
        },
        outcome(r) == import_syntax(inp.chars@, pos as int),
{
    let q = match parse_word(inp, pos, "import") {
        None => return Err(fail(skip_ws(inp, pos), "expected import")),
        Some(q) => q,
    };
    let q1 = match parse_word(inp, q, "step") {
        Some(q1) => q1,
        None => q,
    };
    match parse_ident(inp, q1) {
        Some((name, q2)) => Ok((func(ReservedFunction::Import(name)), q2)),
        None => Err(fail(q1, "missing step name after import")),
    }
}

/// `@name`: a reference to an external trigger.
pub fn parse_hook(inp: &Input, pos: usize) -> (r: Result<(Expr, usize), ParseError>)
    requires
        inp.wf(),
        pos <= inp.len(),
    ensures
        advances(r, pos as int, inp.len()),
        r matches Ok((e, q)) ==> e matches Expr::Hook(n) && ident_at(inp.chars@, q as int, n@),
        match symbol_spec(inp.chars@, pos as int, '@') {
            None => r is Err,
            Some(q) => match ident_spec(inp.chars@, q) {
                None => r is Err,
                Some((n, q2)) => r matches Ok((e, q3)) && q3 == q2 && (e matches Expr::Hook(n2)
                    && n2@ == n),
            },
        },
        outcome(r) == hook_syntax(inp.chars@, pos as int),
{
    match parse_symbol(inp, pos, '@') {
        None => Err(fail(skip_ws(inp, pos), "expected @")),
        Some(q) => match parse_ident(inp, q) {
            Some((name, q1)) => Ok((Expr::Hook(name), q1)),
            None => Err(fail(q, "missing hook name after @")),
        },
    }
}

/// `name = expr [as name]`: binds a step variable.
pub fn parse_assignation(inp: &Input, pos: usize) -> (r: Result<(Expr, usize), ParseError>)
    requires
        inp.wf(),
        pos <= inp.len(),
    ensures
        advances(r, pos as int, inp.len()),
        r matches Ok((e, _)) ==> e matches Expr::FunctionExpr(ReservedFunction::Assign(_, _)),
        outcome(r) == assignation_syntax(inp.chars@, pos as int),
{
    let (name, q) = match parse_ident(inp, pos) {
        Some(x) => x,
        None => return Err(fail(skip_ws(inp, pos), "expected a variable name")),
    };
    if parse_pair(inp, q, '=', '=').is_some() {
        return Err(fail(q, "expected ="));
    }
    let q1 = match parse_symbol(inp, q, '=') {
        Some(q1) => q1,
        None => return Err(fail(q, "expected =")),
    };
    match parse_as_variable(inp, q1) {
        Ok((e, q2)) => Ok((func(ReservedFunction::Assign(name, Box::new(e))), q2)),
        Err(err) => Err(err),
    }
}

/// `name(arg) [as name]`: a builtin or an external action.
pub fn parse_actions(inp: &Input, pos: usize) -> (r: Result<(Expr, usize), ParseError>)
    requires
        inp.wf(),
        pos <= inp.len(),
    ensures
        advances(r, pos as int, inp.len()),
        r matches Ok((e, _)) ==> e is FunctionExpr,
        outcome(r) == actions_syntax(inp.chars@, pos as int),
{
    let (name, q) = match parse_ident(inp, pos) {
        Some(x) => x,
        None => return Err(fail(skip_ws(inp, pos), "expected an action name")),
    };
    let q1 = match parse_symbol(inp, q, '(') {
        Some(q1) => q1,
        None => return Err(fail(q, "expected ( after action name")),
    };
    let (arg, q2) = match parse_call_args(inp, q1) {
        Ok(x) => x,
        Err(err) => return Err(err),
    };
    let call = func(ReservedFunction::Normal(name, Box::new(arg)));
    match parse_word(inp, q2, "as") {
        None => Ok((call, q2)),
        Some(q3) => match parse_ident(inp, q3) {
            Some((v, q4)) => Ok((func(ReservedFunction::As(v, Box::new(call))), q4)),
            None => Err(fail(q3, "missing name after as")),
        },
    }
}

/// The statements that start with a reserved word other than `if`, `ask`
/// and `response`.
pub fn parse_root_functions(inp: &Input, pos: usize) -> (r: Result<(Expr, usize), ParseError>)
    requires
        inp.wf(),
        pos <= inp.len(),
    ensures
        advances(r, pos as int, inp.len()),
        r matches Ok((e, _)) ==> e is FunctionExpr,
        outcome(r) == root_functions_syntax(inp.chars@, pos as int),
{
    let name = match parse_ident(inp, pos) {
        Some((name, _)) => name,
        None => return Err(fail(skip_ws(inp, pos), "expected a statement")),
    };
    if is_named(&name, "say") {
        parse_say(inp, pos)
    } else if is_named(&name, "remember") {
        parse_remember(inp, pos)
    } else if is_named(&name, "import") {
        parse_import(inp, pos)
    } else if is_named(&name, "goto") {
        parse_goto(inp, pos)
    } else if is_named(&name, "use") {
        parse_use(inp, pos)
    } else if is_named(&name, "hold") {
        parse_hold(inp, pos)
    } else {
        Err(fail(skip_ws(inp, pos), "unknown statement"))
    }
}

/// A brace-delimited statement list.
#[verifier::rlimit(60)]
pub fn parse_block(inp: &Input, pos: usize) -> (r: Result<(Vec<Expr>, usize), ParseError>)
    requires
        inp.wf(),
        pos <= inp.len(),
    ensures
        advances(r, pos as int, inp.len()),
        r matches Ok((_, q)) ==> inp.chars@[q - 1] == '}',
        symbol_spec(inp.chars@, pos as int, '{') is None ==> (r matches Err(e) && e.message@
            == "expected {"@),
        outcome(r) == block_syntax(inp.chars@, pos as int),
    decreases inp.len() - pos, 0int,
{
    let mut q = match parse_symbol(inp, pos, '{') {
        Some(q) => q,
        None => return Err(fail(skip_ws(inp, pos), "expected {")),
    };
    let mut actions: Vec<Expr> = Vec::new();
    loop
        invariant
            block_syntax(inp.chars@, pos as int) == block_rest(inp.chars@, q as int),
            inp.wf(),
            symbol_spec(inp.chars@, pos as int, '{') is Some,
            pos < q <= inp.len(),
        decreases inp.len() - q,
    {
        let p = skip_ws(inp, q);
        if p == inp.chars.len() {
            return Err(fail(p, "unterminated block"));
        }
        if inp.chars[p] == '}' {
            return Ok((actions, p + 1));
        }
        match parse_statement(inp, p) {
            Ok((e, q2)) => {
                actions.push(e);
                q = q2;
            },
            Err(err) => return Err(err),
        }
    }
}

/// A block, or a single statement standing for a block of one.
fn parse_body(inp: &Input, pos: usize) -> (r: Result<(Vec<Expr>, usize), ParseError>)
    requires
        inp.wf(),
        pos <= inp.len(),
    ensures
        advances(r, pos as int, inp.len()),
        outcome(r) == body_syntax(inp.chars@, pos as int),
    decreases inp.len() - pos, 4int,
{
    if parse_symbol(inp, pos, '{').is_some() {
        parse_block(inp, pos)
    } else {
        match parse_statement(inp, pos) {
            Ok((e, q)) => {
                let mut v: Vec<Expr> = Vec::new();
                v.push(e);
                Ok((v, q))
            },
            Err(err) => Err(err),
        }
    }
}

/// `if (cond) body [else if ... | else body]`.
pub fn parse_if(inp: &Input, pos: usize) -> (r: Result<(Expr, usize), ParseError>)
    requires
        inp.wf(),
        pos <= inp.len(),
    ensures
        advances(r, pos as int, inp.len()),
        r matches Ok((e, _)) ==> e is IfExpr,
        word_spec(inp.chars@, pos as int, "if"@) is None ==> r is Err,
        (word_spec(inp.chars@, pos as int, "if"@) matches Some(q) && symbol_spec(inp.chars@, q, '(')
            is None) ==> (r matches Err(e) && e.message@ == "missing ( after if"@),
        outcome(r) == if_syntax(inp.chars@, pos as int),
    decreases inp.len() - pos, 2int,
{
    let q = match parse_word(inp, pos, "if") {
        None => return Err(fail(skip_ws(inp, pos), "expected if")),
        Some(q) => q,
    };
    let q1 = match parse_symbol(inp, q, '(') {
        Some(q1) => q1,
        None => return Err(fail(q, "missing ( after if")),
    };
    let (cond, q2) = match parse_expr(inp, q1) {
        Ok(x) => x,
        Err(err) => return Err(err),
    };
    let q3 = match parse_symbol(inp, q2, ')') {
        Some(q3) => q3,
        None => return Err(fail(q2, "missing ) after condition")),
    };
    let (consequence, q4) = match parse_body(inp, q3) {
        Ok(x) => x,
        Err(err) => return Err(err),
    };
    let (else_branch, q5) = match parse_word(inp, q4, "else") {
        None => (Vec::new(), q4),
        Some(q5) => {
            if parse_word(inp, q5, "if").is_some() {
                match parse_if(inp, q5) {
                    Ok((e, q6)) => {
                        let mut v: Vec<Expr> = Vec::new();
                        v.push(e);
                        (v, q6)
                    },
                    Err(err) => return Err(err),
                }
            } else {
                match parse_body(inp, q5) {
                    Ok(x) => x,
                    Err(err) => return Err(err),
                }
            }
        },
    };
    Ok((Expr::IfExpr { cond: Box::new(cond), consequence, else_branch }, q5))
}

/// `ask { ... } [response { ... }]` or `response { ... }`.
fn parse_ask_response(inp: &Input, pos: usize) -> (r: Result<(Expr, usize), ParseError>)
    requires
        inp.wf(),
        pos <= inp.len(),
    ensures
        advances(r, pos as int, inp.len()),
        r matches Ok((e, _)) ==> e matches Expr::Block { block_type: BlockType::AskResponse, .. },
        outcome(r) == ask_syntax(inp.chars@, pos as int),
    decreases inp.len() - pos, 2int,
{
    let mut parts: Vec<Expr> = Vec::new();
    let mut q = pos;
    if let Some(q1) = parse_word(inp, pos, "ask") {
        match parse_block(inp, q1) {
            Ok((v, q2)) => {
                parts.push(Expr::Block { block_type: BlockType::Ask, arg: v });
                q = q2;
            },
            Err(err) => return Err(err),
        }
    }
    if let Some(q1) = parse_word(inp, q, "response") {
        match parse_block(inp, q1) {
            Ok((v, q2)) => {
                parts.push(Expr::Block { block_type: BlockType::Response, arg: v });
                q = q2;
            },
            Err(err) => return Err(err),
        }
    }
    if q == pos {
        return Err(fail(skip_ws(inp, pos), "expected ask or response"));
    }
    Ok((Expr::Block { block_type: BlockType::AskResponse, arg: parts }, q))
}

/// Any statement: a reserved-word statement, `if`, an ask/response group,
/// an assignment or an action call.
pub fn parse_statement(inp: &Input, pos: usize) -> (r: Result<(Expr, usize), ParseError>)
    requires
        inp.wf(),
        pos <= inp.len(),
    ensures
        advances(r, pos as int, inp.len()),
        ident_spec(inp.chars@, pos as int) is None ==> (r matches Err(e) && e.message@
            == "expected a statement"@),
        outcome(r) == statement_syntax(inp.chars@, pos as int),
    decreases inp.len() - pos, 3int,
{
    let (name, q) = match parse_ident(inp, pos) {
        Some(x) => x,
        None => return Err(fail(skip_ws(inp, pos), "expected a statement")),
    };
    if is_named(&name, "if") {
        parse_if(inp, pos)
    } else if is_named(&name, "ask") || is_named(&name, "response") {
        parse_ask_response(inp, pos)
    } else if is_named(&name, "say") || is_named(&name, "remember") || is_named(&name, "import")
        || is_named(&name, "goto") || is_named(&name, "use") || is_named(&name, "hold") {
        parse_root_functions(inp, pos)
    } else if parse_symbol(inp, q, '(').is_some() {
        parse_actions(inp, pos)
    } else {
        parse_assignation(inp, pos)
    }
}

/// A whole flow: a sequence of `name { ... }` step definitions.
pub fn parse_flow(inp: &Input) -> (r: Result<Flow, ParseError>)
    requires
        inp.wf(),
    ensures
        r is Ok == flow_syntax(inp.chars@) is Ok,
        r matches Err(e) ==> flow_syntax(inp.chars@) == fails(e.position as int, e.message@),
        r matches Err(e) ==> e.position <= inp.len(),
        r matches Ok(f) ==> forall|i: int|
            0 <= i < f.steps@.len() ==> is_ident_name(#[trigger] f.steps@[i].name@),
        r matches Ok(f) ==> names_unique(f.steps@),
{
    let mut steps: Vec<Step> = Vec::new();
    let mut q: usize = 0;
    assert(names_of(steps@) =~= Seq::<Seq<char>>::empty());
    loop
        invariant
            flow_syntax(inp.chars@) == flow_rest(inp.chars@, q as int, names_of(steps@)),
            names_unique(steps@),
            inp.wf(),
            q <= inp.len(),
            forall|i: int| 0 <= i < steps@.len() ==> is_ident_name(#[trigger] steps@[i].name@),
        decreases inp.len() - q,
    {
        let p = skip_ws(inp, q);
        if p == inp.chars.len() {
            return Ok(Flow { steps });
        }
        let (name, q1) = match parse_ident(inp, p) {
            Some(x) => x,
            None => return Err(fail(p, "expected a step name")),
        };
        if has_step(&steps, &name) {
            return Err(fail(p, "duplicate step name"));
        }
        match parse_block(inp, q1) {
            Ok((actions, q2)) => {
                let ghost old_steps = steps@;
                let ghost n = name@;
                proof {
                    assert forall|k: int| 0 <= k < old_steps.len() implies #[trigger] old_steps[k].name@
                        != n by {
                        assert(names_of(old_steps)[k] == old_steps[k].name@);
                    }
                }
                steps.push(Step { name, actions });
                assert(names_of(steps@) =~= names_of(old_steps).push(n));
                q = q2;
            },
            Err(err) => return Err(err),
        }
    }
}

/// Parses the source text of one flow.
pub fn parse(text: &str) -> (r: Result<Flow, ParseError>)
    ensures
        r is Ok == flow_syntax(text@) is Ok,
        r matches Err(e) ==> flow_syntax(text@) == fails(e.position as int, e.message@),
        r matches Err(e) ==> e.position <= text@.len(),
        r matches Ok(f) ==> forall|i: int|
            0 <= i < f.steps@.len() ==> is_ident_name(#[trigger] f.steps@[i].name@),
        r matches Ok(f) ==> names_unique(f.steps@),
{
    let inp = Input::new(text);
    parse_flow(&inp)
}

} // verus!
