//! The value domain and the operator table over it.
use vstd::prelude::*;
use crate::error::{ErrV, ErrorKind, InterpretError, err_of};

verus! {

/// A value of the language. Numbers are 64-bit integers.
#[derive(Debug, PartialEq)]
pub enum Literal {
    BoolLiteral(bool),
    IntLiteral(i64),
    StringLiteral(String),
    Null,
}

/// The mathematical value a literal stands for.
pub enum LitV {
    Bool(bool),
    Int(i64),
    Str(Seq<char>),
    Null,
}

impl View for Literal {
    type V = LitV;

    open spec fn view(&self) -> LitV {
        match self {
            Literal::BoolLiteral(b) => LitV::Bool(*b),
            Literal::IntLiteral(i) => LitV::Int(*i),
            Literal::StringLiteral(s) => LitV::Str(s@),
            Literal::Null => LitV::Null,
        }
    }
}

impl Literal {
    pub fn copy(&self) -> (r: Literal)
        ensures
            r@ == self@,
    {
        match self {
            Literal::BoolLiteral(b) => Literal::BoolLiteral(*b),
            Literal::IntLiteral(i) => Literal::IntLiteral(*i),
            Literal::StringLiteral(s) => Literal::StringLiteral(s.clone()),
            Literal::Null => Literal::Null,
        }
    }
}

/// Binary operators of conditions and arithmetic.
#[derive(Clone, Copy, Debug, PartialEq, Eq, Structural)]
pub enum Infix {
    Equal,
    GreaterThanEqual,
    LessThanEqual,
    GreaterThan,
    LessThan,
    And,
    Or,
    Addition,
    Subtraction,
    Divide,
    Multiply,
}

pub open spec fn res_view(r: Result<Literal, InterpretError>) -> Result<LitV, ErrV> {
    match r {
        Ok(l) => Ok(l@),
        Err(e) => Err(e@),
    }
}

/// Equality of two values of the same shape; other pairs do not compare.
pub open spec fn equal_spec(a: LitV, b: LitV) -> Result<LitV, ErrV> {
    match (a, b) {
        (LitV::Bool(x), LitV::Bool(y)) => Ok(LitV::Bool(x == y)),
        (LitV::Int(x), LitV::Int(y)) => Ok(LitV::Bool(x == y)),
        (LitV::Str(x), LitV::Str(y)) => Ok(LitV::Bool(x == y)),
        (LitV::Null, LitV::Null) => Ok(LitV::Bool(true)),
        _ => Err(err_of(ErrorKind::TypeMismatch)),
    }
}

pub open spec fn sign(x: int, y: int) -> int {
    if x < y {
        -1
    } else if x > y {
        1
    } else {
        0
    }
}

/// Lexicographic comparison of two strings by character code: -1, 0 or 1.
pub open spec fn seq_cmp(a: Seq<char>, b: Seq<char>) -> int
    decreases a.len(),
{
    if a.len() == 0 {
        if b.len() == 0 {
            0
        } else {
            -1
        }
    } else if b.len() == 0 {
        1
    } else if a[0] != b[0] {
        sign(a[0] as int, b[0] as int)
    } else {
        seq_cmp(a.drop_first(), b.drop_first())
    }
}

pub open spec fn bool_rank(b: bool) -> int {
    if b {
        1
    } else {
        0
    }
}

/// How two values of the same shape compare: integers by value, booleans
/// with `false` first, strings lexicographically, `null` equal to itself.
/// Values of different shapes do not compare.
pub open spec fn compare_spec(a: LitV, b: LitV) -> Option<int> {
    match (a, b) {
        (LitV::Int(x), LitV::Int(y)) => Some(sign(x as int, y as int)),
        (LitV::Bool(x), LitV::Bool(y)) => Some(sign(bool_rank(x), bool_rank(y))),
        (LitV::Str(x), LitV::Str(y)) => Some(seq_cmp(x, y)),
        (LitV::Null, LitV::Null) => Some(0),
        _ => None,
    }
}

/// `>=`, `<=`, `>` and `<` over two values of the same shape.
pub open spec fn order_spec(op: Infix, a: LitV, b: LitV) -> Result<LitV, ErrV> {
    match compare_spec(a, b) {
        Some(c) => Ok(LitV::Bool(
            match op {
                Infix::GreaterThanEqual => c >= 0,
                Infix::LessThanEqual => c <= 0,
                Infix::GreaterThan => c > 0,
                _ => c < 0,
            },
        )),
        None => Err(err_of(ErrorKind::TypeMismatch)),
    }
}

/// Quotient rounded toward zero, as integer division on 64-bit values does.
pub open spec fn trunc_div(x: int, d: int) -> int {
    if x == 0 {
        0
    } else if x > 0 && d > 0 {
        x / d
    } else if x < 0 && d < 0 {
        (-x) / (-d)
    } else if x < 0 {
        -((-x) / d)
    } else {
        -(x / (-d))
    }
}

pub open spec fn in_i64(v: int) -> bool {
    i64::MIN <= v <= i64::MAX
}

pub open spec fn int_result(v: int) -> Result<LitV, ErrV> {
    if in_i64(v) {
        Ok(LitV::Int(v as i64))
    } else {
        Err(err_of(ErrorKind::Overflow))
    }
}

/// Arithmetic on two integers, and `+` on two strings as concatenation.
pub open spec fn arith_spec(op: Infix, a: LitV, b: LitV) -> Result<LitV, ErrV> {
    match (a, b) {
        (LitV::Int(x), LitV::Int(y)) => match op {
            Infix::Addition => int_result(x + y),
            Infix::Subtraction => int_result(x - y),
            Infix::Multiply => int_result(x * y),
            _ => if y == 0 {
                Err(err_of(ErrorKind::DivisionByZero))
            } else {
                int_result(trunc_div(x as int, y as int))
            },
        },
        (LitV::Str(x), LitV::Str(y)) => match op {
            Infix::Addition => Ok(LitV::Str(x + y)),
            _ => Err(err_of(ErrorKind::TypeMismatch)),
        },
        _ => Err(err_of(ErrorKind::TypeMismatch)),
    }
}

/// The operator table applied to two operand outcomes.
/// `Or` holds when at least one side evaluated and `And` when both did,
/// whatever the values; any other operator needs both sides and passes on
/// the first failure.
pub open spec fn cmp_spec(op: Infix, l1: Result<LitV, ErrV>, l2: Result<LitV, ErrV>) -> Result<LitV, ErrV> {
    match op {
        Infix::Or => Ok(LitV::Bool(l1 is Ok || l2 is Ok)),
        Infix::And => Ok(LitV::Bool(l1 is Ok && l2 is Ok)),
        _ => match (l1, l2) {
            (Err(e), _) => Err(e),
            (Ok(_), Err(e)) => Err(e),
            (Ok(a), Ok(b)) => match op {
                Infix::Equal => equal_spec(a, b),
                Infix::GreaterThanEqual | Infix::LessThanEqual | Infix::GreaterThan
                | Infix::LessThan => order_spec(op, a, b),
                _ => arith_spec(op, a, b),
            },
        },
    }
}

fn equal_lit(a: &Literal, b: &Literal) -> (r: Result<Literal, InterpretError>)
    ensures
        res_view(r) == equal_spec(a@, b@),
{
    match (a, b) {
        (Literal::BoolLiteral(x), Literal::BoolLiteral(y)) => Ok(Literal::BoolLiteral(*x == *y)),
        (Literal::IntLiteral(x), Literal::IntLiteral(y)) => Ok(Literal::BoolLiteral(*x == *y)),
        (Literal::StringLiteral(x), Literal::StringLiteral(y)) => Ok(Literal::BoolLiteral(x.eq(y))),
        (Literal::Null, Literal::Null) => Ok(Literal::BoolLiteral(true)),
        _ => Err(InterpretError::new(ErrorKind::TypeMismatch)),
    }
}

fn str_cmp(a: &String, b: &String) -> (r: i8)
    ensures
        r as int == seq_cmp(a@, b@),
{
    let sa = a.as_str();
    let sb = b.as_str();
    let na = sa.unicode_len();
    let nb = sb.unicode_len();
    let mut i: usize = 0;
    assert(a@.skip(0) =~= a@);
    assert(b@.skip(0) =~= b@);
    while i < na && i < nb
        invariant
            na == a@.len(),
            nb == b@.len(),
            sa@ == a@,
            sb@ == b@,
            i <= na,
            i <= nb,
            seq_cmp(a@, b@) == seq_cmp(a@.skip(i as int), b@.skip(i as int)),
        decreases na - i,
    {
        let ca = sa.get_char(i);
        let cb = sb.get_char(i);
        let ghost (ta, tb) = (a@.skip(i as int), b@.skip(i as int));
        assert(ta[0] == ca && tb[0] == cb);
        if ca != cb {
            return if (ca as u32) < (cb as u32) {
                -1
            } else {
                1
            };
        }
        assert(ta.drop_first() =~= a@.skip(i + 1));
        assert(tb.drop_first() =~= b@.skip(i + 1));
        i = i + 1;
    }
    let ghost (ta, tb) = (a@.skip(i as int), b@.skip(i as int));
    assert(ta.len() == 0 || tb.len() == 0);
    if i < na {
        1
    } else if i < nb {
        -1
    } else {
        0
    }
}

fn sign_of(x: i64, y: i64) -> (r: i8)
    ensures
        r as int == sign(x as int, y as int),
{
    if x < y {
        -1
    } else if x > y {
        1
    } else {
        0
    }
}

fn order_lit(op: Infix, a: &Literal, b: &Literal) -> (r: Result<Literal, InterpretError>)
    ensures
        res_view(r) == order_spec(op, a@, b@),
{
    let c: i8 = match (a, b) {
        (Literal::IntLiteral(x), Literal::IntLiteral(y)) => sign_of(*x, *y),
        (Literal::BoolLiteral(x), Literal::BoolLiteral(y)) => sign_of(
            if *x {
                1
            } else {
                0
            },
            if *y {
                1
            } else {
                0
            },
        ),
        (Literal::StringLiteral(x), Literal::StringLiteral(y)) => str_cmp(x, y),
        (Literal::Null, Literal::Null) => 0,
        _ => {
            return Err(InterpretError::new(ErrorKind::TypeMismatch));
        },
    };
    let v = match op {
        Infix::GreaterThanEqual => c >= 0,
        Infix::LessThanEqual => c <= 0,
        Infix::GreaterThan => c > 0,
        _ => c < 0,
    };
    Ok(Literal::BoolLiteral(v))
}

fn int_lit(v: Option<i64>) -> (r: Result<Literal, InterpretError>)
    ensures
        v is Some ==> r is Ok && r->Ok_0 == Literal::IntLiteral(v->Some_0),
        v is None ==> r is Err && r->Err_0@ == err_of(ErrorKind::Overflow),
{
    match v {
        Some(n) => Ok(Literal::IntLiteral(n)),
        None => Err(InterpretError::new(ErrorKind::Overflow)),
    }
}

fn arith_lit(op: Infix, a: &Literal, b: &Literal) -> (r: Result<Literal, InterpretError>)
    requires
        op == Infix::Addition || op == Infix::Subtraction || op == Infix::Multiply || op
            == Infix::Divide,
    ensures
        res_view(r) == arith_spec(op, a@, b@),
{
    match (a, b) {
        (Literal::IntLiteral(x), Literal::IntLiteral(y)) => {
            match op {
                Infix::Addition => int_lit(x.checked_add(*y)),
                Infix::Subtraction => int_lit(x.checked_sub(*y)),
                Infix::Multiply => int_lit(x.checked_mul(*y)),
                _ => {
                    if *y == 0 {
                        Err(InterpretError::new(ErrorKind::DivisionByZero))
                    } else {
                        int_lit(x.checked_div(*y))
                    }
                },
            }
        },
        (Literal::StringLiteral(x), Literal::StringLiteral(y)) => {
            if op == Infix::Addition {
                let s = x.clone().concat(y.as_str());
                Ok(Literal::StringLiteral(s))
            } else {
                Err(InterpretError::new(ErrorKind::TypeMismatch))
            }
        },
        _ => Err(InterpretError::new(ErrorKind::TypeMismatch)),
    }
}

/// Applies `infix` to the outcomes of evaluating its two operands.
pub fn cmp_lit(
    infix: &Infix,
    lit1: Result<Literal, InterpretError>,
    lit2: Result<Literal, InterpretError>,
) -> (r: Result<Literal, InterpretError>)
    ensures
        res_view(r) == cmp_spec(*infix, res_view(lit1), res_view(lit2)),
{
    match infix {
        Infix::Or => Ok(Literal::BoolLiteral(lit1.is_ok() || lit2.is_ok())),
        Infix::And => Ok(Literal::BoolLiteral(lit1.is_ok() && lit2.is_ok())),
        _ => match (lit1, lit2) {
            (Err(e), _) => Err(e),
            (Ok(_), Err(e)) => Err(e),
            (Ok(a), Ok(b)) => match infix {
                Infix::Equal => equal_lit(&a, &b),
                Infix::GreaterThanEqual | Infix::LessThanEqual | Infix::GreaterThan
                | Infix::LessThan => order_lit(*infix, &a, &b),
                _ => arith_lit(*infix, &a, &b),
            },
        },
    }
}

} // verus!
