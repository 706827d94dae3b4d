//! The grammar of flows, as spec functions on characters. Each says where a
//! construct that starts at `pos` ends, or at which position and with which
//! message it is rejected.
use vstd::prelude::*;
use crate::ast::GotoType;
use crate::lexer::{digits_val, ident_spec, is_digit, symbol_spec, word_spec, ws_end};

verus! {

/// The end of a parsed construct, or the position and message of its error.
pub type Outcome = Result<int, (int, Seq<char>)>;

pub open spec fn fails(p: int, msg: Seq<char>) -> Outcome {
    Err((p, msg))
}

/// Whether `q` is a valid end for a construct that started at `pos`.
pub open spec fn past(s: Seq<char>, pos: int, q: int) -> bool {
    pos < q <= s.len()
}

/// The end of the run of digits that starts at `p`.
pub open spec fn digit_end(s: Seq<char>, p: int) -> int
    decreases s.len() - p,
{
    if 0 <= p < s.len() && is_digit(s[p]) {
        digit_end(s, p + 1)
    } else {
        p
    }
}

/// An integer literal at `p`: its digits, rejected when their value
/// exceeds the 64-bit range.
pub open spec fn int_syntax(s: Seq<char>, p: int) -> Outcome {
    let q = digit_end(s, p);
    if digits_val(s.subrange(p, q)) > i64::MAX {
        fails(p, "integer literal too large"@)
    } else {
        Ok(q)
    }
}

/// The first `"` at or after `p`, or the end of the text.
pub open spec fn quote_from(s: Seq<char>, p: int) -> int
    decreases s.len() - p,
{
    if 0 <= p < s.len() && s[p] != '"' {
        quote_from(s, p + 1)
    } else {
        p
    }
}

/// A string literal whose opening quote is at `p`.
pub open spec fn string_syntax(s: Seq<char>, p: int) -> Outcome {
    let q = quote_from(s, p + 1);
    if q >= s.len() {
        fails(p, "unterminated string"@)
    } else {
        Ok(q + 1)
    }
}

/// A two-character operator as the first token from `pos`.
pub open spec fn pair_syntax(s: Seq<char>, pos: int, a: char, b: char) -> Option<int> {
    let p = ws_end(s, pos);
    if p + 1 < s.len() && s[p] == a && s[p + 1] == b {
        Some(p + 2)
    } else {
        None
    }
}

pub open spec fn mul_op_syntax(s: Seq<char>, q: int) -> Option<int> {
    match symbol_spec(s, q, '*') {
        Some(x) => Some(x),
        None => symbol_spec(s, q, '/'),
    }
}

pub open spec fn add_op_syntax(s: Seq<char>, q: int) -> Option<int> {
    match symbol_spec(s, q, '+') {
        Some(x) => Some(x),
        None => symbol_spec(s, q, '-'),
    }
}

pub open spec fn cmp_op_syntax(s: Seq<char>, q: int) -> Option<int> {
    if let Some(x) = pair_syntax(s, q, '=', '=') {
        Some(x)
    } else if let Some(x) = pair_syntax(s, q, '>', '=') {
        Some(x)
    } else if let Some(x) = pair_syntax(s, q, '<', '=') {
        Some(x)
    } else if let Some(x) = symbol_spec(s, q, '>') {
        Some(x)
    } else {
        symbol_spec(s, q, '<')
    }
}

/// A primary: a string, an integer, a parenthesised expression, `true`,
/// `false`, `null`, an identifier, or a call `name(arg)`.
pub open spec fn primary_syntax(s: Seq<char>, pos: int) -> Outcome
    decreases s.len() - pos, 0int,
{
    let p = ws_end(s, pos);
    if p < pos || p >= s.len() {
        fails(p, "expected an expression"@)
    } else if s[p] == '"' {
        string_syntax(s, p)
    } else if is_digit(s[p]) {
        int_syntax(s, p)
    } else if s[p] == '(' {
        match expr_syntax(s, p + 1) {
            Err(e) => Err(e),
            Ok(q) => match symbol_spec(s, q, ')') {
                Some(q2) => Ok(q2),
                None => fails(q, "missing ')'"@),
            },
        }
    } else {
        match ident_spec(s, p) {
            None => fails(p, "expected an expression"@),
            Some((name, q)) => if name == "true"@ || name == "false"@ || name == "null"@ {
                Ok(q)
            } else {
                match symbol_spec(s, q, '(') {
                    None => Ok(q),
                    Some(q1) => if past(s, pos, q1) {
                        call_args_syntax(s, q1)
                    } else {
                        Ok(q1)
                    },
                }
            },
        }
    }
}

/// The argument of a call and its closing parenthesis.
pub open spec fn call_args_syntax(s: Seq<char>, pos: int) -> Outcome
    decreases s.len() - pos, 6int,
{
    match symbol_spec(s, pos, ')') {
        Some(q) => Ok(q),
        None => match expr_syntax(s, pos) {
            Err(e) => Err(e),
            Ok(q) => match symbol_spec(s, q, ')') {
                Some(q2) => Ok(q2),
                None => fails(q, "missing ')' after argument"@),
            },
        },
    }
}

pub open spec fn mul_syntax(s: Seq<char>, pos: int) -> Outcome
    decreases s.len() - pos, 1int,
{
    match primary_syntax(s, pos) {
        Err(e) => Err(e),
        Ok(q) => if past(s, pos, q) {
            mul_rest(s, q)
        } else {
            Ok(q)
        },
    }
}

pub open spec fn mul_rest(s: Seq<char>, q: int) -> Outcome
    decreases s.len() - q, 1int,
{
    match mul_op_syntax(s, q) {
        None => Ok(q),
        Some(q1) => if past(s, q, q1) {
            match primary_syntax(s, q1) {
                Err(e) => Err(e),
                Ok(q2) => if past(s, q1, q2) {
                    mul_rest(s, q2)
                } else {
                    Ok(q2)
                },
            }
        } else {
            Ok(q1)
        },
    }
}

pub open spec fn add_syntax(s: Seq<char>, pos: int) -> Outcome
    decreases s.len() - pos, 2int,
{
    match mul_syntax(s, pos) {
        Err(e) => Err(e),
        Ok(q) => if past(s, pos, q) {
            add_rest(s, q)
        } else {
            Ok(q)
        },
    }
}

pub open spec fn add_rest(s: Seq<char>, q: int) -> Outcome
    decreases s.len() - q, 2int,
{
    match add_op_syntax(s, q) {
        None => Ok(q),
        Some(q1) => if past(s, q, q1) {
            match mul_syntax(s, q1) {
                Err(e) => Err(e),
                Ok(q2) => if past(s, q1, q2) {
                    add_rest(s, q2)
                } else {
                    Ok(q2)
                },
            }
        } else {
            Ok(q1)
        },
    }
}

pub open spec fn cmp_syntax(s: Seq<char>, pos: int) -> Outcome
    decreases s.len() - pos, 3int,
{
    match add_syntax(s, pos) {
        Err(e) => Err(e),
        Ok(q) => match cmp_op_syntax(s, q) {
            None => Ok(q),
            Some(q1) => if past(s, pos, q1) {
                add_syntax(s, q1)
            } else {
                Ok(q1)
            },
        },
    }
}

pub open spec fn and_syntax(s: Seq<char>, pos: int) -> Outcome
    decreases s.len() - pos, 4int,
{
    match cmp_syntax(s, pos) {
        Err(e) => Err(e),
        Ok(q) => if past(s, pos, q) {
            and_rest(s, q)
        } else {
            Ok(q)
        },
    }
}

pub open spec fn and_rest(s: Seq<char>, q: int) -> Outcome
    decreases s.len() - q, 4int,
{
    match pair_syntax(s, q, '&', '&') {
        None => Ok(q),
        Some(q1) => if past(s, q, q1) {
            match cmp_syntax(s, q1) {
                Err(e) => Err(e),
                Ok(q2) => if past(s, q1, q2) {
                    and_rest(s, q2)
                } else {
                    Ok(q2)
                },
            }
        } else {
            Ok(q1)
        },
    }
}

/// An expression: `||` over `&&` over one comparison over `+ -` over `* /`
/// over primaries.
pub open spec fn expr_syntax(s: Seq<char>, pos: int) -> Outcome
    decreases s.len() - pos, 5int,
{
    match and_syntax(s, pos) {
        Err(e) => Err(e),
        Ok(q) => if past(s, pos, q) {
            or_rest(s, q)
        } else {
            Ok(q)
        },
    }
}

pub open spec fn or_rest(s: Seq<char>, q: int) -> Outcome
    decreases s.len() - q, 5int,
{
    match pair_syntax(s, q, '|', '|') {
        None => Ok(q),
        Some(q1) => if past(s, q, q1) {
            match and_syntax(s, q1) {
                Err(e) => Err(e),
                Ok(q2) => if past(s, q1, q2) {
                    or_rest(s, q2)
                } else {
                    Ok(q2)
                },
            }
        } else {
            Ok(q1)
        },
    }
}

/// An expression optionally followed by `as name`.
pub open spec fn as_var_syntax(s: Seq<char>, pos: int) -> Outcome {
    match expr_syntax(s, pos) {
        Err(e) => Err(e),
        Ok(q) => match word_spec(s, q, "as"@) {
            None => Ok(q),
            Some(q1) => match ident_spec(s, q1) {
                Some((_, q2)) => Ok(q2),
                None => fails(q1, "missing name after as"@),
            },
        },
    }
}

/// `kw expr [as name]`, for `say` and `use`.
pub open spec fn keyword_expr_syntax(s: Seq<char>, pos: int, kw: Seq<char>, missing: Seq<char>) -> Outcome {
    match word_spec(s, pos, kw) {
        None => fails(ws_end(s, pos), missing),
        Some(q) => as_var_syntax(s, q),
    }
}

pub open spec fn hold_syntax(s: Seq<char>, pos: int) -> Outcome {
    match word_spec(s, pos, "hold"@) {
        None => fails(ws_end(s, pos), "expected hold"@),
        Some(q) => Ok(q),
    }
}

/// The kind of a `goto` target read from `q`, and where its name starts.
pub open spec fn goto_kind(s: Seq<char>, q: int) -> (GotoType, int) {
    if let Some(q1) = word_spec(s, q, "step"@) {
        (GotoType::Step, q1)
    } else if let Some(q1) = word_spec(s, q, "flow"@) {
        (GotoType::Flow, q1)
    } else if let Some(q1) = symbol_spec(s, q, '@') {
        (GotoType::Hook, q1)
    } else {
        (GotoType::Step, q)
    }
}

pub open spec fn goto_syntax(s: Seq<char>, pos: int) -> Outcome {
    match word_spec(s, pos, "goto"@) {
        None => fails(ws_end(s, pos), "expected goto"@),
        Some(q) => {
            let q1 = goto_kind(s, q).1;
            match ident_spec(s, q1) {
                None => fails(q1, "missing step name after goto"@),
                Some((_, q2)) => Ok(q2),
            }
        },
    }
}

/// `remember expr as name`; without `as` the error stands where the
/// expression ends.
pub open spec fn remember_syntax(s: Seq<char>, pos: int) -> Outcome {
    match word_spec(s, pos, "remember"@) {
        None => fails(ws_end(s, pos), "expected remember"@),
        Some(q) => match expr_syntax(s, q) {
            Err(e) => Err(e),
            Ok(q1) => match word_spec(s, q1, "as"@) {
                None => fails(q1, "missing as name after remember var"@),
                Some(q2) => match ident_spec(s, q2) {
                    None => fails(q2, "missing name after as"@),
                    Some((_, q3)) => Ok(q3),
                },
            },
        },
    }
}

pub open spec fn import_syntax(s: Seq<char>, pos: int) -> Outcome {
    match word_spec(s, pos, "import"@) {
        None => fails(ws_end(s, pos), "expected import"@),
        Some(q) => {
            let q1 = match word_spec(s, q, "step"@) {
                Some(q1) => q1,
                None => q,
            };
            match ident_spec(s, q1) {
                None => fails(q1, "missing step name after import"@),
                Some((_, q2)) => Ok(q2),
            }
        },
    }
}

pub open spec fn hook_syntax(s: Seq<char>, pos: int) -> Outcome {
    match symbol_spec(s, pos, '@') {
        None => fails(ws_end(s, pos), "expected @"@),
        Some(q) => match ident_spec(s, q) {
            None => fails(q, "missing hook name after @"@),
            Some((_, q1)) => Ok(q1),
        },
    }
}

pub open spec fn assignation_syntax(s: Seq<char>, pos: int) -> Outcome {
    match ident_spec(s, pos) {
        None => fails(ws_end(s, pos), "expected a variable name"@),
        Some((_, q)) => if pair_syntax(s, q, '=', '=') is Some {
            fails(q, "expected ="@)
        } else {
            match symbol_spec(s, q, '=') {
                None => fails(q, "expected ="@),
                Some(q1) => as_var_syntax(s, q1),
            }
        },
    }
}

pub open spec fn actions_syntax(s: Seq<char>, pos: int) -> Outcome {
    match ident_spec(s, pos) {
        None => fails(ws_end(s, pos), "expected an action name"@),
        Some((_, q)) => match symbol_spec(s, q, '(') {
            None => fails(q, "expected ( after action name"@),
            Some(q1) => match call_args_syntax(s, q1) {
                Err(e) => Err(e),
                Ok(q2) => match word_spec(s, q2, "as"@) {
                    None => Ok(q2),
                    Some(q3) => match ident_spec(s, q3) {
                        None => fails(q3, "missing name after as"@),
                        Some((_, q4)) => Ok(q4),
                    },
                },
            },
        },
    }
}

pub open spec fn root_functions_syntax(s: Seq<char>, pos: int) -> Outcome {
    match ident_spec(s, pos) {
        None => fails(ws_end(s, pos), "expected a statement"@),
        Some((name, _)) => if name == "say"@ {
            keyword_expr_syntax(s, pos, "say"@, "expected say"@)
        } else if name == "remember"@ {
            remember_syntax(s, pos)
        } else if name == "import"@ {
            import_syntax(s, pos)
        } else if name == "goto"@ {
            goto_syntax(s, pos)
        } else if name == "use"@ {
            keyword_expr_syntax(s, pos, "use"@, "expected use"@)
        } else if name == "hold"@ {
            hold_syntax(s, pos)
        } else {
            fails(ws_end(s, pos), "unknown statement"@)
        },
    }
}

/// `{ statement* }`.
pub open spec fn block_syntax(s: Seq<char>, pos: int) -> Outcome
    decreases s.len() - pos, 0int,
{
    match symbol_spec(s, pos, '{') {
        None => fails(ws_end(s, pos), "expected {"@),
        Some(q) => if past(s, pos, q) {
            block_rest(s, q)
        } else {
            Ok(q)
        },
    }
}

/// The statements of a block from `q` up to its closing brace.
pub open spec fn block_rest(s: Seq<char>, q: int) -> Outcome
    decreases s.len() - q, 5int,
{
    let p = ws_end(s, q);
    if p < q || p >= s.len() {
        fails(p, "unterminated block"@)
    } else if s[p] == '}' {
        Ok(p + 1)
    } else {
        match statement_syntax(s, p) {
            Err(e) => Err(e),
            Ok(q2) => if past(s, p, q2) {
                block_rest(s, q2)
            } else {
                Ok(q2)
            },
        }
    }
}

/// A block, or one statement standing for a block.
pub open spec fn body_syntax(s: Seq<char>, pos: int) -> Outcome
    decreases s.len() - pos, 4int,
{
    if symbol_spec(s, pos, '{') is Some {
        block_syntax(s, pos)
    } else {
        statement_syntax(s, pos)
    }
}

/// `if (expr) body [else if ... | else body]`.
pub open spec fn if_syntax(s: Seq<char>, pos: int) -> Outcome
    decreases s.len() - pos, 2int,
{
    match word_spec(s, pos, "if"@) {
        None => fails(ws_end(s, pos), "expected if"@),
        Some(q) => match symbol_spec(s, q, '(') {
            None => fails(q, "missing ( after if"@),
            Some(q1) => match expr_syntax(s, q1) {
                Err(e) => Err(e),
                Ok(q2) => match symbol_spec(s, q2, ')') {
                    None => fails(q2, "missing ) after condition"@),
                    Some(q3) => if !past(s, pos, q3) {
                        Ok(q3)
                    } else {
                        match body_syntax(s, q3) {
                            Err(e) => Err(e),
                            Ok(q4) => match word_spec(s, q4, "else"@) {
                                None => Ok(q4),
                                Some(q5) => if !past(s, pos, q5) {
                                    Ok(q5)
                                } else if word_spec(s, q5, "if"@) is Some {
                                    if_syntax(s, q5)
                                } else {
                                    body_syntax(s, q5)
                                },
                            },
                        }
                    },
                },
            },
        },
    }
}

/// An ask/response group: `ask { ... }`, `response { ... }`, or both in
/// that order.
pub open spec fn ask_syntax(s: Seq<char>, pos: int) -> Outcome
    decreases s.len() - pos, 2int,
{
    let first: Outcome = match word_spec(s, pos, "ask"@) {
        None => Ok(pos),
        Some(q1) => if past(s, pos, q1) {
            block_syntax(s, q1)
        } else {
            Ok(q1)
        },
    };
    match first {
        Err(e) => Err(e),
        Ok(q) => match word_spec(s, q, "response"@) {
            Some(q1) => if pos <= q < q1 <= s.len() {
                block_syntax(s, q1)
            } else {
                Ok(q1)
            },
            None => if q == pos {
                fails(ws_end(s, pos), "expected ask or response"@)
            } else {
                Ok(q)
            },
        },
    }
}

/// Any statement.
pub open spec fn statement_syntax(s: Seq<char>, pos: int) -> Outcome
    decreases s.len() - pos, 3int,
{
    match ident_spec(s, pos) {
        None => fails(ws_end(s, pos), "expected a statement"@),
        Some((name, q)) => if name == "if"@ {
            if_syntax(s, pos)
        } else if name == "ask"@ || name == "response"@ {
            ask_syntax(s, pos)
        } else if name == "say"@ || name == "remember"@ || name == "import"@ || name == "goto"@
            || name == "use"@ || name == "hold"@ {
            root_functions_syntax(s, pos)
        } else if symbol_spec(s, q, '(') is Some {
            actions_syntax(s, pos)
        } else {
            assignation_syntax(s, pos)
        },
    }
}

/// Step definitions `name { ... }` from `q` to the end of the text, after
/// the steps named in `seen`; a name may be defined once. `Ok` holds the end
/// of the text.
pub open spec fn flow_rest(s: Seq<char>, q: int, seen: Seq<Seq<char>>) -> Outcome
    decreases s.len() - q,
{
    let p = ws_end(s, q);
    if p < q || p >= s.len() {
        Ok(p)
    } else {
        match ident_spec(s, p) {
            None => fails(p, "expected a step name"@),
            Some((name, q1)) => if seen.contains(name) {
                fails(p, "duplicate step name"@)
            } else {
                match block_syntax(s, q1) {
                    Err(e) => Err(e),
                    Ok(q2) => if past(s, q, q2) {
                        flow_rest(s, q2, seen.push(name))
                    } else {
                        Ok(q2)
                    },
                }
            },
        }
    }
}

/// Whether a whole text is a flow, and where the first error stands.
pub open spec fn flow_syntax(s: Seq<char>) -> Outcome {
    flow_rest(s, 0, Seq::empty())
}

} // verus!
