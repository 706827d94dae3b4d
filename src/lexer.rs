//! Tokens of the flow language, read from a character buffer.
use vstd::prelude::*;
use crate::grammar::{Outcome, digit_end, int_syntax, quote_from, string_syntax};

verus! {

/// Source text with its characters laid out for indexing.
pub struct Input<'a> {
    pub text: &'a str,
    pub chars: Vec<char>,
}

/// A parse failure: where it happened and why.
#[derive(Debug, PartialEq)]
pub struct ParseError {
    pub position: usize,
    pub message: String,
}

impl<'a> Input<'a> {
    pub open spec fn wf(&self) -> bool {
        self.chars@ == self.text@
    }

    pub open spec fn len(&self) -> int {
        self.chars@.len() as int
    }

    pub fn new(text: &'a str) -> (r: Input<'a>)
        ensures
            r.wf(),
            r.text == text,
    {
        let n = text.unicode_len();
        let mut chars: Vec<char> = Vec::new();
        let mut i: usize = 0;
        while i < n
            invariant
                n == text@.len(),
                i <= n,
                chars@ == text@.subrange(0, i as int),
            decreases n - i,
        {
            chars.push(text.get_char(i));
            i = i + 1;
            assert(chars@ =~= text@.subrange(0, i as int));
        }
        assert(chars@ =~= text@);
        Input { text, chars }
    }

    /// The characters between `from` and `to`, as a string.
    pub fn slice(&self, from: usize, to: usize) -> (r: String)
        requires
            self.wf(),
            from <= to <= self.len(),
        ensures
            r@ == self.chars@.subrange(from as int, to as int),
    {
        self.text.substring_char(from, to).to_owned()
    }
}

pub open spec fn is_space(c: char) -> bool {
    c == ' ' || c == '\n' || c == '\t' || c == '\r'
}

pub open spec fn is_digit(c: char) -> bool {
    '0' <= c <= '9'
}

pub open spec fn is_ident_char(c: char) -> bool {
    ('a' <= c <= 'z') || ('A' <= c <= 'Z') || is_digit(c) || c == '_'
}

/// Whether a line comment `//` starts at `p`.
pub open spec fn comment_at(s: Seq<char>, p: int) -> bool {
    0 <= p && p + 1 < s.len() && s[p] == '/' && s[p + 1] == '/'
}

/// Nothing more to skip at `p`: the end, or a character that starts a token.
pub open spec fn token_start(s: Seq<char>, p: int) -> bool {
    p == s.len() || (p < s.len() && !is_space(s[p]) && !comment_at(s, p))
}

/// An identifier `name` ends at `q`: a maximal run of identifier characters
/// that does not start with a digit.
pub open spec fn ident_at(s: Seq<char>, q: int, name: Seq<char>) -> bool {
    &&& 0 < name.len() <= q <= s.len()
    &&& name == s.subrange(q - name.len(), q)
    &&& forall|i: int| 0 <= i < name.len() ==> is_ident_char(#[trigger] name[i])
    &&& !is_digit(name[0])
    &&& (q == s.len() || !is_ident_char(s[q]))
}

/// A well-formed identifier: identifier characters, not starting with a digit.
pub open spec fn is_ident_name(name: Seq<char>) -> bool {
    &&& name.len() > 0
    &&& forall|i: int| 0 <= i < name.len() ==> is_ident_char(#[trigger] name[i])
    &&& !is_digit(name[0])
}

/// Where skipping whitespace and `//` line comments from `p` stops;
/// `in_comment` says whether `p` lies inside a comment.
pub open spec fn skip_spec(s: Seq<char>, p: int, in_comment: bool) -> int
    decreases s.len() - p,
{
    if p < 0 || p >= s.len() {
        p
    } else if in_comment {
        skip_spec(s, p + 1, s[p] != '\n')
    } else if is_space(s[p]) {
        skip_spec(s, p + 1, false)
    } else if comment_at(s, p) {
        skip_spec(s, p + 2, true)
    } else {
        p
    }
}

proof fn lemma_skip_bounds(s: Seq<char>, p: int, c: bool)
    requires
        0 <= p <= s.len(),
    ensures
        p <= skip_spec(s, p, c) <= s.len(),
        token_start(s, skip_spec(s, p, c)),
    decreases s.len() - p,
{
    if p < s.len() {
        if c {
            lemma_skip_bounds(s, p + 1, s[p] != '\n');
        } else if is_space(s[p]) {
            lemma_skip_bounds(s, p + 1, false);
        } else if comment_at(s, p) {
            lemma_skip_bounds(s, p + 2, true);
        }
    }
}

/// The first token position from `pos` on.
pub open spec fn ws_end(s: Seq<char>, pos: int) -> int {
    skip_spec(s, pos, false)
}

/// Skips whitespace and line comments from `pos`.
pub fn skip_ws(inp: &Input, pos: usize) -> (r: usize)
    requires
        pos <= inp.len(),
    ensures
        r == ws_end(inp.chars@, pos as int),
        pos <= r <= inp.len(),
        token_start(inp.chars@, r as int),
{
    proof {
        lemma_skip_bounds(inp.chars@, pos as int, false);
    }
    let n = inp.chars.len();
    let mut p = pos;
    while p < n
        invariant
            n == inp.len(),
            pos <= p <= n,
            ws_end(inp.chars@, pos as int) == skip_spec(inp.chars@, p as int, false),
        decreases n - p,
    {
        let ghost p0 = p;
        let c = inp.chars[p];
        if c == ' ' || c == '\n' || c == '\t' || c == '\r' {
            p = p + 1;
        } else if c == '/' && p + 1 < n && inp.chars[p + 1] == '/' {
            p = p + 2;
            while p < n && inp.chars[p] != '\n'
                invariant
                    n == inp.len(),
                    pos <= p <= n,
                    p0 < p,
                    ws_end(inp.chars@, pos as int) == skip_spec(inp.chars@, p as int, true),
                decreases n - p,
            {
                p = p + 1;
            }
            if p < n {
                p = p + 1;
            }
        } else {
            return p;
        }
    }
    p
}

/// The end of the run of identifier characters that starts at `p`.
pub open spec fn ident_end(s: Seq<char>, p: int) -> int
    decreases s.len() - p,
{
    if 0 <= p < s.len() && is_ident_char(s[p]) {
        ident_end(s, p + 1)
    } else {
        p
    }
}

/// The identifier at the first token from `pos`, and where it ends.
pub open spec fn ident_spec(s: Seq<char>, pos: int) -> Option<(Seq<char>, int)> {
    let p = ws_end(s, pos);
    let q = ident_end(s, p);
    if q == p || is_digit(s[p]) {
        None
    } else {
        Some((s.subrange(p, q), q))
    }
}

/// The end of the keyword `kw` read as a whole identifier from `pos`.
pub open spec fn word_spec(s: Seq<char>, pos: int, kw: Seq<char>) -> Option<int> {
    match ident_spec(s, pos) {
        Some((name, q)) => if name == kw {
            Some(q)
        } else {
            None
        },
        None => None,
    }
}

/// The position after the character `c` if it is the first token from `pos`.
pub open spec fn symbol_spec(s: Seq<char>, pos: int, c: char) -> Option<int> {
    let p = ws_end(s, pos);
    if p < s.len() && s[p] == c {
        Some(p + 1)
    } else {
        None
    }
}

/// Reads an identifier after optional whitespace.
pub fn parse_ident(inp: &Input, pos: usize) -> (r: Option<(String, usize)>)
    requires
        inp.wf(),
        pos <= inp.len(),
    ensures
        r matches Some((name, q)) ==> ident_at(inp.chars@, q as int, name@) && pos < q,
        match ident_spec(inp.chars@, pos as int) {
            Some((name, q)) => r matches Some((n, q2)) && n@ == name && q2 == q,
            None => r is None,
        },
{
    let p = skip_ws(inp, pos);
    let n = inp.chars.len();
    let mut q = p;
    while q < n && is_ident(inp.chars[q])
        invariant
            n == inp.len(),
            p <= q <= n,
            forall|i: int| p <= i < q ==> is_ident_char(#[trigger] inp.chars@[i]),
            ident_end(inp.chars@, p as int) == ident_end(inp.chars@, q as int),
        decreases n - q,
    {
        q = q + 1;
    }
    if q == p || is_digit_char(inp.chars[p]) {
        return None;
    }
    let name = inp.slice(p, q);
    assert(name@.len() == q - p);
    assert forall|i: int| 0 <= i < name@.len() implies is_ident_char(#[trigger] name@[i]) by {
        assert(name@[i] == inp.chars@[p + i]);
    }
    Some((name, q))
}

fn is_ident(c: char) -> (r: bool)
    ensures
        r == is_ident_char(c),
{
    ('a' <= c && c <= 'z') || ('A' <= c && c <= 'Z') || ('0' <= c && c <= '9') || c == '_'
}

fn is_digit_char(c: char) -> (r: bool)
    ensures
        r == is_digit(c),
{
    '0' <= c && c <= '9'
}

pub(crate) fn is_named(s: &String, name: &str) -> (r: bool)
    ensures
        r == (s@ == name@),
{
    let t = name.to_owned();
    s.eq(&t)
}

/// Reads the keyword `kw` as a whole identifier after optional whitespace.
pub fn parse_word(inp: &Input, pos: usize, kw: &str) -> (r: Option<usize>)
    requires
        inp.wf(),
        pos <= inp.len(),
    ensures
        r matches Some(q) ==> ident_at(inp.chars@, q as int, kw@) && pos < q,
        r is Some == word_spec(inp.chars@, pos as int, kw@) is Some,
        r is Some ==> word_spec(inp.chars@, pos as int, kw@) == Some(r->Some_0 as int),
{
    match parse_ident(inp, pos) {
        Some((name, q)) => if is_named(&name, kw) {
            Some(q)
        } else {
            None
        },
        None => None,
    }
}

/// Reads the character `c` after optional whitespace.
pub fn parse_symbol(inp: &Input, pos: usize, c: char) -> (r: Option<usize>)
    requires
        pos <= inp.len(),
    ensures
        r matches Some(q) ==> pos < q <= inp.len() && inp.chars@[q - 1] == c && token_start(
            inp.chars@,
            q - 1,
        ),
        r is Some == symbol_spec(inp.chars@, pos as int, c) is Some,
        r is Some ==> symbol_spec(inp.chars@, pos as int, c) == Some(r->Some_0 as int),
{
    let p = skip_ws(inp, pos);
    if p < inp.chars.len() && inp.chars[p] == c {
        Some(p + 1)
    } else {
        None
    }
}

/// The value of a run of decimal digits.
pub open spec fn digits_val(s: Seq<char>) -> int
    decreases s.len(),
{
    if s.len() == 0 {
        0
    } else {
        digits_val(s.drop_last()) * 10 + (s.last() as int - '0' as int)
    }
}

proof fn lemma_digits_nonneg(s: Seq<char>)
    requires
        forall|i: int| 0 <= i < s.len() ==> is_digit(#[trigger] s[i]),
    ensures
        digits_val(s) >= 0,
    decreases s.len(),
{
    if s.len() > 0 {
        lemma_digits_nonneg(s.drop_last());
    }
}

proof fn lemma_digits_grow(s: Seq<char>, p: int, q: int, r: int)
    requires
        0 <= p <= q <= r <= s.len(),
        forall|i: int| p <= i < r ==> is_digit(#[trigger] s[i]),
    ensures
        digits_val(s.subrange(p, r)) >= digits_val(s.subrange(p, q)),
    decreases r - q,
{
    if r > q {
        lemma_digits_grow(s, p, q, r - 1);
        assert(s.subrange(p, r).drop_last() =~= s.subrange(p, r - 1));
        lemma_digits_nonneg(s.subrange(p, r - 1));
    }
}

proof fn lemma_digit_end(s: Seq<char>, q: int)
    requires
        0 <= q <= s.len(),
    ensures
        q <= digit_end(s, q) <= s.len(),
        forall|i: int| q <= i < digit_end(s, q) ==> is_digit(#[trigger] s[i]),
    decreases s.len() - q,
{
    if q < s.len() && is_digit(s[q]) {
        lemma_digit_end(s, q + 1);
    }
}

/// Reads the digits that start at `p` as a 64-bit integer.
pub fn parse_int(inp: &Input, p: usize) -> (r: Result<(i64, usize), ParseError>)
    requires
        p < inp.len(),
        is_digit(inp.chars@[p as int]),
    ensures
        r matches Ok((v, q)) ==> p < q <= inp.len() && v == digits_val(
            inp.chars@.subrange(p as int, q as int),
        ) && forall|i: int| p <= i < q ==> is_digit(#[trigger] inp.chars@[i]),
        r matches Ok((v, q)) ==> q == inp.len() || !is_digit(inp.chars@[q as int]),
        r matches Err(e) ==> e.position == p,
        match r {
            Ok((_, q)) => int_syntax(inp.chars@, p as int) == Ok::<int, (int, Seq<char>)>(q as int),
            Err(e) => int_syntax(inp.chars@, p as int) == Err::<int, (int, Seq<char>)>(
                (e.position as int, e.message@),
            ),
        },
        r is Err <==> digits_val(inp.chars@.subrange(p as int, digit_end(inp.chars@, p as int)))
            > i64::MAX,
{
    let n = inp.chars.len();
    let mut q = p;
    let mut v: i64 = 0;
    while q < n && is_digit_char(inp.chars[q])
        invariant
            n == inp.len(),
            p <= q <= n,
            v == digits_val(inp.chars@.subrange(p as int, q as int)),
            forall|i: int| p <= i < q ==> is_digit(#[trigger] inp.chars@[i]),
            digit_end(inp.chars@, p as int) == digit_end(inp.chars@, q as int),
        decreases n - q,
    {
        let c = inp.chars[q];
        let d = (c as u32 - '0' as u32) as i64;
        assert(inp.chars@.subrange(p as int, q + 1).drop_last() =~= inp.chars@.subrange(
            p as int,
            q as int,
        ));
        proof {
            lemma_digit_end(inp.chars@, q + 1);
            let de = digit_end(inp.chars@, q + 1);
            lemma_digits_grow(inp.chars@, p as int, q + 1, de);
            lemma_digits_nonneg(inp.chars@.subrange(p as int, q as int));
        }
        match v.checked_mul(10) {
            None => {
                return Err(ParseError { position: p, message: "integer literal too large".to_owned() });
            },
            Some(m) => match m.checked_add(d) {
                None => {
                    return Err(
                        ParseError { position: p, message: "integer literal too large".to_owned() },
                    );
                },
                Some(w) => {
                    v = w;
                },
            },
        }
        q = q + 1;
    }
    Ok((v, q))
}

/// Reads a string literal whose opening quote is at `p`; there are no escapes.
pub fn parse_string(inp: &Input, p: usize) -> (r: Result<(String, usize), ParseError>)
    requires
        inp.wf(),
        p < inp.len(),
        inp.chars@[p as int] == '"',
    ensures
        r matches Ok((s, q)) ==> p + 2 <= q <= inp.len() && s@ == inp.chars@.subrange(
            p + 1,
            q - 1,
        ) && inp.chars@[q - 1] == '"' && forall|i: int|
            p < i < q - 1 ==> #[trigger] inp.chars@[i] != '"',
        r matches Err(e) ==> e.position == p && forall|i: int|
            p < i < inp.len() ==> #[trigger] inp.chars@[i] != '"',
        match r {
            Ok((_, q)) => string_syntax(inp.chars@, p as int) == Ok::<int, (int, Seq<char>)>(q as int),
            Err(e) => string_syntax(inp.chars@, p as int) == Err::<int, (int, Seq<char>)>(
                (e.position as int, e.message@),
            ),
        },
{
    let n = inp.chars.len();
    let mut q = p + 1;
    while q < n && inp.chars[q] != '"'
        invariant
            n == inp.len(),
            p < q <= n,
            forall|i: int| p < i < q ==> #[trigger] inp.chars@[i] != '"',
            quote_from(inp.chars@, p + 1) == quote_from(inp.chars@, q as int),
        decreases n - q,
    {
        q = q + 1;
    }
    if q == n {
        return Err(ParseError { position: p, message: "unterminated string".to_owned() });
    }
    Ok((inp.slice(p + 1, q), q + 1))
}

} // verus!
