//! The grammar: recursive descent over the combinators of [`combinator`],
//! producing the concrete trees of [`syntax`].
//!
//! ```text
//! Statement      := (Identifier '=' Expression | Expression) Spaces Eof
//! Expression     := Multiplicative (('+'|'-') Multiplicative)*
//! Multiplicative := Application (('*'|'/') Application)*
//! Application    := Term Term*
//! Term           := Number | Identifier | '|' Identifier '|' Expression
//!                 | '(' Expression ')' | 'if' Expression 'then' Expression 'else' Expression 'end'
//! Identifier     := [a-z]+, other than the keywords if, then, else, end
//! Number         := [0-9]+, at most i32::MAX
//! ```
//!
//! Whitespace may precede every token. A function literal takes exactly one
//! parameter: a list of several is rejected. Each alternative is tried from the
//! position where the choice began.
pub mod combinator;
pub mod syntax;

use vstd::prelude::*;
use crate::parser::combinator::{
    Parser, ParseError, Char, Many1, Lower, Spaces, Then, Between, SepBy, Digit, Eof, chars_of,
    string_of, spaces_len, spec_number,
};

verus! {

/// The characters left from `pos`; the grammar's recursion decreases it, or keeps
/// it and descends to a lower level.
pub open spec fn rest(s: Seq<char>, pos: int) -> nat {
    if pos < s.len() {
        (s.len() - pos) as nat
    } else {
        0
    }
}

/// Whether `r` is what a parser whose meaning is `expected` returns on the input
/// of length `len` from `pos`.
pub open spec fn outcome<T: DeepView>(r: Result<(T, usize), ParseError>, expected: Option<(T::V, nat)>, len: int, pos: usize) -> bool {
    match r {
        Ok((v, q)) => pos <= q <= len && expected == Some((v.deep_view(), (q - pos) as nat)),
        Err(_) => expected is None,
    }
}

pub open spec fn is_keyword(w: Seq<char>) -> bool {
    w == "if"@ || w == "then"@ || w == "else"@ || w == "end"@
}

/// The character `c` after whitespace: the characters consumed.
pub open spec fn spec_symbol(s: Seq<char>, pos: int, c: char) -> Option<nat> {
    let k = spaces_len(s, pos);
    if 0 <= pos + k < s.len() && s[pos + k] == c {
        Some(k + 1)
    } else {
        None
    }
}

pub open spec fn word_parser() -> Then<Spaces, Many1<Lower>> {
    Then { p1: Spaces {  }, p2: Many1 { p: Lower {  } } }
}

/// A word of lowercase letters after whitespace.
#[verifier::opaque]
pub open spec fn spec_word(s: Seq<char>, pos: int) -> Option<(Seq<char>, nat)> {
    word_parser().spec_parse(s, pos)
}

pub proof fn lemma_word_advances(s: Seq<char>, pos: int)
    ensures
        spec_word(s, pos) matches Some((_, n)) ==> 0 <= pos < s.len() && n >= 1,
{
    reveal(spec_word);
}

pub proof fn lemma_keyword_advances(s: Seq<char>, pos: int, kw: Seq<char>)
    ensures
        spec_keyword(s, pos, kw) matches Some(n) ==> 0 <= pos < s.len() && n >= 1,
{
    reveal(spec_keyword);
    lemma_word_advances(s, pos);
}

/// The keyword `kw` after whitespace: the characters consumed.
#[verifier::opaque]
pub open spec fn spec_keyword(s: Seq<char>, pos: int, kw: Seq<char>) -> Option<nat> {
    match spec_word(s, pos) {
        Some((w, n)) => if w == kw {
            Some(n)
        } else {
            None
        },
        None => None,
    }
}

/// An identifier after whitespace.
pub open spec fn spec_identifier(s: Seq<char>, pos: int) -> Option<(Seq<char>, nat)> {
    match spec_word(s, pos) {
        Some((w, n)) => if is_keyword(w) {
            None
        } else {
            Some((w, n))
        },
        None => None,
    }
}

pub open spec fn spec_num(s: Seq<char>, pos: int) -> Option<(syntax::Term<Seq<char>>, nat)> {
    let k = spaces_len(s, pos);
    match spec_number(s, pos + k) {
        Some((v, m)) => Some((syntax::Term::Num(v), k + m)),
        None => None,
    }
}

pub open spec fn spec_var(s: Seq<char>, pos: int) -> Option<(syntax::Term<Seq<char>>, nat)> {
    match spec_identifier(s, pos) {
        Some((w, n)) => Some((syntax::Term::Var(w), n)),
        None => None,
    }
}

pub open spec fn params_parser() -> Then<Spaces, Between<Char, SepBy<Many1<Lower>, Char>, Char>> {
    Then {
        p1: Spaces {  },
        p2: Between {
            left_p: Char { c: '|' },
            mid_p: SepBy { p: Many1 { p: Lower {  } }, sep: Char { c: ',' } },
            right_p: Char { c: '|' },
        },
    }
}

pub open spec fn spec_fun(s: Seq<char>, pos: int) -> Option<(syntax::Term<Seq<char>>, nat)>
    decreases rest(s, pos), 0nat,
{
    match params_parser().spec_parse(s, pos) {
        Some((names, n)) => if names.len() == 1 && !is_keyword(names[0]) {
            match spec_expression(s, pos + n) {
                Some((e, m)) => Some((syntax::Term::Function(names[0], Box::new(e)), n + m)),
                None => None,
            }
        } else {
            None
        },
        None => None,
    }
}

pub open spec fn spec_paren(s: Seq<char>, pos: int) -> Option<(syntax::Term<Seq<char>>, nat)>
    decreases rest(s, pos), 0nat,
{
    match spec_symbol(s, pos, '(') {
        Some(n1) => match spec_expression(s, pos + n1) {
            Some((e, n2)) => match spec_symbol(s, pos + n1 + n2, ')') {
                Some(n3) => Some((syntax::Term::Paren(Box::new(e)), n1 + n2 + n3)),
                None => None,
            },
            None => None,
        },
        None => None,
    }
}

/// `else` expression `end`: the alternative of a conditional.
pub open spec fn spec_else(s: Seq<char>, pos: int) -> Option<(syntax::Exp<Seq<char>>, nat)>
    decreases rest(s, pos), 0nat,
{
    proof {
        lemma_keyword_advances(s, pos, "else"@);
    }
    match spec_keyword(s, pos, "else"@) {
        Some(n1) => match spec_expression(s, pos + n1) {
            Some((b, n2)) => match spec_keyword(s, pos + n1 + n2, "end"@) {
                Some(n3) => Some((b, n1 + n2 + n3)),
                None => None,
            },
            None => None,
        },
        None => None,
    }
}

/// `then` expression `else` expression `end`: the two branches of a conditional.
pub open spec fn spec_branches(s: Seq<char>, pos: int) -> Option<(syntax::Exp<Seq<char>>, syntax::Exp<Seq<char>>, nat)>
    decreases rest(s, pos), 0nat,
{
    proof {
        lemma_keyword_advances(s, pos, "then"@);
    }
    match spec_keyword(s, pos, "then"@) {
        Some(n1) => match spec_expression(s, pos + n1) {
            Some((a, n2)) => match spec_else(s, pos + n1 + n2) {
                Some((b, n3)) => Some((a, b, n1 + n2 + n3)),
                None => None,
            },
            None => None,
        },
        None => None,
    }
}

/// `if` expression `then` expression `else` expression `end`.
pub open spec fn spec_cond(s: Seq<char>, pos: int) -> Option<(syntax::Term<Seq<char>>, nat)>
    decreases rest(s, pos), 0nat,
{
    proof {
        lemma_keyword_advances(s, pos, "if"@);
    }
    match spec_keyword(s, pos, "if"@) {
        Some(n1) => match spec_expression(s, pos + n1) {
            Some((c, n2)) => match spec_branches(s, pos + n1 + n2) {
                Some((a, b, n3)) => Some((syntax::Term::If(Box::new(c), Box::new(a), Box::new(b)), n1 + n2 + n3)),
                None => None,
            },
            None => None,
        },
        None => None,
    }
}

/// A term: a number, an identifier, a function literal, a parenthesized
/// expression or a conditional, tried in that order.
pub open spec fn spec_term(s: Seq<char>, pos: int) -> Option<(syntax::Term<Seq<char>>, nat)>
    decreases rest(s, pos), 1nat,
{
    match spec_num(s, pos) {
        Some(r) => Some(r),
        None => match spec_var(s, pos) {
            Some(r) => Some(r),
            None => match spec_fun(s, pos) {
                Some(r) => Some(r),
                None => match spec_paren(s, pos) {
                    Some(r) => Some(r),
                    None => spec_cond(s, pos),
                },
            },
        },
    }
}

pub open spec fn spec_app(s: Seq<char>, pos: int) -> Option<(syntax::Exp5<Seq<char>>, nat)>
    decreases rest(s, pos), 2nat,
{
    match spec_term(s, pos) {
        Some((t, n)) => if 0 < n && pos + n <= s.len() {
            match spec_exp5(s, pos + n) {
                Some((more, m)) => Some((syntax::Exp5::App(Box::new(t), Box::new(more)), n + m)),
                None => None,
            }
        } else {
            None
        },
        None => None,
    }
}

pub open spec fn spec_exp5(s: Seq<char>, pos: int) -> Option<(syntax::Exp5<Seq<char>>, nat)>
    decreases rest(s, pos), 3nat,
{
    match spec_app(s, pos) {
        Some(r) => Some(r),
        None => Some((syntax::Exp5::Empty, 0)),
    }
}

pub open spec fn spec_exp4(s: Seq<char>, pos: int) -> Option<(syntax::Exp4<Seq<char>>, nat)>
    decreases rest(s, pos), 4nat,
{
    match spec_term(s, pos) {
        Some((t, n)) => match spec_exp5(s, pos + n) {
            Some((more, m)) => Some((syntax::Exp4::Exp4(Box::new(t), Box::new(more)), n + m)),
            None => None,
        },
        None => None,
    }
}

pub open spec fn spec_mul(s: Seq<char>, pos: int) -> Option<(syntax::Exp3<Seq<char>>, nat)>
    decreases rest(s, pos), 5nat,
{
    match spec_symbol(s, pos, '*') {
        Some(n1) => match spec_exp4(s, pos + n1) {
            Some((a, n2)) => match spec_exp3(s, pos + n1 + n2) {
                Some((more, n3)) => Some((syntax::Exp3::Mul(Box::new(a), Box::new(more)), n1 + n2 + n3)),
                None => None,
            },
            None => None,
        },
        None => None,
    }
}

pub open spec fn spec_div(s: Seq<char>, pos: int) -> Option<(syntax::Exp3<Seq<char>>, nat)>
    decreases rest(s, pos), 5nat,
{
    match spec_symbol(s, pos, '/') {
        Some(n1) => match spec_exp4(s, pos + n1) {
            Some((a, n2)) => match spec_exp3(s, pos + n1 + n2) {
                Some((more, n3)) => Some((syntax::Exp3::Div(Box::new(a), Box::new(more)), n1 + n2 + n3)),
                None => None,
            },
            None => None,
        },
        None => None,
    }
}

pub open spec fn spec_exp3(s: Seq<char>, pos: int) -> Option<(syntax::Exp3<Seq<char>>, nat)>
    decreases rest(s, pos), 6nat,
{
    match spec_mul(s, pos) {
        Some(r) => Some(r),
        None => match spec_div(s, pos) {
            Some(r) => Some(r),
            None => Some((syntax::Exp3::Empty, 0)),
        },
    }
}

pub open spec fn spec_exp2(s: Seq<char>, pos: int) -> Option<(syntax::Exp2<Seq<char>>, nat)>
    decreases rest(s, pos), 7nat,
{
    match spec_exp4(s, pos) {
        Some((a, n)) => match spec_exp3(s, pos + n) {
            Some((more, m)) => Some((syntax::Exp2::Exp2(Box::new(a), Box::new(more)), n + m)),
            None => None,
        },
        None => None,
    }
}

pub open spec fn spec_add(s: Seq<char>, pos: int) -> Option<(syntax::Exp1<Seq<char>>, nat)>
    decreases rest(s, pos), 8nat,
{
    match spec_symbol(s, pos, '+') {
        Some(n1) => match spec_exp2(s, pos + n1) {
            Some((a, n2)) => match spec_exp1(s, pos + n1 + n2) {
                Some((more, n3)) => Some((syntax::Exp1::Add(Box::new(a), Box::new(more)), n1 + n2 + n3)),
                None => None,
            },
            None => None,
        },
        None => None,
    }
}

pub open spec fn spec_sub(s: Seq<char>, pos: int) -> Option<(syntax::Exp1<Seq<char>>, nat)>
    decreases rest(s, pos), 8nat,
{
    match spec_symbol(s, pos, '-') {
        Some(n1) => match spec_exp2(s, pos + n1) {
            Some((a, n2)) => match spec_exp1(s, pos + n1 + n2) {
                Some((more, n3)) => Some((syntax::Exp1::Sub(Box::new(a), Box::new(more)), n1 + n2 + n3)),
                None => None,
            },
            None => None,
        },
        None => None,
    }
}

pub open spec fn spec_exp1(s: Seq<char>, pos: int) -> Option<(syntax::Exp1<Seq<char>>, nat)>
    decreases rest(s, pos), 9nat,
{
    match spec_add(s, pos) {
        Some(r) => Some(r),
        None => match spec_sub(s, pos) {
            Some(r) => Some(r),
            None => Some((syntax::Exp1::Empty, 0)),
        },
    }
}

pub open spec fn spec_expression(s: Seq<char>, pos: int) -> Option<(syntax::Exp<Seq<char>>, nat)>
    decreases rest(s, pos), 10nat,
{
    match spec_exp2(s, pos) {
        Some((a, n)) => match spec_exp1(s, pos + n) {
            Some((more, m)) => Some((syntax::Exp::Exp(Box::new(a), Box::new(more)), n + m)),
            None => None,
        },
        None => None,
    }
}

/// `name = expression`.
pub open spec fn spec_assignment(s: Seq<char>, pos: int) -> Option<(syntax::Statement<Seq<char>>, nat)> {
    match spec_identifier(s, pos) {
        Some((x, n1)) => match spec_symbol(s, pos + n1, '=') {
            Some(n2) => match spec_expression(s, pos + n1 + n2) {
                Some((e, n3)) => Some((syntax::Statement::AssignmentStatement(x, Box::new(e)), n1 + n2 + n3)),
                None => None,
            },
            None => None,
        },
        None => None,
    }
}

pub open spec fn spec_expression_statement(s: Seq<char>, pos: int) -> Option<(syntax::Statement<Seq<char>>, nat)> {
    match spec_expression(s, pos) {
        Some((e, n)) => Some((syntax::Statement::ExpressionStatement(Box::new(e)), n)),
        None => None,
    }
}

/// A statement from `pos`: an assignment, else an expression, then whitespace up
/// to the end of the input.
pub open spec fn spec_statement_at(s: Seq<char>, pos: int) -> Option<(syntax::Statement<Seq<char>>, nat)> {
    let first = match spec_assignment(s, pos) {
        Some(r) => Some(r),
        None => spec_expression_statement(s, pos),
    };
    match first {
        Some((st, n)) => if pos + n + spaces_len(s, pos + n) >= s.len() {
            Some((st, n + spaces_len(s, pos + n)))
        } else {
            None
        },
        None => None,
    }
}

/// The statement that the whole of `s` spells, if any.
pub open spec fn spec_statement(s: Seq<char>) -> Option<syntax::Statement<Seq<char>>> {
    match spec_statement_at(s, 0) {
        Some((st, _)) => Some(st),
        None => None,
    }
}

fn same_chars(a: &Vec<char>, b: &Vec<char>) -> (r: bool)
    ensures
        r == (a@ == b@),
{
    if a.len() != b.len() {
        return false;
    }
    let mut i: usize = 0;
    while i < a.len()
        invariant
            a@.len() == b@.len(),
            i <= a@.len(),
            forall|j: int| 0 <= j < i ==> a@[j] == b@[j],
        decreases a@.len() - i,
    {
        if a[i] != b[i] {
            return false;
        }
        i = i + 1;
    }
    proof {
        assert(a@ =~= b@);
    }
    true
}

fn keyword_word(w: &Vec<char>) -> (r: bool)
    ensures
        r == is_keyword(w@),
{
    same_chars(w, &chars_of("if")) || same_chars(w, &chars_of("then")) || same_chars(w, &chars_of("else"))
        || same_chars(w, &chars_of("end"))
}

fn parse_symbol(input: &Vec<char>, pos: usize, c: char) -> (r: Result<usize, ParseError>)
    requires
        pos <= input@.len(),
    ensures
        match r {
            Ok(q) => pos < q <= input@.len() && spec_symbol(input@, pos as int, c) == Some((q - pos) as nat),
            Err(_) => spec_symbol(input@, pos as int, c) is None,
        },
{
    let p = Then::new(Spaces::new(), Char::new(c));
    let (_, q) = p.parse(input, pos)?;
    Ok(q)
}

fn parse_word(input: &Vec<char>, pos: usize) -> (r: Result<(Vec<char>, usize), ParseError>)
    requires
        pos <= input@.len(),
    ensures
        match r {
            Ok((w, q)) => pos < q <= input@.len() && spec_word(input@, pos as int) == Some((w@, (q - pos) as nat)),
            Err(_) => spec_word(input@, pos as int) is None,
        },
{
    proof {
        reveal(spec_word);
    }
    let p = Then::new(Spaces::new(), Many1::new(Lower::new()));
    let (w, q) = p.parse(input, pos)?;
    proof {
        assert(w.deep_view() =~= w@);
    }
    Ok((w, q))
}

fn parse_keyword(input: &Vec<char>, pos: usize, kw: &str) -> (r: Result<usize, ParseError>)
    requires
        pos <= input@.len(),
    ensures
        match r {
            Ok(q) => pos < q <= input@.len() && spec_keyword(input@, pos as int, kw@) == Some((q - pos) as nat),
            Err(_) => spec_keyword(input@, pos as int, kw@) is None,
        },
{
    proof {
        reveal(spec_keyword);
    }
    let (w, q) = parse_word(input, pos)?;
    if same_chars(&w, &chars_of(kw)) {
        Ok(q)
    } else {
        Err(ParseError::at(input, pos, &chars_of("expected a keyword")))
    }
}

fn parse_identifier(input: &Vec<char>, pos: usize) -> (r: Result<(String, usize), ParseError>)
    requires
        pos <= input@.len(),
    ensures
        match r {
            Ok((name, q)) => pos < q <= input@.len() && spec_identifier(input@, pos as int) == Some((name@, (q - pos) as nat)),
            Err(_) => spec_identifier(input@, pos as int) is None,
        },
{
    let (w, q) = parse_word(input, pos)?;
    if keyword_word(&w) {
        Err(ParseError::at(input, pos, &chars_of("a keyword is not an identifier")))
    } else {
        Ok((string_of(&w), q))
    }
}

fn parse_num(input: &Vec<char>, pos: usize) -> (r: Result<(syntax::Term<String>, usize), ParseError>)
    requires
        pos <= input@.len(),
    ensures
        outcome(r, spec_num(input@, pos as int), input@.len() as int, pos),
        r matches Ok((_, q)) ==> pos < q,
{
    let p = Then::new(Spaces::new(), Digit::new());
    let (v, q) = p.parse(input, pos)?;
    Ok((syntax::Term::Num(v), q))
}

fn parse_var(input: &Vec<char>, pos: usize) -> (r: Result<(syntax::Term<String>, usize), ParseError>)
    requires
        pos <= input@.len(),
    ensures
        outcome(r, spec_var(input@, pos as int), input@.len() as int, pos),
        r matches Ok((_, q)) ==> pos < q,
{
    let (name, q) = parse_identifier(input, pos)?;
    Ok((syntax::Term::Var(name), q))
}

fn parse_fun(input: &Vec<char>, pos: usize) -> (r: Result<(syntax::Term<String>, usize), ParseError>)
    requires
        pos <= input@.len(),
    ensures
        outcome(r, spec_fun(input@, pos as int), input@.len() as int, pos),
        r matches Ok((_, q)) ==> pos < q,
    decreases rest(input@, pos as int), 0nat,
{
    let params = Then::new(
        Spaces::new(),
        Between::new(Char::new('|'), SepBy::new(Many1::new(Lower::new()), Char::new(',')), Char::new('|')),
    );
    let (names, q) = params.parse(input, pos)?;
    if names.len() != 1 {
        return Err(ParseError::at(input, pos, &chars_of("a function takes exactly one parameter")));
    }
    proof {
        assert(names.deep_view()[0] == names@[0].deep_view());
        assert(names@[0].deep_view() =~= names@[0]@);
    }
    if keyword_word(&names[0]) {
        return Err(ParseError::at(input, pos, &chars_of("a keyword is not a parameter")));
    }
    let name = string_of(&names[0]);
    let (body, q) = parse_expression(input, q)?;
    Ok((syntax::Term::Function(name, Box::new(body)), q))
}

fn parse_paren(input: &Vec<char>, pos: usize) -> (r: Result<(syntax::Term<String>, usize), ParseError>)
    requires
        pos <= input@.len(),
    ensures
        outcome(r, spec_paren(input@, pos as int), input@.len() as int, pos),
        r matches Ok((_, q)) ==> pos < q,
    decreases rest(input@, pos as int), 0nat,
{
    let q = parse_symbol(input, pos, '(')?;
    let (e, q) = parse_expression(input, q)?;
    let q = parse_symbol(input, q, ')')?;
    Ok((syntax::Term::Paren(Box::new(e)), q))
}

#[verifier::rlimit(100)]
#[verifier::spinoff_prover]
fn parse_else(input: &Vec<char>, pos: usize) -> (r: Result<(syntax::Exp<String>, usize), ParseError>)
    requires
        pos <= input@.len(),
    ensures
        outcome(r, spec_else(input@, pos as int), input@.len() as int, pos),
        r matches Ok((_, q)) ==> pos < q,
    decreases rest(input@, pos as int), 0nat,
{
    let q = parse_keyword(input, pos, "else")?;
    let (b, q) = parse_expression(input, q)?;
    let q = parse_keyword(input, q, "end")?;
    Ok((b, q))
}

#[verifier::rlimit(100)]
#[verifier::spinoff_prover]
fn parse_branches(input: &Vec<char>, pos: usize) -> (r: Result<(syntax::Exp<String>, syntax::Exp<String>, usize), ParseError>)
    requires
        pos <= input@.len(),
    ensures
        match r {
            Ok((a, b, q)) => pos < q <= input@.len() && spec_branches(input@, pos as int) == Some((a@, b@, (q - pos) as nat)),
            Err(_) => spec_branches(input@, pos as int) is None,
        },
    decreases rest(input@, pos as int), 0nat,
{
    let q = parse_keyword(input, pos, "then")?;
    let (a, q) = parse_expression(input, q)?;
    let (b, q) = parse_else(input, q)?;
    Ok((a, b, q))
}

#[verifier::rlimit(100)]
#[verifier::spinoff_prover]
fn parse_cond(input: &Vec<char>, pos: usize) -> (r: Result<(syntax::Term<String>, usize), ParseError>)
    requires
        pos <= input@.len(),
    ensures
        outcome(r, spec_cond(input@, pos as int), input@.len() as int, pos),
        r matches Ok((_, q)) ==> pos < q,
    decreases rest(input@, pos as int), 0nat,
{
    let q = parse_keyword(input, pos, "if")?;
    let (c, q) = parse_expression(input, q)?;
    let (a, b, q) = parse_branches(input, q)?;
    Ok((syntax::Term::If(Box::new(c), Box::new(a), Box::new(b)), q))
}

fn parse_term(input: &Vec<char>, pos: usize) -> (r: Result<(syntax::Term<String>, usize), ParseError>)
    requires
        pos <= input@.len(),
    ensures
        outcome(r, spec_term(input@, pos as int), input@.len() as int, pos),
        r matches Ok((_, q)) ==> pos < q,
    decreases rest(input@, pos as int), 1nat,
{
    if let Ok(r) = parse_num(input, pos) {
        return Ok(r);
    }
    if let Ok(r) = parse_var(input, pos) {
        return Ok(r);
    }
    if let Ok(r) = parse_fun(input, pos) {
        return Ok(r);
    }
    if let Ok(r) = parse_paren(input, pos) {
        return Ok(r);
    }
    parse_cond(input, pos)
}

fn parse_app(input: &Vec<char>, pos: usize) -> (r: Result<(syntax::Exp5<String>, usize), ParseError>)
    requires
        pos <= input@.len(),
    ensures
        outcome(r, spec_app(input@, pos as int), input@.len() as int, pos),
    decreases rest(input@, pos as int), 2nat,
{
    let (t, q) = parse_term(input, pos)?;
    let (more, q) = parse_exp5(input, q)?;
    Ok((syntax::Exp5::App(Box::new(t), Box::new(more)), q))
}

fn parse_exp5(input: &Vec<char>, pos: usize) -> (r: Result<(syntax::Exp5<String>, usize), ParseError>)
    requires
        pos <= input@.len(),
    ensures
        outcome(r, spec_exp5(input@, pos as int), input@.len() as int, pos),
    decreases rest(input@, pos as int), 3nat,
{
    match parse_app(input, pos) {
        Ok(r) => Ok(r),
        Err(_) => Ok((syntax::Exp5::Empty, pos)),
    }
}

fn parse_exp4(input: &Vec<char>, pos: usize) -> (r: Result<(syntax::Exp4<String>, usize), ParseError>)
    requires
        pos <= input@.len(),
    ensures
        outcome(r, spec_exp4(input@, pos as int), input@.len() as int, pos),
    decreases rest(input@, pos as int), 4nat,
{
    let (t, q) = parse_term(input, pos)?;
    let (more, q) = parse_exp5(input, q)?;
    Ok((syntax::Exp4::Exp4(Box::new(t), Box::new(more)), q))
}

#[verifier::rlimit(100)]
#[verifier::spinoff_prover]
fn parse_mul(input: &Vec<char>, pos: usize) -> (r: Result<(syntax::Exp3<String>, usize), ParseError>)
    requires
        pos <= input@.len(),
    ensures
        outcome(r, spec_mul(input@, pos as int), input@.len() as int, pos),
    decreases rest(input@, pos as int), 5nat,
{
    let q = parse_symbol(input, pos, '*')?;
    let (a, q) = parse_exp4(input, q)?;
    let (more, q) = parse_exp3(input, q)?;
    Ok((syntax::Exp3::Mul(Box::new(a), Box::new(more)), q))
}

#[verifier::rlimit(100)]
#[verifier::spinoff_prover]
fn parse_div(input: &Vec<char>, pos: usize) -> (r: Result<(syntax::Exp3<String>, usize), ParseError>)
    requires
        pos <= input@.len(),
    ensures
        outcome(r, spec_div(input@, pos as int), input@.len() as int, pos),
    decreases rest(input@, pos as int), 5nat,
{
    let q = parse_symbol(input, pos, '/')?;
    let (a, q) = parse_exp4(input, q)?;
    let (more, q) = parse_exp3(input, q)?;
    Ok((syntax::Exp3::Div(Box::new(a), Box::new(more)), q))
}

fn parse_exp3(input: &Vec<char>, pos: usize) -> (r: Result<(syntax::Exp3<String>, usize), ParseError>)
    requires
        pos <= input@.len(),
    ensures
        outcome(r, spec_exp3(input@, pos as int), input@.len() as int, pos),
    decreases rest(input@, pos as int), 6nat,
{
    if let Ok(r) = parse_mul(input, pos) {
        return Ok(r);
    }
    if let Ok(r) = parse_div(input, pos) {
        return Ok(r);
    }
    Ok((syntax::Exp3::Empty, pos))
}

#[verifier::rlimit(100)]
#[verifier::spinoff_prover]
fn parse_exp2(input: &Vec<char>, pos: usize) -> (r: Result<(syntax::Exp2<String>, usize), ParseError>)
    requires
        pos <= input@.len(),
    ensures
        outcome(r, spec_exp2(input@, pos as int), input@.len() as int, pos),
    decreases rest(input@, pos as int), 7nat,
{
    let (a, q) = parse_exp4(input, pos)?;
    let (more, q) = parse_exp3(input, q)?;
    Ok((syntax::Exp2::Exp2(Box::new(a), Box::new(more)), q))
}

fn parse_add(input: &Vec<char>, pos: usize) -> (r: Result<(syntax::Exp1<String>, usize), ParseError>)
    requires
        pos <= input@.len(),
    ensures
        outcome(r, spec_add(input@, pos as int), input@.len() as int, pos),
    decreases rest(input@, pos as int), 8nat,
{
    let q = parse_symbol(input, pos, '+')?;
    let (a, q) = parse_exp2(input, q)?;
    let (more, q) = parse_exp1(input, q)?;
    Ok((syntax::Exp1::Add(Box::new(a), Box::new(more)), q))
}

#[verifier::rlimit(100)]
#[verifier::spinoff_prover]
fn parse_sub(input: &Vec<char>, pos: usize) -> (r: Result<(syntax::Exp1<String>, usize), ParseError>)
    requires
        pos <= input@.len(),
    ensures
        outcome(r, spec_sub(input@, pos as int), input@.len() as int, pos),
    decreases rest(input@, pos as int), 8nat,
{
    let q = parse_symbol(input, pos, '-')?;
    let (a, q) = parse_exp2(input, q)?;
    let (more, q) = parse_exp1(input, q)?;
    Ok((syntax::Exp1::Sub(Box::new(a), Box::new(more)), q))
}

fn parse_exp1(input: &Vec<char>, pos: usize) -> (r: Result<(syntax::Exp1<String>, usize), ParseError>)
    requires
        pos <= input@.len(),
    ensures
        outcome(r, spec_exp1(input@, pos as int), input@.len() as int, pos),
    decreases rest(input@, pos as int), 9nat,
{
    if let Ok(r) = parse_add(input, pos) {
        return Ok(r);
    }
    if let Ok(r) = parse_sub(input, pos) {
        return Ok(r);
    }
    Ok((syntax::Exp1::Empty, pos))
}

fn parse_expression(input: &Vec<char>, pos: usize) -> (r: Result<(syntax::Exp<String>, usize), ParseError>)
    requires
        pos <= input@.len(),
    ensures
        outcome(r, spec_expression(input@, pos as int), input@.len() as int, pos),
    decreases rest(input@, pos as int), 10nat,
{
    let (a, q) = parse_exp2(input, pos)?;
    let (more, q) = parse_exp1(input, q)?;
    Ok((syntax::Exp::Exp(Box::new(a), Box::new(more)), q))
}

fn parse_assignment(input: &Vec<char>, pos: usize) -> (r: Result<(syntax::Statement<String>, usize), ParseError>)
    requires
        pos <= input@.len(),
    ensures
        outcome(r, spec_assignment(input@, pos as int), input@.len() as int, pos),
{
    let (name, q) = parse_identifier(input, pos)?;
    let q = parse_symbol(input, q, '=')?;
    let (e, q) = parse_expression(input, q)?;
    Ok((syntax::Statement::AssignmentStatement(name, Box::new(e)), q))
}

fn parse_expression_statement(input: &Vec<char>, pos: usize) -> (r: Result<(syntax::Statement<String>, usize), ParseError>)
    requires
        pos <= input@.len(),
    ensures
        outcome(r, spec_expression_statement(input@, pos as int), input@.len() as int, pos),
{
    let (e, q) = parse_expression(input, pos)?;
    Ok((syntax::Statement::ExpressionStatement(Box::new(e)), q))
}

#[verifier::rlimit(100)]
#[verifier::spinoff_prover]
fn parse_statement_at(input: &Vec<char>, pos: usize) -> (r: Result<(syntax::Statement<String>, usize), ParseError>)
    requires
        pos <= input@.len(),
    ensures
        outcome(r, spec_statement_at(input@, pos as int), input@.len() as int, pos),
{
    let (st, q) = match parse_assignment(input, pos) {
        Ok(r) => r,
        Err(_) => parse_expression_statement(input, pos)?,
    };
    let (_, q) = Spaces::new().parse(input, q)?;
    let (_, q) = Eof::new().parse(input, q)?;
    Ok((st, q))
}

/// Parses a whole line of source text as one statement.
pub fn parse_statement(src: &str) -> (r: Result<syntax::Statement<String>, ParseError>)
    ensures
        match r {
            Ok(st) => spec_statement(src@) == Some(st@),
            Err(_) => spec_statement(src@) is None,
        },
{
    let input = chars_of(src);
    let (st, _) = parse_statement_at(&input, 0)?;
    Ok(st)
}

/// A number after whitespace.
pub struct Num {}

impl Num {
    pub fn new() -> (r: Num)
        ensures
            forall|s: Seq<char>, pos: int| #[trigger] r.spec_parse(s, pos) == spec_num(s, pos),
    {
        Num {  }
    }
}

impl Parser for Num {
    type Output = syntax::Term<String>;

    open spec fn wf(&self) -> bool {
        true
    }

    open spec fn spec_parse(&self, s: Seq<char>, pos: int) -> Option<(syntax::Term<Seq<char>>, nat)> {
        spec_num(s, pos)
    }

    fn parse(&self, input: &Vec<char>, pos: usize) -> (r: Result<(syntax::Term<String>, usize), ParseError>) {
        parse_num(input, pos)
    }
}

/// An identifier after whitespace.
pub struct Var {}

impl Var {
    pub fn new() -> (r: Var)
        ensures
            forall|s: Seq<char>, pos: int| #[trigger] r.spec_parse(s, pos) == spec_var(s, pos),
    {
        Var {  }
    }
}

impl Parser for Var {
    type Output = syntax::Term<String>;

    open spec fn wf(&self) -> bool {
        true
    }

    open spec fn spec_parse(&self, s: Seq<char>, pos: int) -> Option<(syntax::Term<Seq<char>>, nat)> {
        spec_var(s, pos)
    }

    fn parse(&self, input: &Vec<char>, pos: usize) -> (r: Result<(syntax::Term<String>, usize), ParseError>) {
        parse_var(input, pos)
    }
}

/// A function literal: its parameter between bars, then its body.
pub struct Fun {}

impl Fun {
    pub fn new() -> (r: Fun)
        ensures
            forall|s: Seq<char>, pos: int| #[trigger] r.spec_parse(s, pos) == spec_fun(s, pos),
    {
        Fun {  }
    }
}

impl Parser for Fun {
    type Output = syntax::Term<String>;

    open spec fn wf(&self) -> bool {
        true
    }

    open spec fn spec_parse(&self, s: Seq<char>, pos: int) -> Option<(syntax::Term<Seq<char>>, nat)> {
        spec_fun(s, pos)
    }

    fn parse(&self, input: &Vec<char>, pos: usize) -> (r: Result<(syntax::Term<String>, usize), ParseError>) {
        parse_fun(input, pos)
    }
}

/// An expression in parentheses.
pub struct ParenedExpression {}

impl ParenedExpression {
    pub fn new() -> (r: ParenedExpression)
        ensures
            forall|s: Seq<char>, pos: int| #[trigger] r.spec_parse(s, pos) == spec_paren(s, pos),
    {
        ParenedExpression {  }
    }
}

impl Parser for ParenedExpression {
    type Output = syntax::Term<String>;

    open spec fn wf(&self) -> bool {
        true
    }

    open spec fn spec_parse(&self, s: Seq<char>, pos: int) -> Option<(syntax::Term<Seq<char>>, nat)> {
        spec_paren(s, pos)
    }

    fn parse(&self, input: &Vec<char>, pos: usize) -> (r: Result<(syntax::Term<String>, usize), ParseError>) {
        parse_paren(input, pos)
    }
}

/// A conditional: `if` condition `then` expression `else` expression `end`.
pub struct Conditional {}

impl Conditional {
    pub fn new() -> (r: Conditional)
        ensures
            forall|s: Seq<char>, pos: int| #[trigger] r.spec_parse(s, pos) == spec_cond(s, pos),
    {
        Conditional {  }
    }
}

impl Parser for Conditional {
    type Output = syntax::Term<String>;

    open spec fn wf(&self) -> bool {
        true
    }

    open spec fn spec_parse(&self, s: Seq<char>, pos: int) -> Option<(syntax::Term<Seq<char>>, nat)> {
        spec_cond(s, pos)
    }

    fn parse(&self, input: &Vec<char>, pos: usize) -> (r: Result<(syntax::Term<String>, usize), ParseError>) {
        parse_cond(input, pos)
    }
}

/// A term.
pub struct Term {}

impl Term {
    pub fn new() -> (r: Term)
        ensures
            forall|s: Seq<char>, pos: int| #[trigger] r.spec_parse(s, pos) == spec_term(s, pos),
    {
        Term {  }
    }
}

impl Parser for Term {
    type Output = syntax::Term<String>;

    open spec fn wf(&self) -> bool {
        true
    }

    open spec fn spec_parse(&self, s: Seq<char>, pos: int) -> Option<(syntax::Term<Seq<char>>, nat)> {
        spec_term(s, pos)
    }

    fn parse(&self, input: &Vec<char>, pos: usize) -> (r: Result<(syntax::Term<String>, usize), ParseError>) {
        parse_term(input, pos)
    }
}

/// A term and the terms it is applied to after it.
pub struct AppExpression {}

impl AppExpression {
    pub fn new() -> (r: AppExpression)
        ensures
            forall|s: Seq<char>, pos: int| #[trigger] r.spec_parse(s, pos) == spec_app(s, pos),
    {
        AppExpression {  }
    }
}

impl Parser for AppExpression {
    type Output = syntax::Exp5<String>;

    open spec fn wf(&self) -> bool {
        true
    }

    open spec fn spec_parse(&self, s: Seq<char>, pos: int) -> Option<(syntax::Exp5<Seq<char>>, nat)> {
        spec_app(s, pos)
    }

    fn parse(&self, input: &Vec<char>, pos: usize) -> (r: Result<(syntax::Exp5<String>, usize), ParseError>) {
        parse_app(input, pos)
    }
}

/// The end of an application chain; consumes nothing.
pub struct EmptyExpression5 {}

impl EmptyExpression5 {
    pub fn new() -> (r: EmptyExpression5)
        ensures
            forall|s: Seq<char>, pos: int| #[trigger] r.spec_parse(s, pos) == Some((syntax::Exp5::<Seq<char>>::Empty, 0nat)),
    {
        EmptyExpression5 {  }
    }
}

impl Parser for EmptyExpression5 {
    type Output = syntax::Exp5<String>;

    open spec fn wf(&self) -> bool {
        true
    }

    open spec fn spec_parse(&self, s: Seq<char>, pos: int) -> Option<(syntax::Exp5<Seq<char>>, nat)> {
        Some((syntax::Exp5::Empty, 0))
    }

    fn parse(&self, input: &Vec<char>, pos: usize) -> (r: Result<(syntax::Exp5<String>, usize), ParseError>) {
        Ok((syntax::Exp5::Empty, pos))
    }
}

/// The rest of an application chain, possibly empty.
pub struct Expression5 {}

impl Expression5 {
    pub fn new() -> (r: Expression5)
        ensures
            forall|s: Seq<char>, pos: int| #[trigger] r.spec_parse(s, pos) == spec_exp5(s, pos),
    {
        Expression5 {  }
    }
}

impl Parser for Expression5 {
    type Output = syntax::Exp5<String>;

    open spec fn wf(&self) -> bool {
        true
    }

    open spec fn spec_parse(&self, s: Seq<char>, pos: int) -> Option<(syntax::Exp5<Seq<char>>, nat)> {
        spec_exp5(s, pos)
    }

    fn parse(&self, input: &Vec<char>, pos: usize) -> (r: Result<(syntax::Exp5<String>, usize), ParseError>) {
        parse_exp5(input, pos)
    }
}

/// An application chain.
pub struct Expression4 {}

impl Expression4 {
    pub fn new() -> (r: Expression4)
        ensures
            forall|s: Seq<char>, pos: int| #[trigger] r.spec_parse(s, pos) == spec_exp4(s, pos),
    {
        Expression4 {  }
    }
}

impl Parser for Expression4 {
    type Output = syntax::Exp4<String>;

    open spec fn wf(&self) -> bool {
        true
    }

    open spec fn spec_parse(&self, s: Seq<char>, pos: int) -> Option<(syntax::Exp4<Seq<char>>, nat)> {
        spec_exp4(s, pos)
    }

    fn parse(&self, input: &Vec<char>, pos: usize) -> (r: Result<(syntax::Exp4<String>, usize), ParseError>) {
        parse_exp4(input, pos)
    }
}

/// `*` and an application chain, then the rest of the product.
pub struct MulExpression {}

impl MulExpression {
    pub fn new() -> (r: MulExpression)
        ensures
            forall|s: Seq<char>, pos: int| #[trigger] r.spec_parse(s, pos) == spec_mul(s, pos),
    {
        MulExpression {  }
    }
}

impl Parser for MulExpression {
    type Output = syntax::Exp3<String>;

    open spec fn wf(&self) -> bool {
        true
    }

    open spec fn spec_parse(&self, s: Seq<char>, pos: int) -> Option<(syntax::Exp3<Seq<char>>, nat)> {
        spec_mul(s, pos)
    }

    fn parse(&self, input: &Vec<char>, pos: usize) -> (r: Result<(syntax::Exp3<String>, usize), ParseError>) {
        parse_mul(input, pos)
    }
}

/// `/` and an application chain, then the rest of the product.
pub struct DivExpression {}

impl DivExpression {
    pub fn new() -> (r: DivExpression)
        ensures
            forall|s: Seq<char>, pos: int| #[trigger] r.spec_parse(s, pos) == spec_div(s, pos),
    {
        DivExpression {  }
    }
}

impl Parser for DivExpression {
    type Output = syntax::Exp3<String>;

    open spec fn wf(&self) -> bool {
        true
    }

    open spec fn spec_parse(&self, s: Seq<char>, pos: int) -> Option<(syntax::Exp3<Seq<char>>, nat)> {
        spec_div(s, pos)
    }

    fn parse(&self, input: &Vec<char>, pos: usize) -> (r: Result<(syntax::Exp3<String>, usize), ParseError>) {
        parse_div(input, pos)
    }
}

/// The end of a product; consumes nothing.
pub struct EmptyExpression3 {}

impl EmptyExpression3 {
    pub fn new() -> (r: EmptyExpression3)
        ensures
            forall|s: Seq<char>, pos: int| #[trigger] r.spec_parse(s, pos) == Some((syntax::Exp3::<Seq<char>>::Empty, 0nat)),
    {
        EmptyExpression3 {  }
    }
}

impl Parser for EmptyExpression3 {
    type Output = syntax::Exp3<String>;

    open spec fn wf(&self) -> bool {
        true
    }

    open spec fn spec_parse(&self, s: Seq<char>, pos: int) -> Option<(syntax::Exp3<Seq<char>>, nat)> {
        Some((syntax::Exp3::Empty, 0))
    }

    fn parse(&self, input: &Vec<char>, pos: usize) -> (r: Result<(syntax::Exp3<String>, usize), ParseError>) {
        Ok((syntax::Exp3::Empty, pos))
    }
}

/// The rest of a product, possibly empty.
pub struct Expression3 {}

impl Expression3 {
    pub fn new() -> (r: Expression3)
        ensures
            forall|s: Seq<char>, pos: int| #[trigger] r.spec_parse(s, pos) == spec_exp3(s, pos),
    {
        Expression3 {  }
    }
}

impl Parser for Expression3 {
    type Output = syntax::Exp3<String>;

    open spec fn wf(&self) -> bool {
        true
    }

    open spec fn spec_parse(&self, s: Seq<char>, pos: int) -> Option<(syntax::Exp3<Seq<char>>, nat)> {
        spec_exp3(s, pos)
    }

    fn parse(&self, input: &Vec<char>, pos: usize) -> (r: Result<(syntax::Exp3<String>, usize), ParseError>) {
        parse_exp3(input, pos)
    }
}

/// A product.
pub struct Expression2 {}

impl Expression2 {
    pub fn new() -> (r: Expression2)
        ensures
            forall|s: Seq<char>, pos: int| #[trigger] r.spec_parse(s, pos) == spec_exp2(s, pos),
    {
        Expression2 {  }
    }
}

impl Parser for Expression2 {
    type Output = syntax::Exp2<String>;

    open spec fn wf(&self) -> bool {
        true
    }

    open spec fn spec_parse(&self, s: Seq<char>, pos: int) -> Option<(syntax::Exp2<Seq<char>>, nat)> {
        spec_exp2(s, pos)
    }

    fn parse(&self, input: &Vec<char>, pos: usize) -> (r: Result<(syntax::Exp2<String>, usize), ParseError>) {
        parse_exp2(input, pos)
    }
}

/// `+` and a product, then the rest of the sum.
pub struct AddExpression {}

impl AddExpression {
    pub fn new() -> (r: AddExpression)
        ensures
            forall|s: Seq<char>, pos: int| #[trigger] r.spec_parse(s, pos) == spec_add(s, pos),
    {
        AddExpression {  }
    }
}

impl Parser for AddExpression {
    type Output = syntax::Exp1<String>;

    open spec fn wf(&self) -> bool {
        true
    }

    open spec fn spec_parse(&self, s: Seq<char>, pos: int) -> Option<(syntax::Exp1<Seq<char>>, nat)> {
        spec_add(s, pos)
    }

    fn parse(&self, input: &Vec<char>, pos: usize) -> (r: Result<(syntax::Exp1<String>, usize), ParseError>) {
        parse_add(input, pos)
    }
}

/// `-` and a product, then the rest of the sum.
pub struct SubExpression {}

impl SubExpression {
    pub fn new() -> (r: SubExpression)
        ensures
            forall|s: Seq<char>, pos: int| #[trigger] r.spec_parse(s, pos) == spec_sub(s, pos),
    {
        SubExpression {  }
    }
}

impl Parser for SubExpression {
    type Output = syntax::Exp1<String>;

    open spec fn wf(&self) -> bool {
        true
    }

    open spec fn spec_parse(&self, s: Seq<char>, pos: int) -> Option<(syntax::Exp1<Seq<char>>, nat)> {
        spec_sub(s, pos)
    }

    fn parse(&self, input: &Vec<char>, pos: usize) -> (r: Result<(syntax::Exp1<String>, usize), ParseError>) {
        parse_sub(input, pos)
    }
}

/// The end of a sum; consumes nothing.
pub struct EmptyExpression1 {}

impl EmptyExpression1 {
    pub fn new() -> (r: EmptyExpression1)
        ensures
            forall|s: Seq<char>, pos: int| #[trigger] r.spec_parse(s, pos) == Some((syntax::Exp1::<Seq<char>>::Empty, 0nat)),
    {
        EmptyExpression1 {  }
    }
}

impl Parser for EmptyExpression1 {
    type Output = syntax::Exp1<String>;

    open spec fn wf(&self) -> bool {
        true
    }

    open spec fn spec_parse(&self, s: Seq<char>, pos: int) -> Option<(syntax::Exp1<Seq<char>>, nat)> {
        Some((syntax::Exp1::Empty, 0))
    }

    fn parse(&self, input: &Vec<char>, pos: usize) -> (r: Result<(syntax::Exp1<String>, usize), ParseError>) {
        Ok((syntax::Exp1::Empty, pos))
    }
}

/// The rest of a sum, possibly empty.
pub struct Expression1 {}

impl Expression1 {
    pub fn new() -> (r: Expression1)
        ensures
            forall|s: Seq<char>, pos: int| #[trigger] r.spec_parse(s, pos) == spec_exp1(s, pos),
    {
        Expression1 {  }
    }
}

impl Parser for Expression1 {
    type Output = syntax::Exp1<String>;

    open spec fn wf(&self) -> bool {
        true
    }

    open spec fn spec_parse(&self, s: Seq<char>, pos: int) -> Option<(syntax::Exp1<Seq<char>>, nat)> {
        spec_exp1(s, pos)
    }

    fn parse(&self, input: &Vec<char>, pos: usize) -> (r: Result<(syntax::Exp1<String>, usize), ParseError>) {
        parse_exp1(input, pos)
    }
}

/// An expression.
pub struct Expression {}

impl Expression {
    pub fn new() -> (r: Expression)
        ensures
            forall|s: Seq<char>, pos: int| #[trigger] r.spec_parse(s, pos) == spec_expression(s, pos),
    {
        Expression {  }
    }
}

impl Parser for Expression {
    type Output = syntax::Exp<String>;

    open spec fn wf(&self) -> bool {
        true
    }

    open spec fn spec_parse(&self, s: Seq<char>, pos: int) -> Option<(syntax::Exp<Seq<char>>, nat)> {
        spec_expression(s, pos)
    }

    fn parse(&self, input: &Vec<char>, pos: usize) -> (r: Result<(syntax::Exp<String>, usize), ParseError>) {
        parse_expression(input, pos)
    }
}

/// An expression as a statement.
pub struct ExpressionStatement {}

impl ExpressionStatement {
    pub fn new() -> (r: ExpressionStatement)
        ensures
            forall|s: Seq<char>, pos: int| #[trigger] r.spec_parse(s, pos) == spec_expression_statement(s, pos),
    {
        ExpressionStatement {  }
    }
}

impl Parser for ExpressionStatement {
    type Output = syntax::Statement<String>;

    open spec fn wf(&self) -> bool {
        true
    }

    open spec fn spec_parse(&self, s: Seq<char>, pos: int) -> Option<(syntax::Statement<Seq<char>>, nat)> {
        spec_expression_statement(s, pos)
    }

    fn parse(&self, input: &Vec<char>, pos: usize) -> (r: Result<(syntax::Statement<String>, usize), ParseError>) {
        parse_expression_statement(input, pos)
    }
}

/// An assignment.
pub struct AssignmentStatement {}

impl AssignmentStatement {
    pub fn new() -> (r: AssignmentStatement)
        ensures
            forall|s: Seq<char>, pos: int| #[trigger] r.spec_parse(s, pos) == spec_assignment(s, pos),
    {
        AssignmentStatement {  }
    }
}

impl Parser for AssignmentStatement {
    type Output = syntax::Statement<String>;

    open spec fn wf(&self) -> bool {
        true
    }

    open spec fn spec_parse(&self, s: Seq<char>, pos: int) -> Option<(syntax::Statement<Seq<char>>, nat)> {
        spec_assignment(s, pos)
    }

    fn parse(&self, input: &Vec<char>, pos: usize) -> (r: Result<(syntax::Statement<String>, usize), ParseError>) {
        parse_assignment(input, pos)
    }
}

/// A statement that runs to the end of the input.
pub struct Statement {}

impl Statement {
    pub fn new() -> (r: Statement)
        ensures
            forall|s: Seq<char>, pos: int| #[trigger] r.spec_parse(s, pos) == spec_statement_at(s, pos),
    {
        Statement {  }
    }
}

impl Parser for Statement {
    type Output = syntax::Statement<String>;

    open spec fn wf(&self) -> bool {
        true
    }

    open spec fn spec_parse(&self, s: Seq<char>, pos: int) -> Option<(syntax::Statement<Seq<char>>, nat)> {
        spec_statement_at(s, pos)
    }

    fn parse(&self, input: &Vec<char>, pos: usize) -> (r: Result<(syntax::Statement<String>, usize), ParseError>) {
        parse_statement_at(input, pos)
    }
}

} // verus!
