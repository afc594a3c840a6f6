//! Syntax trees: the concrete tree the grammar builds, and the abstract
//! expression tree that the evaluator and the compiler consume.
//!
//! Every tree is generic over the representation `N` of names: `String` at run
//! time, `Seq<char>` in specifications. The view of a tree is the same tree with
//! each name replaced by its characters.
use vstd::prelude::*;

verus! {

/// A term: the operand of application.
#[derive(Debug)]
pub enum Term<N> {
    Num(i32),
    Var(N),
    Function(N, Box<Exp<N>>),
    Paren(Box<Exp<N>>),
    If(Box<Exp<N>>, Box<Exp<N>>, Box<Exp<N>>),
}

/// The terms that follow the first one in an application chain.
#[derive(Debug)]
pub enum Exp5<N> {
    App(Box<Term<N>>, Box<Exp5<N>>),
    Empty,
}

/// An application chain: a term applied to the following ones.
#[derive(Debug)]
pub enum Exp4<N> {
    Exp4(Box<Term<N>>, Box<Exp5<N>>),
}

/// The `*` and `/` operations that follow the first operand of a product.
#[derive(Debug)]
pub enum Exp3<N> {
    Mul(Box<Exp4<N>>, Box<Exp3<N>>),
    Div(Box<Exp4<N>>, Box<Exp3<N>>),
    Empty,
}

/// A product: an application chain and the operations that follow it.
#[derive(Debug)]
pub enum Exp2<N> {
    Exp2(Box<Exp4<N>>, Box<Exp3<N>>),
}

/// The `+` and `-` operations that follow the first operand of a sum.
#[derive(Debug)]
pub enum Exp1<N> {
    Add(Box<Exp2<N>>, Box<Exp1<N>>),
    Sub(Box<Exp2<N>>, Box<Exp1<N>>),
    Empty,
}

/// An expression: a product and the operations that follow it.
#[derive(Debug)]
pub enum Exp<N> {
    Exp(Box<Exp2<N>>, Box<Exp1<N>>),
}

/// A statement as written.
#[derive(Debug)]
pub enum Statement<N> {
    ExpressionStatement(Box<Exp<N>>),
    AssignmentStatement(N, Box<Exp<N>>),
}

/// The abstract expression tree.
#[derive(Debug)]
pub enum ExpAst<N> {
    Add(Box<ExpAst<N>>, Box<ExpAst<N>>),
    Sub(Box<ExpAst<N>>, Box<ExpAst<N>>),
    Mul(Box<ExpAst<N>>, Box<ExpAst<N>>),
    Div(Box<ExpAst<N>>, Box<ExpAst<N>>),
    App(Box<ExpAst<N>>, Box<ExpAst<N>>),
    Var(N),
    Num(i32),
    Fun(N, Box<ExpAst<N>>),
    If(Box<ExpAst<N>>, Box<ExpAst<N>>, Box<ExpAst<N>>),
}

/// The abstract statement.
#[derive(Debug)]
pub enum StatementAst<N> {
    Exp(Box<ExpAst<N>>),
    Assign(N, Box<ExpAst<N>>),
}

pub open spec fn term_view(t: Term<String>) -> Term<Seq<char>>
    decreases t,
{
    match t {
        Term::Num(n) => Term::Num(n),
        Term::Var(name) => Term::Var(name@),
        Term::Function(name, body) => Term::Function(name@, Box::new(exp_view(*body))),
        Term::Paren(e) => Term::Paren(Box::new(exp_view(*e))),
        Term::If(c, a, b) => Term::If(Box::new(exp_view(*c)), Box::new(exp_view(*a)), Box::new(exp_view(*b))),
    }
}

pub open spec fn exp5_view(e: Exp5<String>) -> Exp5<Seq<char>>
    decreases e,
{
    match e {
        Exp5::App(t, rest) => Exp5::App(Box::new(term_view(*t)), Box::new(exp5_view(*rest))),
        Exp5::Empty => Exp5::Empty,
    }
}

pub open spec fn exp4_view(e: Exp4<String>) -> Exp4<Seq<char>>
    decreases e,
{
    match e {
        Exp4::Exp4(t, rest) => Exp4::Exp4(Box::new(term_view(*t)), Box::new(exp5_view(*rest))),
    }
}

pub open spec fn exp3_view(e: Exp3<String>) -> Exp3<Seq<char>>
    decreases e,
{
    match e {
        Exp3::Mul(a, rest) => Exp3::Mul(Box::new(exp4_view(*a)), Box::new(exp3_view(*rest))),
        Exp3::Div(a, rest) => Exp3::Div(Box::new(exp4_view(*a)), Box::new(exp3_view(*rest))),
        Exp3::Empty => Exp3::Empty,
    }
}

pub open spec fn exp2_view(e: Exp2<String>) -> Exp2<Seq<char>>
    decreases e,
{
    match e {
        Exp2::Exp2(a, rest) => Exp2::Exp2(Box::new(exp4_view(*a)), Box::new(exp3_view(*rest))),
    }
}

pub open spec fn exp1_view(e: Exp1<String>) -> Exp1<Seq<char>>
    decreases e,
{
    match e {
        Exp1::Add(a, rest) => Exp1::Add(Box::new(exp2_view(*a)), Box::new(exp1_view(*rest))),
        Exp1::Sub(a, rest) => Exp1::Sub(Box::new(exp2_view(*a)), Box::new(exp1_view(*rest))),
        Exp1::Empty => Exp1::Empty,
    }
}

pub open spec fn exp_view(e: Exp<String>) -> Exp<Seq<char>>
    decreases e,
{
    match e {
        Exp::Exp(a, rest) => Exp::Exp(Box::new(exp2_view(*a)), Box::new(exp1_view(*rest))),
    }
}

pub open spec fn statement_view(s: Statement<String>) -> Statement<Seq<char>> {
    match s {
        Statement::ExpressionStatement(e) => Statement::ExpressionStatement(Box::new(exp_view(*e))),
        Statement::AssignmentStatement(name, e) => Statement::AssignmentStatement(name@, Box::new(exp_view(*e))),
    }
}

pub open spec fn ast_view(e: ExpAst<String>) -> ExpAst<Seq<char>>
    decreases e,
{
    match e {
        ExpAst::Add(a, b) => ExpAst::Add(Box::new(ast_view(*a)), Box::new(ast_view(*b))),
        ExpAst::Sub(a, b) => ExpAst::Sub(Box::new(ast_view(*a)), Box::new(ast_view(*b))),
        ExpAst::Mul(a, b) => ExpAst::Mul(Box::new(ast_view(*a)), Box::new(ast_view(*b))),
        ExpAst::Div(a, b) => ExpAst::Div(Box::new(ast_view(*a)), Box::new(ast_view(*b))),
        ExpAst::App(a, b) => ExpAst::App(Box::new(ast_view(*a)), Box::new(ast_view(*b))),
        ExpAst::Var(name) => ExpAst::Var(name@),
        ExpAst::Num(n) => ExpAst::Num(n),
        ExpAst::Fun(name, body) => ExpAst::Fun(name@, Box::new(ast_view(*body))),
        ExpAst::If(c, a, b) => ExpAst::If(Box::new(ast_view(*c)), Box::new(ast_view(*a)), Box::new(ast_view(*b))),
    }
}

pub open spec fn statement_ast_view(s: StatementAst<String>) -> StatementAst<Seq<char>> {
    match s {
        StatementAst::Exp(e) => StatementAst::Exp(Box::new(ast_view(*e))),
        StatementAst::Assign(name, e) => StatementAst::Assign(name@, Box::new(ast_view(*e))),
    }
}

impl View for Term<String> {
    type V = Term<Seq<char>>;

    open spec fn view(&self) -> Term<Seq<char>> {
        term_view(*self)
    }
}

impl DeepView for Term<String> {
    type V = Term<Seq<char>>;

    open spec fn deep_view(&self) -> Term<Seq<char>> {
        term_view(*self)
    }
}

impl View for Exp5<String> {
    type V = Exp5<Seq<char>>;

    open spec fn view(&self) -> Exp5<Seq<char>> {
        exp5_view(*self)
    }
}

impl DeepView for Exp5<String> {
    type V = Exp5<Seq<char>>;

    open spec fn deep_view(&self) -> Exp5<Seq<char>> {
        exp5_view(*self)
    }
}

impl View for Exp4<String> {
    type V = Exp4<Seq<char>>;

    open spec fn view(&self) -> Exp4<Seq<char>> {
        exp4_view(*self)
    }
}

impl DeepView for Exp4<String> {
    type V = Exp4<Seq<char>>;

    open spec fn deep_view(&self) -> Exp4<Seq<char>> {
        exp4_view(*self)
    }
}

impl View for Exp3<String> {
    type V = Exp3<Seq<char>>;

    open spec fn view(&self) -> Exp3<Seq<char>> {
        exp3_view(*self)
    }
}

impl DeepView for Exp3<String> {
    type V = Exp3<Seq<char>>;

    open spec fn deep_view(&self) -> Exp3<Seq<char>> {
        exp3_view(*self)
    }
}

impl View for Exp2<String> {
    type V = Exp2<Seq<char>>;

    open spec fn view(&self) -> Exp2<Seq<char>> {
        exp2_view(*self)
    }
}

impl DeepView for Exp2<String> {
    type V = Exp2<Seq<char>>;

    open spec fn deep_view(&self) -> Exp2<Seq<char>> {
        exp2_view(*self)
    }
}

impl View for Exp1<String> {
    type V = Exp1<Seq<char>>;

    open spec fn view(&self) -> Exp1<Seq<char>> {
        exp1_view(*self)
    }
}

impl DeepView for Exp1<String> {
    type V = Exp1<Seq<char>>;

    open spec fn deep_view(&self) -> Exp1<Seq<char>> {
        exp1_view(*self)
    }
}

impl View for Exp<String> {
    type V = Exp<Seq<char>>;

    open spec fn view(&self) -> Exp<Seq<char>> {
        exp_view(*self)
    }
}

impl DeepView for Exp<String> {
    type V = Exp<Seq<char>>;

    open spec fn deep_view(&self) -> Exp<Seq<char>> {
        exp_view(*self)
    }
}

impl View for Statement<String> {
    type V = Statement<Seq<char>>;

    open spec fn view(&self) -> Statement<Seq<char>> {
        statement_view(*self)
    }
}

impl DeepView for Statement<String> {
    type V = Statement<Seq<char>>;

    open spec fn deep_view(&self) -> Statement<Seq<char>> {
        statement_view(*self)
    }
}

impl View for ExpAst<String> {
    type V = ExpAst<Seq<char>>;

    open spec fn view(&self) -> ExpAst<Seq<char>> {
        ast_view(*self)
    }
}

impl View for StatementAst<String> {
    type V = StatementAst<Seq<char>>;

    open spec fn view(&self) -> StatementAst<Seq<char>> {
        statement_ast_view(*self)
    }
}

// Flattening: each chain of (operator, operand) pairs folds to the left, the
// tree built so far becoming the left operand of the next operation.

pub open spec fn flatten_term(t: Term<Seq<char>>) -> ExpAst<Seq<char>>
    decreases t,
{
    match t {
        Term::Num(n) => ExpAst::Num(n),
        Term::Var(name) => ExpAst::Var(name),
        Term::Function(name, body) => ExpAst::Fun(name, Box::new(flatten_exp(*body))),
        Term::Paren(e) => flatten_exp(*e),
        Term::If(c, a, b) => ExpAst::If(Box::new(flatten_exp(*c)), Box::new(flatten_exp(*a)), Box::new(flatten_exp(*b))),
    }
}

pub open spec fn flatten_exp5(e: Exp5<Seq<char>>, acc: ExpAst<Seq<char>>) -> ExpAst<Seq<char>>
    decreases e,
{
    match e {
        Exp5::App(t, rest) => flatten_exp5(*rest, ExpAst::App(Box::new(acc), Box::new(flatten_term(*t)))),
        Exp5::Empty => acc,
    }
}

pub open spec fn flatten_exp4(e: Exp4<Seq<char>>) -> ExpAst<Seq<char>>
    decreases e,
{
    match e {
        Exp4::Exp4(t, rest) => flatten_exp5(*rest, flatten_term(*t)),
    }
}

pub open spec fn flatten_exp3(e: Exp3<Seq<char>>, acc: ExpAst<Seq<char>>) -> ExpAst<Seq<char>>
    decreases e,
{
    match e {
        Exp3::Mul(a, rest) => flatten_exp3(*rest, ExpAst::Mul(Box::new(acc), Box::new(flatten_exp4(*a)))),
        Exp3::Div(a, rest) => flatten_exp3(*rest, ExpAst::Div(Box::new(acc), Box::new(flatten_exp4(*a)))),
        Exp3::Empty => acc,
    }
}

pub open spec fn flatten_exp2(e: Exp2<Seq<char>>) -> ExpAst<Seq<char>>
    decreases e,
{
    match e {
        Exp2::Exp2(a, rest) => flatten_exp3(*rest, flatten_exp4(*a)),
    }
}

pub open spec fn flatten_exp1(e: Exp1<Seq<char>>, acc: ExpAst<Seq<char>>) -> ExpAst<Seq<char>>
    decreases e,
{
    match e {
        Exp1::Add(a, rest) => flatten_exp1(*rest, ExpAst::Add(Box::new(acc), Box::new(flatten_exp2(*a)))),
        Exp1::Sub(a, rest) => flatten_exp1(*rest, ExpAst::Sub(Box::new(acc), Box::new(flatten_exp2(*a)))),
        Exp1::Empty => acc,
    }
}

pub open spec fn flatten_exp(e: Exp<Seq<char>>) -> ExpAst<Seq<char>>
    decreases e,
{
    match e {
        Exp::Exp(a, rest) => flatten_exp1(*rest, flatten_exp2(*a)),
    }
}

pub open spec fn flatten_statement(s: Statement<Seq<char>>) -> StatementAst<Seq<char>> {
    match s {
        Statement::ExpressionStatement(e) => StatementAst::Exp(Box::new(flatten_exp(*e))),
        Statement::AssignmentStatement(name, e) => StatementAst::Assign(name, Box::new(flatten_exp(*e))),
    }
}

impl Clone for ExpAst<String> {
    fn clone(&self) -> (r: Self)
        ensures
            r == *self,
        decreases self,
    {
        match self {
            ExpAst::Add(a, b) => ExpAst::Add(Box::new((**a).clone()), Box::new((**b).clone())),
            ExpAst::Sub(a, b) => ExpAst::Sub(Box::new((**a).clone()), Box::new((**b).clone())),
            ExpAst::Mul(a, b) => ExpAst::Mul(Box::new((**a).clone()), Box::new((**b).clone())),
            ExpAst::Div(a, b) => ExpAst::Div(Box::new((**a).clone()), Box::new((**b).clone())),
            ExpAst::App(a, b) => ExpAst::App(Box::new((**a).clone()), Box::new((**b).clone())),
            ExpAst::Var(name) => ExpAst::Var(name.clone()),
            ExpAst::Num(n) => ExpAst::Num(*n),
            ExpAst::Fun(name, body) => ExpAst::Fun(name.clone(), Box::new((**body).clone())),
            ExpAst::If(c, a, b) => ExpAst::If(
                Box::new((**c).clone()),
                Box::new((**a).clone()),
                Box::new((**b).clone()),
            ),
        }
    }
}

impl Clone for StatementAst<String> {
    fn clone(&self) -> (r: Self)
        ensures
            r == *self,
    {
        match self {
            StatementAst::Exp(e) => StatementAst::Exp(Box::new((**e).clone())),
            StatementAst::Assign(name, e) => StatementAst::Assign(name.clone(), Box::new((**e).clone())),
        }
    }
}

pub fn term_to_ast(term: Term<String>) -> (r: ExpAst<String>)
    ensures
        r@ == flatten_term(term@),
    decreases term,
{
    match term {
        Term::Num(num) => ExpAst::Num(num),
        Term::Paren(exp) => exp_to_ast(*exp),
        Term::Var(name) => ExpAst::Var(name),
        Term::Function(var, exp) => ExpAst::Fun(var, Box::new(exp_to_ast(*exp))),
        Term::If(cond, then_exp, else_exp) => {
            let cond_ast = exp_to_ast(*cond);
            let then_exp_ast = exp_to_ast(*then_exp);
            let else_exp_ast = exp_to_ast(*else_exp);
            ExpAst::If(Box::new(cond_ast), Box::new(then_exp_ast), Box::new(else_exp_ast))
        },
    }
}

pub fn exp5_to_ast(exp5: Exp5<String>, ast: ExpAst<String>) -> (r: ExpAst<String>)
    ensures
        r@ == flatten_exp5(exp5@, ast@),
    decreases exp5,
{
    match exp5 {
        Exp5::App(term, exp5) => {
            let term_ast = term_to_ast(*term);
            let ast = ExpAst::App(Box::new(ast), Box::new(term_ast));
            exp5_to_ast(*exp5, ast)
        },
        Exp5::Empty => ast,
    }
}

pub fn exp4_to_ast(exp4: Exp4<String>) -> (r: ExpAst<String>)
    ensures
        r@ == flatten_exp4(exp4@),
    decreases exp4,
{
    let Exp4::Exp4(term, exp5) = exp4;
    let term_ast = term_to_ast(*term);
    exp5_to_ast(*exp5, term_ast)
}

pub fn exp3_to_ast(exp3: Exp3<String>, ast: ExpAst<String>) -> (r: ExpAst<String>)
    ensures
        r@ == flatten_exp3(exp3@, ast@),
    decreases exp3,
{
    match exp3 {
        Exp3::Mul(exp4, exp3) => {
            let term_ast = exp4_to_ast(*exp4);
            let ast = ExpAst::Mul(Box::new(ast), Box::new(term_ast));
            exp3_to_ast(*exp3, ast)
        },
        Exp3::Div(exp4, exp3) => {
            let term_ast = exp4_to_ast(*exp4);
            let ast = ExpAst::Div(Box::new(ast), Box::new(term_ast));
            exp3_to_ast(*exp3, ast)
        },
        Exp3::Empty => ast,
    }
}

pub fn exp2_to_ast(exp2: Exp2<String>) -> (r: ExpAst<String>)
    ensures
        r@ == flatten_exp2(exp2@),
    decreases exp2,
{
    let Exp2::Exp2(exp4, exp3) = exp2;
    let term_ast = exp4_to_ast(*exp4);
    exp3_to_ast(*exp3, term_ast)
}

pub fn exp1_to_ast(exp1: Exp1<String>, ast: ExpAst<String>) -> (r: ExpAst<String>)
    ensures
        r@ == flatten_exp1(exp1@, ast@),
    decreases exp1,
{
    match exp1 {
        Exp1::Add(exp2, exp1) => {
            let exp2_ast = exp2_to_ast(*exp2);
            let ast = ExpAst::Add(Box::new(ast), Box::new(exp2_ast));
            exp1_to_ast(*exp1, ast)
        },
        Exp1::Sub(exp2, exp1) => {
            let exp2_ast = exp2_to_ast(*exp2);
            let ast = ExpAst::Sub(Box::new(ast), Box::new(exp2_ast));
            exp1_to_ast(*exp1, ast)
        },
        Exp1::Empty => ast,
    }
}

pub fn exp_to_ast(exp: Exp<String>) -> (r: ExpAst<String>)
    ensures
        r@ == flatten_exp(exp@),
    decreases exp,
{
    let Exp::Exp(exp2, exp1) = exp;
    let exp2_ast = exp2_to_ast(*exp2);
    exp1_to_ast(*exp1, exp2_ast)
}

pub fn statement_to_ast(statement: Statement<String>) -> (r: StatementAst<String>)
    ensures
        r@ == flatten_statement(statement@),
{
    match statement {
        Statement::ExpressionStatement(exp) => StatementAst::Exp(Box::new(exp_to_ast(*exp))),
        Statement::AssignmentStatement(name, exp) => StatementAst::Assign(name, Box::new(exp_to_ast(*exp))),
    }
}

} // verus!
