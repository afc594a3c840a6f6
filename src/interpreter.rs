//! The tree-walking evaluator.
//!
//! A session holds the global environment, which only top-level assignments
//! change. A function value is its parameter and its body, with no captured
//! environment: within the body, the parameter is looked up first and every
//! other name in the global environment as it stands when the function is
//! called. This is what lets a function assigned to a name call itself.
//!
//! Each call takes one level of a fixed call depth; a deeper recursion is an
//! error rather than an exhausted machine stack.
use vstd::prelude::*;
use crate::arith::{BinOp, ArithError, spec_apply, apply};
use crate::parser::syntax::{ExpAst, StatementAst, ast_view};

verus! {

/// How deep function calls may nest within one statement.
pub const MAX_CALL_DEPTH: usize = 200;

/// A runtime value: a number, or a function with its parameter and body.
#[derive(Debug)]
pub enum Data<N> {
    Num(i32),
    Fun(N, ExpAst<N>),
}

#[derive(Debug, Clone, Copy, PartialEq, Eq, Structural)]
pub enum EvalError {
    UnknownIdentifier,
    NotCallable,
    TypeMismatch,
    DivisionByZero,
    Overflow,
    CallDepthExceeded,
}

pub open spec fn data_view(d: Data<String>) -> Data<Seq<char>> {
    match d {
        Data::Num(n) => Data::Num(n),
        Data::Fun(param, body) => Data::Fun(param@, ast_view(body)),
    }
}

impl View for Data<String> {
    type V = Data<Seq<char>>;

    open spec fn view(&self) -> Data<Seq<char>> {
        data_view(*self)
    }
}

impl Clone for Data<String> {
    fn clone(&self) -> (r: Self)
        ensures
            r == *self,
    {
        match self {
            Data::Num(n) => Data::Num(*n),
            Data::Fun(param, body) => Data::Fun(param.clone(), body.clone()),
        }
    }
}

pub open spec fn result_view(r: Result<Data<String>, EvalError>) -> Result<Data<Seq<char>>, EvalError> {
    match r {
        Ok(d) => Ok(d@),
        Err(e) => Err(e),
    }
}

/// The local binding of a function call, if any.
pub open spec fn local_view(bind: Option<(String, Data<String>)>) -> Option<(Seq<char>, Data<Seq<char>>)> {
    match bind {
        Some((name, v)) => Some((name@, v@)),
        None => None,
    }
}

pub open spec fn arith_error(e: ArithError) -> EvalError {
    match e {
        ArithError::DivisionByZero => EvalError::DivisionByZero,
        ArithError::Overflow => EvalError::Overflow,
    }
}

/// A name: the local binding first, then the global environment.
pub open spec fn lookup(
    name: Seq<char>,
    local: Option<(Seq<char>, Data<Seq<char>>)>,
    env: Map<Seq<char>, Data<Seq<char>>>,
) -> Result<Data<Seq<char>>, EvalError> {
    match local {
        Some((x, v)) if x == name => Ok(v),
        _ => if env.contains_key(name) {
            Ok(env[name])
        } else {
            Err(EvalError::UnknownIdentifier)
        },
    }
}

/// An arithmetic operation on the results of its two operands, the left one's
/// failure first.
pub open spec fn binary(
    op: BinOp,
    a: Result<Data<Seq<char>>, EvalError>,
    b: Result<Data<Seq<char>>, EvalError>,
) -> Result<Data<Seq<char>>, EvalError> {
    match a {
        Err(e) => Err(e),
        Ok(x) => match b {
            Err(e) => Err(e),
            Ok(y) => match (x, y) {
                (Data::Num(m), Data::Num(n)) => match spec_apply(op, m, n) {
                    Ok(v) => Ok(Data::Num(v)),
                    Err(e) => Err(arith_error(e)),
                },
                _ => Err(EvalError::TypeMismatch),
            },
        },
    }
}

/// The value of `e` with the local binding `local`, in the global environment
/// `env`, with `depth` more calls allowed.
pub open spec fn eval(
    e: ExpAst<Seq<char>>,
    local: Option<(Seq<char>, Data<Seq<char>>)>,
    env: Map<Seq<char>, Data<Seq<char>>>,
    depth: nat,
) -> Result<Data<Seq<char>>, EvalError>
    decreases depth, e,
{
    match e {
        ExpAst::Num(n) => Ok(Data::Num(n)),
        ExpAst::Var(name) => lookup(name, local, env),
        ExpAst::Fun(param, body) => Ok(Data::Fun(param, *body)),
        ExpAst::Add(a, b) => binary(BinOp::Add, eval(*a, local, env, depth), eval(*b, local, env, depth)),
        ExpAst::Sub(a, b) => binary(BinOp::Sub, eval(*a, local, env, depth), eval(*b, local, env, depth)),
        ExpAst::Mul(a, b) => binary(BinOp::Mul, eval(*a, local, env, depth), eval(*b, local, env, depth)),
        ExpAst::Div(a, b) => binary(BinOp::Div, eval(*a, local, env, depth), eval(*b, local, env, depth)),
        ExpAst::App(f, a) => match eval(*f, local, env, depth) {
            Err(err) => Err(err),
            Ok(Data::Num(_)) => Err(EvalError::NotCallable),
            Ok(Data::Fun(param, body)) => match eval(*a, local, env, depth) {
                Err(err) => Err(err),
                Ok(v) => if depth == 0 {
                    Err(EvalError::CallDepthExceeded)
                } else {
                    eval(body, Some((param, v)), env, (depth - 1) as nat)
                },
            },
        },
        ExpAst::If(c, t, f) => match eval(*c, local, env, depth) {
            Err(err) => Err(err),
            Ok(Data::Fun(_, _)) => Err(EvalError::TypeMismatch),
            Ok(Data::Num(n)) => if n != 0 {
                eval(*t, local, env, depth)
            } else {
                eval(*f, local, env, depth)
            },
        },
    }
}

/// A statement run in the global environment `env`: its value, and the
/// environment after it.
pub open spec fn run_statement(st: StatementAst<Seq<char>>, env: Map<Seq<char>, Data<Seq<char>>>) -> (
    Result<Data<Seq<char>>, EvalError>,
    Map<Seq<char>, Data<Seq<char>>>,
) {
    match st {
        StatementAst::Exp(e) => (eval(*e, None, env, MAX_CALL_DEPTH as nat), env),
        StatementAst::Assign(name, e) => match eval(*e, None, env, MAX_CALL_DEPTH as nat) {
            Ok(v) => (Ok(v), env.insert(name, v)),
            Err(err) => (Err(err), env),
        },
    }
}

/// The value bound to `name` by the last entry for it.
pub open spec fn find_entry(entries: Seq<(String, Data<String>)>, name: Seq<char>) -> Option<Data<Seq<char>>>
    decreases entries.len(),
{
    if entries.len() == 0 {
        None
    } else if entries.last().0@ == name {
        Some(entries.last().1@)
    } else {
        find_entry(entries.drop_last(), name)
    }
}

proof fn lemma_find_entry_update(s: Seq<(String, Data<String>)>, i: int, key: String, v: Data<String>, k: Seq<char>)
    requires
        0 <= i < s.len(),
        key@ == s[i].0@,
        forall|j: int| i < j < s.len() ==> (#[trigger] s[j]).0@ != s[i].0@,
    ensures
        find_entry(s.update(i, (key, v)), k) == if k == s[i].0@ {
            Some(v@)
        } else {
            find_entry(s, k)
        },
    decreases s.len(),
{
    let s2 = s.update(i, (key, v));
    if i < s.len() - 1 {
        assert(s2.drop_last() =~= s.drop_last().update(i, (key, v)));
        lemma_find_entry_update(s.drop_last(), i, key, v, k);
    } else {
        assert(s2.drop_last() =~= s.drop_last());
    }
}

/// An evaluation session: the global environment.
pub struct Interpreter {
    env: Vec<(String, Data<String>)>,
}

impl View for Interpreter {
    type V = Map<Seq<char>, Data<Seq<char>>>;

    closed spec fn view(&self) -> Map<Seq<char>, Data<Seq<char>>> {
        Map::new(|k: Seq<char>| find_entry(self.env@, k) is Some, |k: Seq<char>| find_entry(self.env@, k)->0)
    }
}

impl Interpreter {
    /// A session whose global environment is empty.
    pub fn new() -> (r: Interpreter)
        ensures
            r@ == Map::<Seq<char>, Data<Seq<char>>>::empty(),
    {
        let r = Interpreter { env: Vec::new() };
        proof {
            assert(r@ =~= Map::<Seq<char>, Data<Seq<char>>>::empty());
        }
        r
    }

    /// The index of the last entry for `name`.
    fn position(&self, name: &String) -> (r: Option<usize>)
        ensures
            match r {
                Some(i) => {
                    &&& i < self.env@.len()
                    &&& self.env@[i as int].0@ == name@
                    &&& forall|j: int| i < j < self.env@.len() ==> (#[trigger] self.env@[j]).0@ != name@
                },
                None => find_entry(self.env@, name@) is None,
            },
            r matches Some(i) ==> find_entry(self.env@, name@) == Some(self.env@[i as int].1@),
    {
        let mut i = self.env.len();
        proof {
            assert(self.env@.subrange(0, i as int) =~= self.env@);
        }
        while i > 0
            invariant
                i <= self.env@.len(),
                forall|j: int| i <= j < self.env@.len() ==> (#[trigger] self.env@[j]).0@ != name@,
                find_entry(self.env@, name@) == find_entry(self.env@.subrange(0, i as int), name@),
            decreases i,
        {
            i = i - 1;
            proof {
                assert(self.env@.subrange(0, i + 1).drop_last() =~= self.env@.subrange(0, i as int));
            }
            if self.env[i].0 == *name {
                return Some(i);
            }
        }
        proof {
            assert(self.env@.subrange(0, 0).len() == 0);
        }
        None
    }

    fn lookup_global(&self, name: &String) -> (r: Option<Data<String>>)
        ensures
            match r {
                Some(v) => self@.contains_key(name@) && self@[name@] == v@,
                None => !self@.contains_key(name@),
            },
    {
        match self.position(name) {
            Some(i) => Some(self.env[i].1.clone()),
            None => None,
        }
    }

    fn bind(&mut self, name: String, v: Data<String>)
        ensures
            final(self)@ == old(self)@.insert(name@, v@),
    {
        match self.position(&name) {
            Some(i) => {
                let ghost before = self.env@;
                let ghost key = name;
                let entry = (name, v);
                self.env.set(i, entry);
                proof {
                    assert(self.env@ == before.update(i as int, (key, v)));
                    assert forall|k: Seq<char>| #[trigger] find_entry(self.env@, k) == if k == name@ {
                        Some(v@)
                    } else {
                        find_entry(before, k)
                    } by {
                        lemma_find_entry_update(before, i as int, key, v, k);
                    }
                    assert(self@ =~= old(self)@.insert(key@, v@));
                }
            },
            None => {
                let ghost before = self.env@;
                let ghost key = name@;
                self.env.push((name, v));
                proof {
                    assert forall|k: Seq<char>| #[trigger] find_entry(self.env@, k) == if k == key {
                        Some(v@)
                    } else {
                        find_entry(before, k)
                    } by {
                        assert(self.env@.drop_last() =~= before);
                    }
                    assert(self@ =~= old(self)@.insert(key, v@));
                }
            },
        }
    }

    fn combine(op: BinOp, x: Data<String>, y: Data<String>) -> (r: Result<Data<String>, EvalError>)
        ensures
            result_view(r) == binary(op, Ok(x@), Ok(y@)),
    {
        match (x, y) {
            (Data::Num(m), Data::Num(n)) => match apply(op, m, n) {
                Ok(v) => Ok(Data::Num(v)),
                Err(ArithError::DivisionByZero) => Err(EvalError::DivisionByZero),
                Err(ArithError::Overflow) => Err(EvalError::Overflow),
            },
            _ => Err(EvalError::TypeMismatch),
        }
    }

    fn eval_exp_ast(&self, ast: &ExpAst<String>, bind: &Option<(String, Data<String>)>, depth: usize) -> (r: Result<
        Data<String>,
        EvalError,
    >)
        ensures
            result_view(r) == eval(ast@, local_view(*bind), self@, depth as nat),
        decreases depth, ast,
    {
        match ast {
            ExpAst::Num(n) => Ok(Data::Num(*n)),
            ExpAst::Var(name) => {
                if let Some((x, v)) = bind {
                    if *x == *name {
                        return Ok(v.clone());
                    }
                }
                match self.lookup_global(name) {
                    Some(v) => Ok(v),
                    None => Err(EvalError::UnknownIdentifier),
                }
            },
            ExpAst::Fun(param, body) => Ok(Data::Fun(param.clone(), (**body).clone())),
            ExpAst::Add(a, b) => {
                let x = self.eval_exp_ast(a, bind, depth)?;
                let y = self.eval_exp_ast(b, bind, depth)?;
                Self::combine(BinOp::Add, x, y)
            },
            ExpAst::Sub(a, b) => {
                let x = self.eval_exp_ast(a, bind, depth)?;
                let y = self.eval_exp_ast(b, bind, depth)?;
                Self::combine(BinOp::Sub, x, y)
            },
            ExpAst::Mul(a, b) => {
                let x = self.eval_exp_ast(a, bind, depth)?;
                let y = self.eval_exp_ast(b, bind, depth)?;
                Self::combine(BinOp::Mul, x, y)
            },
            ExpAst::Div(a, b) => {
                let x = self.eval_exp_ast(a, bind, depth)?;
                let y = self.eval_exp_ast(b, bind, depth)?;
                Self::combine(BinOp::Div, x, y)
            },
            ExpAst::App(f, a) => {
                match self.eval_exp_ast(f, bind, depth)? {
                    Data::Num(_) => Err(EvalError::NotCallable),
                    Data::Fun(param, body) => {
                        let v = self.eval_exp_ast(a, bind, depth)?;
                        if depth == 0 {
                            return Err(EvalError::CallDepthExceeded);
                        }
                        let local = Some((param, v));
                        self.eval_exp_ast(&body, &local, depth - 1)
                    },
                }
            },
            ExpAst::If(c, t, f) => {
                match self.eval_exp_ast(c, bind, depth)? {
                    Data::Fun(_, _) => Err(EvalError::TypeMismatch),
                    Data::Num(n) => {
                        if n != 0 {
                            self.eval_exp_ast(t, bind, depth)
                        } else {
                            self.eval_exp_ast(f, bind, depth)
                        }
                    },
                }
            },
        }
    }

    /// Runs one statement: an expression is evaluated; an assignment is
    /// evaluated and, when it succeeds, binds its name globally.
    pub fn eval_statement_ast(&mut self, ast: StatementAst<String>) -> (r: Result<Data<String>, EvalError>)
        ensures
            (result_view(r), final(self)@) == run_statement(ast@, old(self)@),
    {
        let none: Option<(String, Data<String>)> = None;
        match ast {
            StatementAst::Exp(exp_ast) => self.eval_exp_ast(&exp_ast, &none, MAX_CALL_DEPTH),
            StatementAst::Assign(name, exp_ast) => {
                match self.eval_exp_ast(&exp_ast, &none, MAX_CALL_DEPTH) {
                    Ok(val) => {
                        self.bind(name, val.clone());
                        Ok(val)
                    },
                    Err(e) => Err(e),
                }
            },
        }
    }

    /// Runs one statement; `None` when it fails.
    pub fn eval(&mut self, ast: StatementAst<String>) -> (r: Option<Data<String>>)
        ensures
            match run_statement(ast@, old(self)@).0 {
                Ok(v) => r matches Some(d) && d@ == v,
                Err(_) => r is None,
            },
            final(self)@ == run_statement(ast@, old(self)@).1,
    {
        match self.eval_statement_ast(ast) {
            Ok(v) => Some(v),
            Err(_) => None,
        }
    }
}

} // verus!
