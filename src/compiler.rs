//! The bytecode compiler: arithmetic and conditionals, in post order.
//!
//! Variables, functions and applications are not compiled: they are an error
//! at compile time. A conditional tests its condition against zero and jumps
//! over each branch by the length of the code emitted for it.
use vstd::prelude::*;
use crate::parser::syntax::{ExpAst, StatementAst};
use crate::vm::Operator;

verus! {

#[derive(Debug, Clone, Copy, PartialEq, Eq, Structural)]
pub enum CompileError {
    /// A variable, a function or an application.
    Unsupported,
    /// A branch too long for a jump to cross.
    TooLarge,
}

/// The code for `a`, then `b`, then `op`.
pub open spec fn compile_binary(
    a: Result<Seq<Operator>, CompileError>,
    b: Result<Seq<Operator>, CompileError>,
    op: Operator,
) -> Result<Seq<Operator>, CompileError> {
    match a {
        Err(e) => Err(e),
        Ok(ca) => match b {
            Err(e) => Err(e),
            Ok(cb) => Ok(ca + cb + seq![op]),
        },
    }
}

/// The code for a conditional, given the code of its three parts.
pub open spec fn conditional_code(cc: Seq<Operator>, tc: Seq<Operator>, fc: Seq<Operator>) -> Seq<Operator> {
    cc + seq![Operator::PushInt32(0), Operator::Equal, Operator::JumpIf((tc.len() + 2) as isize)] + tc + seq![
        Operator::Jump((fc.len() + 1) as isize),
    ] + fc
}

/// The code for `e`, or why there is none.
pub open spec fn compile_spec(e: ExpAst<Seq<char>>) -> Result<Seq<Operator>, CompileError>
    decreases e,
{
    match e {
        ExpAst::Num(n) => Ok(seq![Operator::PushInt32(n)]),
        ExpAst::Add(a, b) => compile_binary(compile_spec(*a), compile_spec(*b), Operator::Add),
        ExpAst::Sub(a, b) => compile_binary(compile_spec(*a), compile_spec(*b), Operator::Sub),
        ExpAst::Mul(a, b) => compile_binary(compile_spec(*a), compile_spec(*b), Operator::Mul),
        ExpAst::Div(a, b) => compile_binary(compile_spec(*a), compile_spec(*b), Operator::Div),
        ExpAst::If(c, t, f) => match compile_spec(*c) {
            Err(e) => Err(e),
            Ok(cc) => match compile_spec(*t) {
                Err(e) => Err(e),
                Ok(tc) => match compile_spec(*f) {
                    Err(e) => Err(e),
                    Ok(fc) => if tc.len() + 2 <= isize::MAX && fc.len() + 1 <= isize::MAX {
                        Ok(conditional_code(cc, tc, fc))
                    } else {
                        Err(CompileError::TooLarge)
                    },
                },
            },
        },
        _ => Err(CompileError::Unsupported),
    }
}

proof fn lemma_binary_code(
    a: Result<Seq<Operator>, CompileError>,
    b: Result<Seq<Operator>, CompileError>,
    op: Operator,
    before: Seq<Operator>,
    after: Seq<Operator>,
)
    requires
        a is Ok && b is Ok,
        after == (before + a->Ok_0 + b->Ok_0).push(op),
    ensures
        after == before + compile_binary(a, b, op)->Ok_0,
{
    assert(after =~= before + compile_binary(a, b, op)->Ok_0);
}

fn emit(ast: &ExpAst<String>, code: &mut Vec<Operator>) -> (r: Result<(), CompileError>)
    ensures
        match compile_spec(ast@) {
            Ok(c) => r is Ok && final(code)@ == old(code)@ + c,
            Err(e) => r == Err::<(), CompileError>(e),
        },
    decreases ast,
{
    match ast {
        ExpAst::Num(num) => {
            code.push(Operator::PushInt32(*num));
            Ok(())
        },
        ExpAst::Add(a, b) => {
            emit(a, code)?;
            emit(b, code)?;
            code.push(Operator::Add);
            proof {
                lemma_binary_code(compile_spec(a@), compile_spec(b@), Operator::Add, old(code)@, code@);
            }
            Ok(())
        },
        ExpAst::Sub(a, b) => {
            emit(a, code)?;
            emit(b, code)?;
            code.push(Operator::Sub);
            proof {
                lemma_binary_code(compile_spec(a@), compile_spec(b@), Operator::Sub, old(code)@, code@);
            }
            Ok(())
        },
        ExpAst::Mul(a, b) => {
            emit(a, code)?;
            emit(b, code)?;
            code.push(Operator::Mul);
            proof {
                lemma_binary_code(compile_spec(a@), compile_spec(b@), Operator::Mul, old(code)@, code@);
            }
            Ok(())
        },
        ExpAst::Div(a, b) => {
            emit(a, code)?;
            emit(b, code)?;
            code.push(Operator::Div);
            proof {
                lemma_binary_code(compile_spec(a@), compile_spec(b@), Operator::Div, old(code)@, code@);
            }
            Ok(())
        },
        ExpAst::If(cond_exp, then_exp, else_exp) => {
            emit(cond_exp, code)?;
            let mut then_code: Vec<Operator> = Vec::new();
            emit(then_exp, &mut then_code)?;
            let mut else_code: Vec<Operator> = Vec::new();
            emit(else_exp, &mut else_code)?;
            proof {
                assert(then_code@ =~= Seq::empty() + then_code@);
                assert(else_code@ =~= Seq::empty() + else_code@);
            }
            if then_code.len() > (isize::MAX - 2) as usize || else_code.len() > (isize::MAX - 1) as usize {
                return Err(CompileError::TooLarge);
            }
            let ghost cc = code@;
            let ghost tc = then_code@;
            let ghost fc = else_code@;
            code.push(Operator::PushInt32(0));
            code.push(Operator::Equal);
            code.push(Operator::JumpIf(then_code.len() as isize + 2));
            code.append(&mut then_code);
            code.push(Operator::Jump(else_code.len() as isize + 1));
            code.append(&mut else_code);
            proof {
                let c = compile_spec(cond_exp@)->Ok_0;
                assert(cc == old(code)@ + c);
                assert(code@ =~= old(code)@ + conditional_code(c, tc, fc));
            }
            Ok(())
        },
        _ => Err(CompileError::Unsupported),
    }
}

/// Appends the code for `ast` to `code`; on an error `code` is left as it was.
pub fn compile(ast: &ExpAst<String>, code: &mut Vec<Operator>) -> (r: Result<(), CompileError>)
    ensures
        match compile_spec(ast@) {
            Ok(c) => r is Ok && final(code)@ == old(code)@ + c,
            Err(e) => r == Err::<(), CompileError>(e) && final(code)@ == old(code)@,
        },
{
    let mut buffer: Vec<Operator> = Vec::new();
    emit(ast, &mut buffer)?;
    proof {
        assert(buffer@ =~= Seq::empty() + buffer@);
    }
    code.append(&mut buffer);
    Ok(())
}

/// Appends the code for an expression statement; an assignment is not
/// compiled, and leaves `code` as it was.
pub fn compile_statement(ast: &StatementAst<String>, code: &mut Vec<Operator>) -> (r: Result<(), CompileError>)
    ensures
        match ast@ {
            StatementAst::Exp(e) => match compile_spec(*e) {
                Ok(c) => r is Ok && final(code)@ == old(code)@ + c,
                Err(e) => r == Err::<(), CompileError>(e) && final(code)@ == old(code)@,
            },
            StatementAst::Assign(_, _) => r == Err::<(), CompileError>(CompileError::Unsupported) && final(code)@ == old(code)@,
        },
{
    match ast {
        StatementAst::Exp(exp_ast) => compile(exp_ast, code),
        StatementAst::Assign(_, _) => Err(CompileError::Unsupported),
    }
}

} // verus!
