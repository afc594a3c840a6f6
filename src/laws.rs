//! Properties that relate several parts of the library.
use vstd::prelude::*;
use crate::arith::spec_apply;
use crate::compiler::{compile_spec, conditional_code};
use crate::interpreter::{Data, EvalError, eval, binary, run_statement};
use crate::parser::combinator::{Parser, spec_choice};
use crate::parser::syntax::{ExpAst, StatementAst};
use crate::vm::{Operator, MachineState, VmError, run, step, initial, binop_of};

verus! {

/// How many machine steps the code of `e` takes when its evaluation succeeds.
pub open spec fn steps(
    e: ExpAst<Seq<char>>,
    local: Option<(Seq<char>, Data<Seq<char>>)>,
    env: Map<Seq<char>, Data<Seq<char>>>,
    depth: nat,
) -> nat
    decreases e,
{
    match e {
        ExpAst::Add(a, b) => steps(*a, local, env, depth) + steps(*b, local, env, depth) + 1,
        ExpAst::Sub(a, b) => steps(*a, local, env, depth) + steps(*b, local, env, depth) + 1,
        ExpAst::Mul(a, b) => steps(*a, local, env, depth) + steps(*b, local, env, depth) + 1,
        ExpAst::Div(a, b) => steps(*a, local, env, depth) + steps(*b, local, env, depth) + 1,
        ExpAst::If(c, t, f) => steps(*c, local, env, depth) + 3 + if eval(*c, local, env, depth) == Ok::<Data<Seq<char>>, EvalError>(
            Data::Num(0),
        ) {
            steps(*f, local, env, depth)
        } else {
            steps(*t, local, env, depth) + 1
        },
        _ => 1,
    }
}

proof fn lemma_run_step(prog: Seq<Operator>, m: MachineState, fuel: nat)
    requires
        0 <= m.pc < prog.len(),
        fuel > 0,
    ensures
        run(prog, m, fuel) == match step(prog, m) {
            Ok(next) => run(prog, next, (fuel - 1) as nat),
            Err(e) => Err(e),
        },
{
}

proof fn lemma_run_empty_fuel(prog: Seq<Operator>, m: MachineState)
    requires
        0 <= m.pc < prog.len(),
    ensures
        run(prog, m, 0) == Err::<MachineState, VmError>(VmError::StepLimitExceeded),
{
}

proof fn lemma_placed(prog: Seq<Operator>, k: int, code: Seq<Operator>, off: int, part: Seq<Operator>)
    requires
        0 <= k,
        k + code.len() <= prog.len(),
        prog.subrange(k, k + code.len()) == code,
        0 <= off,
        off + part.len() <= code.len(),
        code.subrange(off, off + part.len()) == part,
    ensures
        prog.subrange(k + off, k + off + part.len()) == part,
        forall|i: int| 0 <= i < part.len() ==> prog[k + off + i] == #[trigger] part[i],
{
    assert forall|i: int| 0 <= i < part.len() implies prog[k + off + i] == #[trigger] part[i] by {
        assert(prog.subrange(k, k + code.len())[off + i] == code[off + i]);
        assert(code.subrange(off, off + part.len())[i] == code[off + i]);
    }
    assert(prog.subrange(k + off, k + off + part.len()) =~= part);
}

/// The code of `e` stands in `prog` from the counter of `m` on.
pub open spec fn placed(e: ExpAst<Seq<char>>, prog: Seq<Operator>, m: MachineState) -> bool {
    &&& compile_spec(e) is Ok
    &&& 0 <= m.pc
    &&& m.pc + compile_spec(e)->Ok_0.len() <= prog.len()
    &&& prog.subrange(m.pc, m.pc + compile_spec(e)->Ok_0.len()) == compile_spec(e)->Ok_0
}

/// Running `prog` from `m` for `fuel` steps runs the code of `e`, which pushes
/// `v` and leaves the counter just past itself in `steps(e)` steps, then goes on.
pub open spec fn runs_through(
    e: ExpAst<Seq<char>>,
    local: Option<(Seq<char>, Data<Seq<char>>)>,
    env: Map<Seq<char>, Data<Seq<char>>>,
    depth: nat,
    v: i32,
    prog: Seq<Operator>,
    m: MachineState,
    fuel: nat,
) -> bool {
    &&& compile_spec(e)->Ok_0.len() > 0
    &&& run(prog, m, fuel) == if fuel >= steps(e, local, env, depth) {
        run(
            prog,
            MachineState { pc: m.pc + compile_spec(e)->Ok_0.len(), stack: m.stack.push(v), output: m.output },
            (fuel - steps(e, local, env, depth)) as nat,
        )
    } else {
        Err(VmError::StepLimitExceeded)
    }
}

/// The code of `e`, placed in `prog` and entered with the machine `m`,
/// pushes the value of `e` and leaves the counter just past itself, in exactly
/// `steps(e)` steps.
proof fn lemma_code_runs(
    e: ExpAst<Seq<char>>,
    local: Option<(Seq<char>, Data<Seq<char>>)>,
    env: Map<Seq<char>, Data<Seq<char>>>,
    depth: nat,
    v: i32,
    prog: Seq<Operator>,
    m: MachineState,
    fuel: nat,
)
    requires
        placed(e, prog, m),
        eval(e, local, env, depth) == Ok::<Data<Seq<char>>, EvalError>(Data::Num(v)),
    ensures
        runs_through(e, local, env, depth, v, prog, m, fuel),
    decreases e, 1nat,
{
    let code = compile_spec(e)->Ok_0;
    let k = m.pc;
    assert(prog[k] == code[0]);
    match e {
        ExpAst::Num(n) => {
            if fuel > 0 {
                lemma_run_step(prog, m, fuel);
                assert(m.stack.push(v) == m.stack.push(n));
            } else {
                lemma_run_empty_fuel(prog, m);
            }
        },
        ExpAst::Add(_, _) | ExpAst::Sub(_, _) | ExpAst::Mul(_, _) | ExpAst::Div(_, _) => {
            lemma_binary_code_runs(e, local, env, depth, v, prog, m, fuel);
        },
        ExpAst::If(_, _, _) => {
            lemma_conditional_code_runs(e, local, env, depth, v, prog, m, fuel);
        },
        _ => {},
    }
}

proof fn lemma_binary_code_runs(
    e: ExpAst<Seq<char>>,
    local: Option<(Seq<char>, Data<Seq<char>>)>,
    env: Map<Seq<char>, Data<Seq<char>>>,
    depth: nat,
    v: i32,
    prog: Seq<Operator>,
    m: MachineState,
    fuel: nat,
)
    requires
        placed(e, prog, m),
        eval(e, local, env, depth) == Ok::<Data<Seq<char>>, EvalError>(Data::Num(v)),
        e is Add || e is Sub || e is Mul || e is Div,
    ensures
        runs_through(e, local, env, depth, v, prog, m, fuel),
    decreases e, 0nat,
{
    let code = compile_spec(e)->Ok_0;
    let k = m.pc;
    assert(prog[k] == code[0]);
    match e {
        ExpAst::Add(a, b) | ExpAst::Sub(a, b) | ExpAst::Mul(a, b) | ExpAst::Div(a, b) => {
            let op = match e {
                ExpAst::Add(_, _) => Operator::Add,
                ExpAst::Sub(_, _) => Operator::Sub,
                ExpAst::Mul(_, _) => Operator::Mul,
                _ => Operator::Div,
            };
            let bop = binop_of(op);
            let ca = compile_spec(*a)->Ok_0;
            let cb = compile_spec(*b)->Ok_0;
            assert(code == ca + cb + seq![op]);
            assert(eval(e, local, env, depth) == binary(bop, eval(*a, local, env, depth), eval(*b, local, env, depth)));
            let x = eval(*a, local, env, depth)->Ok_0->Num_0;
            let y = eval(*b, local, env, depth)->Ok_0->Num_0;
            assert(spec_apply(bop, x, y) == Ok::<i32, crate::arith::ArithError>(v));
            let sa = steps(*a, local, env, depth);
            let sb = steps(*b, local, env, depth);
            let la = ca.len() as int;
            let lb = cb.len() as int;
            assert(code.subrange(0, la) =~= ca);
            assert(code.subrange(la, la + lb) =~= cb);
            assert(code.subrange(la + lb, la + lb + 1) =~= seq![op]);
            lemma_placed(prog, k, code, 0, ca);
            lemma_placed(prog, k, code, la, cb);
            lemma_placed(prog, k, code, la + lb, seq![op]);
            assert(prog[k + ca.len() + cb.len()] == seq![op][0]);
            lemma_code_runs(*a, local, env, depth, x, prog, m, fuel);
            let m1 = MachineState { pc: k + ca.len(), stack: m.stack.push(x), output: m.output };
            if fuel >= sa {
                lemma_code_runs(*b, local, env, depth, y, prog, m1, (fuel - sa) as nat);
                let m2 = MachineState { pc: m1.pc + cb.len(), stack: m1.stack.push(y), output: m.output };
                let f2 = (fuel - sa - sb) as nat;
                if fuel >= sa + sb {
                    assert(prog[m2.pc] == op);
                    if f2 > 0 {
                        lemma_run_step(prog, m2, f2);
                        assert(m2.stack.subrange(0, m2.stack.len() - 2).push(v) =~= m.stack.push(v));
                    } else {
                        lemma_run_empty_fuel(prog, m2);
                    }
                }
            }
        },
        _ => {},
    }
}

proof fn lemma_conditional_code_runs(
    e: ExpAst<Seq<char>>,
    local: Option<(Seq<char>, Data<Seq<char>>)>,
    env: Map<Seq<char>, Data<Seq<char>>>,
    depth: nat,
    v: i32,
    prog: Seq<Operator>,
    m: MachineState,
    fuel: nat,
)
    requires
        placed(e, prog, m),
        eval(e, local, env, depth) == Ok::<Data<Seq<char>>, EvalError>(Data::Num(v)),
        e is If,
    ensures
        runs_through(e, local, env, depth, v, prog, m, fuel),
    decreases e, 0nat,
{
    let code = compile_spec(e)->Ok_0;
    let k = m.pc;
    assert(prog[k] == code[0]);
    match e {
        ExpAst::If(c, t, f) => {
            let cc = compile_spec(*c)->Ok_0;
            let tc = compile_spec(*t)->Ok_0;
            let fc = compile_spec(*f)->Ok_0;
            assert(code == conditional_code(cc, tc, fc));
            let n = eval(*c, local, env, depth)->Ok_0->Num_0;
            let sc = steps(*c, local, env, depth);
            let mid = seq![Operator::PushInt32(0), Operator::Equal, Operator::JumpIf((tc.len() + 2) as isize)];
            let jump = seq![Operator::Jump((fc.len() + 1) as isize)];
            let lc = cc.len() as int;
            let lt = tc.len() as int;
            let lf = fc.len() as int;
            let ot = lc + 3;
            let of = ot + lt + 1;
            assert(code.subrange(0, lc) =~= cc);
            assert(code.subrange(lc, lc + 3) =~= mid);
            assert(code.subrange(ot, ot + lt) =~= tc);
            assert(code.subrange(ot + lt, ot + lt + 1) =~= jump);
            assert(code.subrange(of, of + lf) =~= fc);
            lemma_placed(prog, k, code, 0, cc);
            lemma_placed(prog, k, code, lc, mid);
            lemma_placed(prog, k, code, ot, tc);
            lemma_placed(prog, k, code, ot + lt, jump);
            lemma_placed(prog, k, code, of, fc);
            assert(prog[k + cc.len() + 0] == mid[0]);
            assert(prog[k + cc.len() + 1] == mid[1]);
            assert(prog[k + cc.len() + 2] == mid[2]);
            assert(prog[k + ot + tc.len() + 0] == jump[0]);
            lemma_code_runs(*c, local, env, depth, n, prog, m, fuel);
            if fuel >= sc {
                let j = k + cc.len();
                let m1 = MachineState { pc: j, stack: m.stack.push(n), output: m.output };
                assert(prog[j] == Operator::PushInt32(0));
                assert(prog[j + 1] == Operator::Equal);
                assert(prog[j + 2] == Operator::JumpIf((tc.len() + 2) as isize));
                let flag: i32 = if n == 0 { 1 } else { 0 };
                let m2 = MachineState { pc: j + 1, stack: m1.stack.push(0), output: m.output };
                let m3 = MachineState { pc: j + 2, stack: m.stack.push(flag), output: m.output };
                let f1 = (fuel - sc) as nat;
                if f1 == 0 {
                    lemma_run_empty_fuel(prog, m1);
                } else {
                    lemma_run_step(prog, m1, f1);
                    if f1 == 1 {
                        lemma_run_empty_fuel(prog, m2);
                    } else {
                        lemma_run_step(prog, m2, (f1 - 1) as nat);
                        assert(m2.stack.subrange(0, m2.stack.len() - 2).push(flag) =~= m.stack.push(flag));
                        if f1 == 2 {
                            lemma_run_empty_fuel(prog, m3);
                        } else {
                            lemma_run_step(prog, m3, (f1 - 2) as nat);
                            assert(m.stack.push(flag).drop_last() =~= m.stack);
                            let f4 = (f1 - 3) as nat;
                            if n == 0 {
                                let kf = j + 3 + tc.len() + 1;
                                let m4 = MachineState { pc: kf, stack: m.stack, output: m.output };
                                lemma_code_runs(*f, local, env, depth, v, prog, m4, f4);
                            } else {
                                let kt = j + 3;
                                let m4 = MachineState { pc: kt, stack: m.stack, output: m.output };
                                lemma_code_runs(*t, local, env, depth, v, prog, m4, f4);
                                let st = steps(*t, local, env, depth);
                                if f4 >= st {
                                    let q = kt + tc.len();
                                    let m5 = MachineState { pc: q, stack: m.stack.push(v), output: m.output };
                                    assert(prog[q] == Operator::Jump((fc.len() + 1) as isize));
                                    if f4 > st {
                                        lemma_run_step(prog, m5, (f4 - st) as nat);
                                    } else {
                                        lemma_run_empty_fuel(prog, m5);
                                    }
                                }
                            }
                        }
                    }
                }
            }
        },
        _ => {},
    }
}

/// Compiling an expression and running its code on the machine leaves exactly
/// the number that the evaluator gives on the stack, once the machine is
/// allowed `steps(e)` steps or more.
pub proof fn lemma_compiler_agrees_with_evaluator(
    e: ExpAst<Seq<char>>,
    local: Option<(Seq<char>, Data<Seq<char>>)>,
    env: Map<Seq<char>, Data<Seq<char>>>,
    depth: nat,
    v: i32,
    fuel: nat,
)
    requires
        compile_spec(e) is Ok,
        eval(e, local, env, depth) == Ok::<Data<Seq<char>>, EvalError>(Data::Num(v)),
        fuel >= steps(e, local, env, depth),
    ensures
        run(compile_spec(e)->Ok_0, initial(), fuel) == Ok::<MachineState, VmError>(
            MachineState { pc: compile_spec(e)->Ok_0.len() as int, stack: seq![v], output: Seq::empty() },
        ),
{
    let code = compile_spec(e)->Ok_0;
    assert(code.subrange(0, code.len() as int) =~= code);
    lemma_code_runs(e, local, env, depth, v, code, initial(), fuel);
    assert(Seq::<i32>::empty().push(v) =~= seq![v]);
}

/// After an assignment `name = e` succeeds, evaluating the bare `name` gives
/// the assigned value and leaves the environment as it is, so evaluating it
/// again gives the same value again.
pub proof fn lemma_retrieval_is_idempotent(env: Map<Seq<char>, Data<Seq<char>>>, name: Seq<char>, e: ExpAst<Seq<char>>)
    requires
        run_statement(StatementAst::Assign(name, Box::new(e)), env).0 is Ok,
    ensures
        ({
            let (assigned, env1) = run_statement(StatementAst::Assign(name, Box::new(e)), env);
            let look = StatementAst::Exp(Box::new(ExpAst::Var(name)));
            &&& run_statement(look, env1) == (assigned, env1)
            &&& run_statement(look, run_statement(look, env1).1) == (assigned, env1)
        }),
{
}

/// Ordered choice backtracks: an alternative that fails leaves nothing
/// consumed, and the next one is tried from the very position where the failed
/// one started; the first alternative that succeeds gives the result.
pub proof fn lemma_choice_backtracks<P: Parser>(ps: Seq<P>, i: int, s: Seq<char>, pos: int)
    requires
        0 <= i < ps.len(),
    ensures
        ps[i].spec_parse(s, pos) is None ==> spec_choice(ps, i, s, pos) == spec_choice(ps, i + 1, s, pos),
        ps[i].spec_parse(s, pos) is Some ==> spec_choice(ps, i, s, pos) == ps[i].spec_parse(s, pos),
{
}

/// Code that compiles evaluates, when it evaluates at all, to a number.
proof fn lemma_compiled_value_is_num(
    e: ExpAst<Seq<char>>,
    local: Option<(Seq<char>, Data<Seq<char>>)>,
    env: Map<Seq<char>, Data<Seq<char>>>,
    depth: nat,
)
    requires
        compile_spec(e) is Ok,
        eval(e, local, env, depth) is Ok,
    ensures
        eval(e, local, env, depth)->Ok_0 is Num,
    decreases e,
{
    match e {
        ExpAst::If(c, t, f) => {
            lemma_compiled_value_is_num(*c, local, env, depth);
            if eval(*c, local, env, depth)->Ok_0->Num_0 != 0 {
                lemma_compiled_value_is_num(*t, local, env, depth);
            } else {
                lemma_compiled_value_is_num(*f, local, env, depth);
            }
        },
        _ => {},
    }
}

/// The code of `e`, placed in `prog` and entered with the machine `m`, ends
/// the run with an error whenever the evaluation of `e` fails.
proof fn lemma_code_fails(
    e: ExpAst<Seq<char>>,
    local: Option<(Seq<char>, Data<Seq<char>>)>,
    env: Map<Seq<char>, Data<Seq<char>>>,
    depth: nat,
    prog: Seq<Operator>,
    m: MachineState,
    fuel: nat,
)
    requires
        placed(e, prog, m),
        eval(e, local, env, depth) is Err,
    ensures
        run(prog, m, fuel) is Err,
    decreases e, 1nat,
{
    match e {
        ExpAst::Add(_, _) | ExpAst::Sub(_, _) | ExpAst::Mul(_, _) | ExpAst::Div(_, _) => {
            lemma_binary_code_fails(e, local, env, depth, prog, m, fuel);
        },
        ExpAst::If(_, _, _) => {
            lemma_conditional_code_fails(e, local, env, depth, prog, m, fuel);
        },
        _ => {},
    }
}

proof fn lemma_binary_code_fails(
    e: ExpAst<Seq<char>>,
    local: Option<(Seq<char>, Data<Seq<char>>)>,
    env: Map<Seq<char>, Data<Seq<char>>>,
    depth: nat,
    prog: Seq<Operator>,
    m: MachineState,
    fuel: nat,
)
    requires
        placed(e, prog, m),
        eval(e, local, env, depth) is Err,
        e is Add || e is Sub || e is Mul || e is Div,
    ensures
        run(prog, m, fuel) is Err,
    decreases e, 0nat,
{
    let code = compile_spec(e)->Ok_0;
    let k = m.pc;
    match e {
        ExpAst::Add(a, b) | ExpAst::Sub(a, b) | ExpAst::Mul(a, b) | ExpAst::Div(a, b) => {
            let op = match e {
                ExpAst::Add(_, _) => Operator::Add,
                ExpAst::Sub(_, _) => Operator::Sub,
                ExpAst::Mul(_, _) => Operator::Mul,
                _ => Operator::Div,
            };
            let bop = binop_of(op);
            let ca = compile_spec(*a)->Ok_0;
            let cb = compile_spec(*b)->Ok_0;
            assert(code == ca + cb + seq![op]);
            let la = ca.len() as int;
            let lb = cb.len() as int;
            assert(code.subrange(0, la) =~= ca);
            assert(code.subrange(la, la + lb) =~= cb);
            assert(code.subrange(la + lb, la + lb + 1) =~= seq![op]);
            lemma_placed(prog, k, code, 0, ca);
            lemma_placed(prog, k, code, la, cb);
            lemma_placed(prog, k, code, la + lb, seq![op]);
            assert(prog[k + la + lb] == seq![op][0]);
            assert(eval(e, local, env, depth) == binary(bop, eval(*a, local, env, depth), eval(*b, local, env, depth)));
            if eval(*a, local, env, depth) is Err {
                lemma_code_fails(*a, local, env, depth, prog, m, fuel);
            } else {
                lemma_compiled_value_is_num(*a, local, env, depth);
                let x = eval(*a, local, env, depth)->Ok_0->Num_0;
                let sa = steps(*a, local, env, depth);
                lemma_code_runs(*a, local, env, depth, x, prog, m, fuel);
                let m1 = MachineState { pc: k + la, stack: m.stack.push(x), output: m.output };
                if fuel >= sa {
                    if eval(*b, local, env, depth) is Err {
                        lemma_code_fails(*b, local, env, depth, prog, m1, (fuel - sa) as nat);
                    } else {
                        lemma_compiled_value_is_num(*b, local, env, depth);
                        let y = eval(*b, local, env, depth)->Ok_0->Num_0;
                        let sb = steps(*b, local, env, depth);
                        lemma_code_runs(*b, local, env, depth, y, prog, m1, (fuel - sa) as nat);
                        let m2 = MachineState { pc: m1.pc + lb, stack: m1.stack.push(y), output: m.output };
                        if fuel >= sa + sb {
                            let f2 = (fuel - sa - sb) as nat;
                            assert(spec_apply(bop, x, y) is Err);
                            if f2 > 0 {
                                lemma_run_step(prog, m2, f2);
                            } else {
                                lemma_run_empty_fuel(prog, m2);
                            }
                        }
                    }
                }
            }
        },
        _ => {},
    }
}

proof fn lemma_conditional_code_fails(
    e: ExpAst<Seq<char>>,
    local: Option<(Seq<char>, Data<Seq<char>>)>,
    env: Map<Seq<char>, Data<Seq<char>>>,
    depth: nat,
    prog: Seq<Operator>,
    m: MachineState,
    fuel: nat,
)
    requires
        placed(e, prog, m),
        eval(e, local, env, depth) is Err,
        e is If,
    ensures
        run(prog, m, fuel) is Err,
    decreases e, 0nat,
{
    let code = compile_spec(e)->Ok_0;
    let k = m.pc;
    match e {
        ExpAst::If(c, t, f) => {
            let cc = compile_spec(*c)->Ok_0;
            let tc = compile_spec(*t)->Ok_0;
            let fc = compile_spec(*f)->Ok_0;
            assert(code == conditional_code(cc, tc, fc));
            let mid = seq![Operator::PushInt32(0), Operator::Equal, Operator::JumpIf((tc.len() + 2) as isize)];
            let jump = seq![Operator::Jump((fc.len() + 1) as isize)];
            let lc = cc.len() as int;
            let lt = tc.len() as int;
            let lf = fc.len() as int;
            let ot = lc + 3;
            let of = ot + lt + 1;
            assert(code.subrange(0, lc) =~= cc);
            assert(code.subrange(lc, lc + 3) =~= mid);
            assert(code.subrange(ot, ot + lt) =~= tc);
            assert(code.subrange(ot + lt, ot + lt + 1) =~= jump);
            assert(code.subrange(of, of + lf) =~= fc);
            lemma_placed(prog, k, code, 0, cc);
            lemma_placed(prog, k, code, lc, mid);
            lemma_placed(prog, k, code, ot, tc);
            lemma_placed(prog, k, code, of, fc);
            assert(prog[k + lc + 0] == mid[0]);
            assert(prog[k + lc + 1] == mid[1]);
            assert(prog[k + lc + 2] == mid[2]);
            if eval(*c, local, env, depth) is Err {
                lemma_code_fails(*c, local, env, depth, prog, m, fuel);
            } else {
                lemma_compiled_value_is_num(*c, local, env, depth);
                let n = eval(*c, local, env, depth)->Ok_0->Num_0;
                let sc = steps(*c, local, env, depth);
                lemma_code_runs(*c, local, env, depth, n, prog, m, fuel);
                if fuel >= sc {
                    let j = k + lc;
                    let m1 = MachineState { pc: j, stack: m.stack.push(n), output: m.output };
                    let flag: i32 = if n == 0 { 1 } else { 0 };
                    let m2 = MachineState { pc: j + 1, stack: m1.stack.push(0), output: m.output };
                    let m3 = MachineState { pc: j + 2, stack: m.stack.push(flag), output: m.output };
                    let f1 = (fuel - sc) as nat;
                    if f1 == 0 {
                        lemma_run_empty_fuel(prog, m1);
                    } else {
                        lemma_run_step(prog, m1, f1);
                        if f1 == 1 {
                            lemma_run_empty_fuel(prog, m2);
                        } else {
                            lemma_run_step(prog, m2, (f1 - 1) as nat);
                            assert(m2.stack.subrange(0, m2.stack.len() - 2).push(flag) =~= m.stack.push(flag));
                            if f1 == 2 {
                                lemma_run_empty_fuel(prog, m3);
                            } else {
                                lemma_run_step(prog, m3, (f1 - 2) as nat);
                                assert(m.stack.push(flag).drop_last() =~= m.stack);
                                let f4 = (f1 - 3) as nat;
                                if n == 0 {
                                    let m4 = MachineState { pc: k + of, stack: m.stack, output: m.output };
                                    lemma_code_fails(*f, local, env, depth, prog, m4, f4);
                                } else {
                                    let m4 = MachineState { pc: k + ot, stack: m.stack, output: m.output };
                                    lemma_code_fails(*t, local, env, depth, prog, m4, f4);
                                }
                            }
                        }
                    }
                }
            }
        },
        _ => {},
    }
}

/// When the evaluator fails on an expression that compiles (a division by
/// zero, an overflow), the machine fails on its code too, whatever its step
/// budget: no number comes out in place of the failure.
pub proof fn lemma_compiled_failure_is_a_fault(
    e: ExpAst<Seq<char>>,
    local: Option<(Seq<char>, Data<Seq<char>>)>,
    env: Map<Seq<char>, Data<Seq<char>>>,
    depth: nat,
    fuel: nat,
)
    requires
        compile_spec(e) is Ok,
        eval(e, local, env, depth) is Err,
    ensures
        run(compile_spec(e)->Ok_0, initial(), fuel) is Err,
{
    let code = compile_spec(e)->Ok_0;
    assert(code.subrange(0, code.len() as int) =~= code);
    lemma_code_fails(e, local, env, depth, code, initial(), fuel);
}

} // verus!
