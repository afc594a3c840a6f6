//! The stack machine that runs compiled programs.
//!
//! The machine holds a program counter and a stack of `i32`. Each step runs the
//! instruction at the counter and moves to the next one, unless the instruction
//! jumps; the run ends once the counter is past the last instruction. A jump by
//! `d` from the instruction at `pc` continues at `pc + d`.
//!
//! A machine fault (a missing operand, a stack index out of range, a division by
//! zero or an overflow, a jump before the start) ends the run with an error
//! instead of aborting the process, and so does a run longer than its step
//! budget.
use vstd::prelude::*;
use crate::arith::{BinOp, ArithError, spec_apply, apply};

verus! {

#[derive(Debug, Copy, Clone, PartialEq, Eq, Structural)]
pub enum Operator {
    PushInt32(i32),
    Pop,
    Add,
    Sub,
    Mul,
    Div,
    /// 1 in place of a zero on top, 0 in place of anything else.
    Not,
    /// Pops two values, pushes 1 when they are equal and 0 otherwise.
    Equal,
    /// Pushes a copy of the value `n` places below the top.
    Load(usize),
    /// Overwrites the value `n` places below the top with the top, which stays.
    Store(usize),
    /// Outputs the top, which stays.
    Print,
    /// Pops a value and jumps when it is not 0.
    JumpIf(isize),
    /// Pops a value and jumps when it is 0.
    JumpUnless(isize),
    Jump(isize),
    /// Outputs the whole stack.
    Dump,
}

/// What a run outputs.
#[derive(Debug)]
pub enum Event<S> {
    Print(i32),
    Dump(S),
}

#[derive(Debug, Clone, Copy, PartialEq, Eq, Structural)]
pub enum VmError {
    StackUnderflow,
    IndexOutOfRange,
    DivisionByZero,
    Overflow,
    JumpOutOfRange,
    StepLimitExceeded,
}

/// The state of the machine as the specifications see it.
pub struct MachineState {
    pub pc: int,
    pub stack: Seq<i32>,
    pub output: Seq<Event<Seq<i32>>>,
}

/// The machine at the start of a run.
pub open spec fn initial() -> MachineState {
    MachineState { pc: 0, stack: Seq::empty(), output: Seq::empty() }
}

pub open spec fn binop_of(op: Operator) -> BinOp {
    match op {
        Operator::Add => BinOp::Add,
        Operator::Sub => BinOp::Sub,
        Operator::Mul => BinOp::Mul,
        _ => BinOp::Div,
    }
}

pub open spec fn arith_fault(e: ArithError) -> VmError {
    match e {
        ArithError::DivisionByZero => VmError::DivisionByZero,
        ArithError::Overflow => VmError::Overflow,
    }
}

/// Continuing at `target` in a program of `len` instructions; a target past
/// the end ends the run.
pub open spec fn jump_to(m: MachineState, stack: Seq<i32>, target: int, len: int) -> Result<MachineState, VmError> {
    if target < 0 {
        Err(VmError::JumpOutOfRange)
    } else {
        Ok(MachineState { pc: if target > len { len } else { target }, stack, output: m.output })
    }
}

/// One step: the instruction at `m.pc`, which is within `prog`.
pub open spec fn step(prog: Seq<Operator>, m: MachineState) -> Result<MachineState, VmError> {
    let st = m.stack;
    let n = st.len();
    let next = m.pc + 1;
    match prog[m.pc] {
        Operator::PushInt32(v) => Ok(MachineState { pc: next, stack: st.push(v), output: m.output }),
        Operator::Pop => if n == 0 {
            Err(VmError::StackUnderflow)
        } else {
            Ok(MachineState { pc: next, stack: st.drop_last(), output: m.output })
        },
        Operator::Add | Operator::Sub | Operator::Mul | Operator::Div => if n < 2 {
            Err(VmError::StackUnderflow)
        } else {
            match spec_apply(binop_of(prog[m.pc]), st[n - 2], st[n - 1]) {
                Ok(v) => Ok(MachineState { pc: next, stack: st.subrange(0, n - 2).push(v), output: m.output }),
                Err(e) => Err(arith_fault(e)),
            }
        },
        Operator::Not => if n == 0 {
            Err(VmError::StackUnderflow)
        } else {
            Ok(MachineState { pc: next, stack: st.drop_last().push(if st[n - 1] == 0 { 1 } else { 0 }), output: m.output })
        },
        Operator::Equal => if n < 2 {
            Err(VmError::StackUnderflow)
        } else {
            Ok(MachineState {
                pc: next,
                stack: st.subrange(0, n - 2).push(if st[n - 2] == st[n - 1] { 1 } else { 0 }),
                output: m.output,
            })
        },
        Operator::Load(k) => if k < n {
            Ok(MachineState { pc: next, stack: st.push(st[n - 1 - k]), output: m.output })
        } else {
            Err(VmError::IndexOutOfRange)
        },
        Operator::Store(k) => if k < n {
            Ok(MachineState { pc: next, stack: st.update(n - 1 - k, st[n - 1]), output: m.output })
        } else {
            Err(VmError::IndexOutOfRange)
        },
        Operator::Print => if n == 0 {
            Err(VmError::StackUnderflow)
        } else {
            Ok(MachineState { pc: next, stack: st, output: m.output.push(Event::Print(st[n - 1])) })
        },
        Operator::JumpIf(d) => if n == 0 {
            Err(VmError::StackUnderflow)
        } else if st[n - 1] != 0 {
            jump_to(m, st.drop_last(), m.pc + d, prog.len() as int)
        } else {
            Ok(MachineState { pc: next, stack: st.drop_last(), output: m.output })
        },
        Operator::JumpUnless(d) => if n == 0 {
            Err(VmError::StackUnderflow)
        } else if st[n - 1] == 0 {
            jump_to(m, st.drop_last(), m.pc + d, prog.len() as int)
        } else {
            Ok(MachineState { pc: next, stack: st.drop_last(), output: m.output })
        },
        Operator::Jump(d) => jump_to(m, st, m.pc + d, prog.len() as int),
        Operator::Dump => Ok(MachineState { pc: next, stack: st, output: m.output.push(Event::Dump(st)) }),
    }
}

/// The machine after running `prog` from `m` for at most `fuel` steps.
pub open spec fn run(prog: Seq<Operator>, m: MachineState, fuel: nat) -> Result<MachineState, VmError>
    decreases fuel,
{
    if m.pc < 0 || m.pc >= prog.len() {
        Ok(m)
    } else if fuel == 0 {
        Err(VmError::StepLimitExceeded)
    } else {
        match step(prog, m) {
            Ok(next) => run(prog, next, (fuel - 1) as nat),
            Err(e) => Err(e),
        }
    }
}

/// How many steps `process` allows a program.
pub const STEP_LIMIT: usize = 1_000_000;

/// A machine at run time.
pub struct Vm {
    pub pc: usize,
    pub stack: Vec<i32>,
    pub output: Vec<Event<Vec<i32>>>,
}

pub open spec fn event_view(e: Event<Vec<i32>>) -> Event<Seq<i32>> {
    match e {
        Event::Print(v) => Event::Print(v),
        Event::Dump(s) => Event::Dump(s@),
    }
}

impl View for Vm {
    type V = MachineState;

    open spec fn view(&self) -> MachineState {
        MachineState {
            pc: self.pc as int,
            stack: self.stack@,
            output: self.output@.map_values(|e: Event<Vec<i32>>| event_view(e)),
        }
    }
}

pub open spec fn vm_result_view(r: Result<Vm, VmError>) -> Result<MachineState, VmError> {
    match r {
        Ok(vm) => Ok(vm@),
        Err(e) => Err(e),
    }
}

fn copy_stack(v: &Vec<i32>) -> (r: Vec<i32>)
    ensures
        r@ == v@,
{
    let mut r: Vec<i32> = Vec::new();
    let mut i: usize = 0;
    while i < v.len()
        invariant
            i <= v@.len(),
            r@ == v@.subrange(0, i as int),
        decreases v@.len() - i,
    {
        r.push(v[i]);
        proof {
            assert(r@ =~= v@.subrange(0, i + 1));
        }
        i = i + 1;
    }
    proof {
        assert(v@.subrange(0, v@.len() as int) =~= v@);
    }
    r
}

impl Vm {
    pub fn new() -> (r: Vm)
        ensures
            r@ == initial(),
    {
        let r = Vm { pc: 0, stack: Vec::new(), output: Vec::new() };
        proof {
            assert(r@.output =~= Seq::<Event<Seq<i32>>>::empty());
        }
        r
    }

    fn pop(&mut self) -> (r: i32)
        requires
            old(self).stack@.len() > 0,
        ensures
            r == old(self).stack@.last(),
            final(self).stack@ == old(self).stack@.drop_last(),
            final(self).pc == old(self).pc,
            final(self).output == old(self).output,
    {
        match self.stack.pop() {
            Some(v) => v,
            None => 0,
        }
    }

    fn jump(&mut self, delta: isize, len: usize) -> (r: Result<(), VmError>)
        requires
            old(self).pc < len,
        ensures
            match jump_to(old(self)@, old(self).stack@, old(self).pc + delta, len as int) {
                Ok(m) => r is Ok && final(self)@ == m,
                Err(e) => r == Err::<(), VmError>(e),
            },
    {
        let target: i128 = self.pc as i128 + delta as i128;
        if target < 0 {
            return Err(VmError::JumpOutOfRange);
        }
        if target > len as i128 {
            self.pc = len;
        } else {
            self.pc = target as usize;
        }
        Ok(())
    }

    /// Runs the instruction at the program counter.
    pub fn step(&mut self, program: &Vec<Operator>) -> (r: Result<(), VmError>)
        requires
            old(self).pc < program@.len(),
        ensures
            match step(program@, old(self)@) {
                Ok(m) => r is Ok && final(self)@ == m,
                Err(e) => r == Err::<(), VmError>(e),
            },
    {
        let n = self.stack.len();
        let len = program.len();
        let ghost before = self@;
        proof {
            assert(before.output == self.output@.map_values(|e: Event<Vec<i32>>| event_view(e)));
        }
        match program[self.pc] {
            Operator::PushInt32(v) => {
                self.stack.push(v);
            },
            Operator::Pop => {
                if n == 0 {
                    return Err(VmError::StackUnderflow);
                }
                self.pop();
            },
            Operator::Add | Operator::Sub | Operator::Mul | Operator::Div => {
                if n < 2 {
                    return Err(VmError::StackUnderflow);
                }
                let op = match program[self.pc] {
                    Operator::Add => BinOp::Add,
                    Operator::Sub => BinOp::Sub,
                    Operator::Mul => BinOp::Mul,
                    _ => BinOp::Div,
                };
                let b = self.stack[n - 1];
                let a = self.stack[n - 2];
                match apply(op, a, b) {
                    Ok(v) => {
                        self.pop();
                        self.pop();
                        self.stack.push(v);
                        proof {
                            assert(self.stack@ =~= before.stack.subrange(0, n - 2).push(v));
                        }
                    },
                    Err(ArithError::DivisionByZero) => {
                        return Err(VmError::DivisionByZero);
                    },
                    Err(ArithError::Overflow) => {
                        return Err(VmError::Overflow);
                    },
                }
            },
            Operator::Not => {
                if n == 0 {
                    return Err(VmError::StackUnderflow);
                }
                let v = self.pop();
                self.stack.push(if v == 0 { 1 } else { 0 });
            },
            Operator::Equal => {
                if n < 2 {
                    return Err(VmError::StackUnderflow);
                }
                let b = self.pop();
                let a = self.pop();
                self.stack.push(if a == b { 1 } else { 0 });
                proof {
                    assert(self.stack@ =~= before.stack.subrange(0, n - 2).push(if a == b { 1i32 } else { 0i32 }));
                }
            },
            Operator::Load(k) => {
                if k >= n {
                    return Err(VmError::IndexOutOfRange);
                }
                let v = self.stack[n - 1 - k];
                self.stack.push(v);
            },
            Operator::Store(k) => {
                if k >= n {
                    return Err(VmError::IndexOutOfRange);
                }
                let v = self.stack[n - 1];
                self.stack.set(n - 1 - k, v);
            },
            Operator::Print => {
                if n == 0 {
                    return Err(VmError::StackUnderflow);
                }
                let v = self.stack[n - 1];
                self.output.push(Event::Print(v));
                proof {
                    assert(self@.output =~= before.output.push(Event::Print(v)));
                }
            },
            Operator::JumpIf(d) => {
                if n == 0 {
                    return Err(VmError::StackUnderflow);
                }
                let v = self.pop();
                if v != 0 {
                    return self.jump(d, program.len());
                }
            },
            Operator::JumpUnless(d) => {
                if n == 0 {
                    return Err(VmError::StackUnderflow);
                }
                let v = self.pop();
                if v == 0 {
                    return self.jump(d, program.len());
                }
            },
            Operator::Jump(d) => {
                return self.jump(d, program.len());
            },
            Operator::Dump => {
                let copy = copy_stack(&self.stack);
                self.output.push(Event::Dump(copy));
                proof {
                    assert(self@.output =~= before.output.push(Event::Dump(before.stack)));
                }
            },
        }
        assert(self.pc < len);
        self.pc = self.pc + 1;
        Ok(())
    }
}

/// Runs `program` from the start for at most `fuel` steps.
pub fn execute(program: &Vec<Operator>, fuel: usize) -> (r: Result<Vm, VmError>)
    ensures
        vm_result_view(r) == run(program@, initial(), fuel as nat),
{
    let mut vm = Vm::new();
    let mut left = fuel;
    while vm.pc < program.len()
        invariant
            run(program@, initial(), fuel as nat) == run(program@, vm@, left as nat),
            vm.pc <= program@.len(),
        decreases left,
    {
        if left == 0 {
            return Err(VmError::StepLimitExceeded);
        }
        vm.step(program)?;
        left = left - 1;
    }
    Ok(vm)
}

/// Runs `program` from the start with the default step budget.
pub fn process(program: &Vec<Operator>) -> (r: Result<Vm, VmError>)
    ensures
        vm_result_view(r) == run(program@, initial(), STEP_LIMIT as nat),
{
    execute(program, STEP_LIMIT)
}

} // verus!
