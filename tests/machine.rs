use tinylang::compiler::{compile, compile_statement, CompileError};
use tinylang::interpreter::{Data, Interpreter};
use tinylang::parser::parse_statement;
use tinylang::parser::syntax::{statement_to_ast, ExpAst, StatementAst};
use tinylang::vm::{execute, process, Event, Operator, VmError};

fn expression(src: &str) -> ExpAst<String> {
    match statement_to_ast(parse_statement(src).expect("parses")) {
        StatementAst::Exp(e) => *e,
        StatementAst::Assign(_, _) => panic!("not an expression"),
    }
}

fn compiled(src: &str) -> Vec<Operator> {
    let mut code = vec![];
    compile(&expression(src), &mut code).expect("compiles");
    code
}

fn run_code(code: &[Operator]) -> Result<Vec<i32>, VmError> {
    process(&code.to_vec()).map(|vm| vm.stack)
}

#[test]
fn vm_test() {
    // calculate sum of 1..10
    let program = vec![
        Operator::PushInt32(10), // max
        Operator::PushInt32(0),  // counter
        Operator::PushInt32(0),  // sum
        Operator::Load(1),
        Operator::PushInt32(1),
        Operator::Add,
        Operator::Store(2), // increment 'counter'
        Operator::Pop,
        Operator::Load(1),
        Operator::Add, // update 'sum'
        Operator::Load(1),
        Operator::Load(3),
        Operator::Equal, // compare 'max' and 'sum'
        Operator::Not,
        Operator::Dump,
        Operator::JumpIf(-12),
        Operator::Print,
    ];
    let vm = process(&program).expect("runs");
    assert_eq!(vm.stack, vec![10, 10, 55]);
    assert!(matches!(vm.output.last(), Some(Event::Print(55))));
    assert_eq!(vm.output.len(), 11);
    assert!(matches!(&vm.output[0], Event::Dump(s) if *s == vec![10, 1, 1, 1]));
}

#[test]
fn compiled_code_agrees_with_the_evaluator() {
    let code = compiled("1+2*3");
    assert_eq!(
        code,
        vec![
            Operator::PushInt32(1),
            Operator::PushInt32(2),
            Operator::PushInt32(3),
            Operator::Mul,
            Operator::Add,
        ]
    );
    assert_eq!(run_code(&code).unwrap(), vec![7]);
    let mut interpreter = Interpreter::new();
    let v = interpreter.eval(statement_to_ast(parse_statement("1+2*3").unwrap()));
    assert!(matches!(v, Some(Data::Num(7))));
}

#[test]
fn conditional_code_jumps_over_the_other_branch() {
    let code = compiled("if 0 then 1 else 2 end");
    assert_eq!(
        code,
        vec![
            Operator::PushInt32(0),
            Operator::PushInt32(0),
            Operator::Equal,
            Operator::JumpIf(3),
            Operator::PushInt32(1),
            Operator::Jump(2),
            Operator::PushInt32(2),
        ]
    );
    assert_eq!(run_code(&code).unwrap(), vec![2]);
    assert_eq!(run_code(&compiled("if 5 then 1 else 2 end")).unwrap(), vec![1]);
    assert_eq!(run_code(&compiled("10 - if 3 - 3 then 1 else 2 + 2 end * 2")).unwrap(), vec![2]);
}

#[test]
fn compiled_division_truncates_and_faults_on_zero() {
    assert_eq!(run_code(&compiled("7/2")).unwrap(), vec![3]);
    assert_eq!(run_code(&compiled("(0-7)/2")).unwrap(), vec![-3]);
    assert_eq!(run_code(&compiled("7/0")).unwrap_err(), VmError::DivisionByZero);
    assert_eq!(run_code(&compiled("2147483647+1")).unwrap_err(), VmError::Overflow);
}

#[test]
fn names_and_functions_are_not_compiled() {
    let mut code = vec![Operator::Pop];
    assert_eq!(compile(&expression("x + 1"), &mut code), Err(CompileError::Unsupported));
    assert_eq!(compile(&expression("1 + f 2"), &mut code), Err(CompileError::Unsupported));
    assert_eq!(compile(&expression("|x| 1"), &mut code), Err(CompileError::Unsupported));
    assert_eq!(code, vec![Operator::Pop]);
    let assign = statement_to_ast(parse_statement("x = 1").unwrap());
    assert_eq!(compile_statement(&assign, &mut code), Err(CompileError::Unsupported));
    let exp = statement_to_ast(parse_statement("4").unwrap());
    assert_eq!(compile_statement(&exp, &mut code), Ok(()));
    assert_eq!(code, vec![Operator::Pop, Operator::PushInt32(4)]);
}

#[test]
fn machine_faults_are_errors() {
    assert_eq!(run_code(&[Operator::Pop]).unwrap_err(), VmError::StackUnderflow);
    assert_eq!(run_code(&[Operator::PushInt32(1), Operator::Add]).unwrap_err(), VmError::StackUnderflow);
    assert_eq!(run_code(&[Operator::PushInt32(1), Operator::Load(1)]).unwrap_err(), VmError::IndexOutOfRange);
    assert_eq!(run_code(&[Operator::PushInt32(1), Operator::Store(1)]).unwrap_err(), VmError::IndexOutOfRange);
    assert_eq!(run_code(&[Operator::Jump(-1)]).unwrap_err(), VmError::JumpOutOfRange);
    assert_eq!(execute(&vec![Operator::Jump(0)], 10).map(|vm| vm.pc).unwrap_err(), VmError::StepLimitExceeded);
}

#[test]
fn stack_instructions() {
    let code = [
        Operator::PushInt32(4),
        Operator::PushInt32(9),
        Operator::Store(1),
        Operator::Load(0),
        Operator::Not,
        Operator::JumpUnless(2),
        Operator::PushInt32(100),
        Operator::Print,
    ];
    let vm = process(&code.to_vec()).unwrap();
    assert_eq!(vm.stack, vec![9, 9]);
    assert!(matches!(vm.output[..], [Event::Print(9)]));
    assert_eq!(run_code(&[Operator::Jump(5), Operator::PushInt32(1)]).unwrap(), Vec::<i32>::new());
}
