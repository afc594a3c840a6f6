use tinylang::interpreter::{Data, EvalError, Interpreter, MAX_CALL_DEPTH};
use tinylang::parser::parse_statement;
use tinylang::parser::syntax::statement_to_ast;

fn run(interpreter: &mut Interpreter, src: &str) -> Result<Data<String>, EvalError> {
    let statement = parse_statement(src).expect("the statement parses");
    interpreter.eval_statement_ast(statement_to_ast(statement))
}

fn num(r: Result<Data<String>, EvalError>) -> i32 {
    match r {
        Ok(Data::Num(n)) => n,
        other => panic!("expected a number, got {:?}", other),
    }
}

#[test]
fn test_function_definition_sum() {
    let mut interpreter = Interpreter::new();
    let input = "sum = |n| if n then sum (n - 1) + n else 0 end".to_string();

    let statement = parse_statement(&input);
    assert!(statement.is_ok());
    let ast = statement_to_ast(statement.unwrap());
    let v = interpreter.eval(ast.clone());
    assert!(v.is_some());
    match v.unwrap() {
        Data::Fun(_, _) => assert!(true),
        _ => assert!(false),
    }

    let input = "sum(10)".to_string();
    let statement = parse_statement(&input);
    assert!(statement.is_ok());
    let ast = statement_to_ast(statement.unwrap());
    let v = interpreter.eval(ast.clone());
    assert!(v.is_some());
    match v.unwrap() {
        Data::Num(num) => assert_eq!(num, 55),
        _ => assert!(false),
    }
}

#[test]
fn test_function_definition_fib() {
    let mut interpreter = Interpreter::new();
    let input = "fib = |n| if n then if n-1 then fib(n-1) + fib(n-2) else 1 end else 1 end".to_string();

    let statement = parse_statement(&input);
    assert!(statement.is_ok());
    let ast = statement_to_ast(statement.unwrap());
    let v = interpreter.eval(ast.clone());
    assert!(v.is_some());
    match v.unwrap() {
        Data::Fun(_, _) => assert!(true),
        _ => assert!(false),
    }

    let input = "fib(6)".to_string();
    let statement = parse_statement(&input);
    assert!(statement.is_ok());
    let ast = statement_to_ast(statement.unwrap());
    let v = interpreter.eval(ast.clone());
    assert!(v.is_some());
    match v.unwrap() {
        Data::Num(num) => assert_eq!(num, 13),
        _ => assert!(false),
    }
}

#[test]
fn subtraction_folds_to_the_left() {
    let mut interpreter = Interpreter::new();
    assert_eq!(num(run(&mut interpreter, "10-3-2")), 5);
    assert_eq!(num(run(&mut interpreter, "100 / 10 / 5")), 2);
}

#[test]
fn multiplication_binds_tighter_than_addition() {
    let mut interpreter = Interpreter::new();
    assert_eq!(num(run(&mut interpreter, "2+3*4")), 14);
    assert_eq!(num(run(&mut interpreter, "(2+3)*4")), 20);
}

#[test]
fn conditional_tests_for_nonzero() {
    let mut interpreter = Interpreter::new();
    assert_eq!(num(run(&mut interpreter, "if 0 then 1 else 2 end")), 2);
    assert_eq!(num(run(&mut interpreter, "if 5 then 1 else 2 end")), 1);
    assert_eq!(num(run(&mut interpreter, "1 + if 0 then 10 else 20 end * 2")), 41);
}

#[test]
fn conditional_skips_the_other_branch() {
    let mut interpreter = Interpreter::new();
    assert_eq!(num(run(&mut interpreter, "if 1 then 7 else 1/0 end")), 7);
    assert_eq!(num(run(&mut interpreter, "if 0 then missing else 8 end")), 8);
}

#[test]
fn recursion_through_the_global_environment() {
    let mut interpreter = Interpreter::new();
    let f = run(&mut interpreter, "fact = |n| if n then n * fact(n - 1) else 1 end");
    assert!(matches!(f, Ok(Data::Fun(_, _))));
    assert_eq!(num(run(&mut interpreter, "fact(5)")), 120);
}

#[test]
fn division_truncates_toward_zero() {
    let mut interpreter = Interpreter::new();
    assert_eq!(num(run(&mut interpreter, "7/2")), 3);
    assert_eq!(num(run(&mut interpreter, "(0-7)/2")), -3);
    assert_eq!(run(&mut interpreter, "7/0").unwrap_err(), EvalError::DivisionByZero);
}

#[test]
fn repeated_retrieval_gives_the_assigned_value() {
    let mut interpreter = Interpreter::new();
    assert_eq!(num(run(&mut interpreter, "x = 10")), 10);
    for _ in 0..3 {
        assert_eq!(num(run(&mut interpreter, "x")), 10);
    }
    assert_eq!(num(run(&mut interpreter, "x = x + 1")), 11);
    assert_eq!(num(run(&mut interpreter, "x")), 11);
}

#[test]
fn failed_assignment_binds_nothing() {
    let mut interpreter = Interpreter::new();
    assert_eq!(run(&mut interpreter, "y = 1/0").unwrap_err(), EvalError::DivisionByZero);
    assert_eq!(run(&mut interpreter, "y").unwrap_err(), EvalError::UnknownIdentifier);
}

#[test]
fn unknown_identifier_is_reported() {
    let mut interpreter = Interpreter::new();
    assert_eq!(run(&mut interpreter, "nothing + 1").unwrap_err(), EvalError::UnknownIdentifier);
    assert!(interpreter.eval(statement_to_ast(parse_statement("nothing").unwrap())).is_none());
}

#[test]
fn calling_a_number_is_reported() {
    let mut interpreter = Interpreter::new();
    assert_eq!(run(&mut interpreter, "3 4").unwrap_err(), EvalError::NotCallable);
}

#[test]
fn arithmetic_on_a_function_is_reported() {
    let mut interpreter = Interpreter::new();
    assert_eq!(run(&mut interpreter, "(|x| x) + 1").unwrap_err(), EvalError::TypeMismatch);
    assert_eq!(run(&mut interpreter, "if |x| x then 1 else 2 end").unwrap_err(), EvalError::TypeMismatch);
}

#[test]
fn overflow_is_reported() {
    let mut interpreter = Interpreter::new();
    assert_eq!(num(run(&mut interpreter, "2147483647")), i32::MAX);
    assert_eq!(run(&mut interpreter, "2147483647 + 1").unwrap_err(), EvalError::Overflow);
    assert_eq!(run(&mut interpreter, "65536 * 65536").unwrap_err(), EvalError::Overflow);
}

#[test]
fn runaway_recursion_is_reported() {
    let mut interpreter = Interpreter::new();
    run(&mut interpreter, "loop = |n| loop(n)").unwrap();
    assert_eq!(run(&mut interpreter, "loop(1)").unwrap_err(), EvalError::CallDepthExceeded);
    run(&mut interpreter, "down = |n| if n then down(n - 1) else 42 end").unwrap();
    let within = format!("down({})", MAX_CALL_DEPTH - 1);
    assert_eq!(num(run(&mut interpreter, &within)), 42);
}

#[test]
fn functions_see_the_global_environment_at_call_time() {
    let mut interpreter = Interpreter::new();
    run(&mut interpreter, "k = 1").unwrap();
    run(&mut interpreter, "f = |x| x + k").unwrap();
    assert_eq!(num(run(&mut interpreter, "f(1)")), 2);
    run(&mut interpreter, "k = 100").unwrap();
    assert_eq!(num(run(&mut interpreter, "f(1)")), 101);
}

#[test]
fn parameter_shadows_a_global() {
    let mut interpreter = Interpreter::new();
    run(&mut interpreter, "x = 5").unwrap();
    assert_eq!(num(run(&mut interpreter, "(|x| x * 2) 21")), 42);
}

#[test]
fn closures_capture_only_their_parameter() {
    let mut interpreter = Interpreter::new();
    run(&mut interpreter, "konst = |a| |b| a").unwrap();
    assert!(matches!(run(&mut interpreter, "konst 1"), Ok(Data::Fun(_, _))));
    assert_eq!(run(&mut interpreter, "konst 1 2").unwrap_err(), EvalError::UnknownIdentifier);
    run(&mut interpreter, "a = 9").unwrap();
    assert_eq!(num(run(&mut interpreter, "konst 1 2")), 9);
}
