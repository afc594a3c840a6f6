use tinylang::parser::combinator::{
    mismatch, Between, Char, Digit, Eof, Letter, Lower, Many, Many1, OneOf, Parser, SepBy, SkipMany,
    Space, Spaces, Then, Try, Upper,
};
use tinylang::parser::parse_statement;
use tinylang::parser::syntax::{statement_to_ast, ExpAst, StatementAst};
use tinylang::parser::{Expression, Statement, Term};

fn chars(s: &str) -> Vec<char> {
    s.chars().collect()
}

fn expression(src: &str) -> ExpAst<String> {
    match statement_to_ast(parse_statement(src).expect("parses")) {
        StatementAst::Exp(e) => *e,
        StatementAst::Assign(_, _) => panic!("not an expression"),
    }
}

fn num(n: i32) -> Box<ExpAst<String>> {
    Box::new(ExpAst::Num(n))
}

#[test]
fn char_matches_only_its_character() {
    let input = chars("ab");
    assert_eq!(Char::new('a').parse(&input, 0).unwrap(), ('a', 1));
    let err = Char::new('a').parse(&input, 1).unwrap_err();
    assert_eq!(err.explanation, "expected 'a' but got 'b'");
    assert_eq!(err.filename, "stdin");
    let err = Char::new('a').parse(&input, 2).unwrap_err();
    assert_eq!(err.explanation, "expected 'a' but got EOF");
}

#[test]
fn mismatch_names_both_characters() {
    let m: String = mismatch('x', Some('y')).into_iter().collect();
    assert_eq!(m, "expected 'x' but got 'y'");
}

#[test]
fn error_position_counts_lines_and_columns() {
    let input = chars("a\nbc");
    let err = Char::new('z').parse(&input, 3).unwrap_err();
    assert_eq!((err.line, err.char), (1, 1));
}

#[test]
fn many_may_match_nothing() {
    let input = chars("aab");
    let (v, q) = Many::new(Char::new('a')).parse(&input, 0).unwrap();
    assert_eq!((v, q), (vec!['a', 'a'], 2));
    let (v, q) = Many::new(Char::new('a')).parse(&input, 2).unwrap();
    assert_eq!((v, q), (vec![], 2));
}

#[test]
fn many1_needs_one_match() {
    let input = chars("aab");
    assert_eq!(Many1::new(Char::new('a')).parse(&input, 0).unwrap().1, 2);
    assert!(Many1::new(Char::new('a')).parse(&input, 2).is_err());
}

#[test]
fn skip_many_drops_the_values() {
    let input = chars("   x");
    assert_eq!(SkipMany::new(Space::new()).parse(&input, 0).unwrap(), ((), 3));
    assert_eq!(Spaces::new().parse(&input, 3).unwrap(), ((), 3));
    assert_eq!(Spaces::new().parse(&chars(" \t\r\nx"), 0).unwrap(), ((), 4));
}

#[test]
fn ordered_choice_restarts_each_alternative() {
    let input = chars("ac");
    let first = Then::new(Char::new('a'), Char::new('b'));
    let second = Then::new(Char::new('a'), Char::new('c'));
    let choice = Try::new(vec![first, second]);
    assert_eq!(choice.parse(&input, 0).unwrap(), ('c', 2));
    assert!(Try::new(vec![Then::new(Char::new('x'), Char::new('c'))]).parse(&input, 0).is_err());
}

#[test]
fn one_of_takes_any_listed_character() {
    let input = chars("+-*");
    let ops = OneOf::new("*-");
    assert!(ops.parse(&input, 0).is_err());
    assert_eq!(ops.parse(&input, 1).unwrap(), ('-', 2));
    assert_eq!(ops.parse(&input, 2).unwrap(), ('*', 3));
    assert_eq!(OneOf::range(b'a', b'c').parse(&chars("c"), 0).unwrap(), ('c', 1));
    assert!(OneOf::range(b'a', b'c').parse(&chars("d"), 0).is_err());
}

#[test]
fn letters_and_digits() {
    assert_eq!(Lower::new().parse(&chars("q"), 0).unwrap(), ('q', 1));
    assert!(Lower::new().parse(&chars("Q"), 0).is_err());
    assert_eq!(Digit::new().parse(&chars("0042x"), 0).unwrap(), (42, 4));
    assert_eq!(Digit::new().parse(&chars("2147483647"), 0).unwrap(), (i32::MAX, 10));
    assert!(Digit::new().parse(&chars("2147483648"), 0).is_err());
    assert!(Digit::new().parse(&chars("x1"), 0).is_err());
}

#[test]
fn between_keeps_the_middle() {
    let input = chars("(a)");
    let p = Between::new(Char::new('('), Char::new('a'), Char::new(')'));
    assert_eq!(p.parse(&input, 0).unwrap(), ('a', 3));
    assert!(p.parse(&chars("(a"), 0).is_err());
}

#[test]
fn eof_only_at_the_end() {
    let input = chars("a");
    assert!(Eof::new().parse(&input, 0).is_err());
    assert_eq!(Eof::new().parse(&input, 1).unwrap(), ((), 1));
}

#[test]
fn sep_by_stops_at_a_missing_separator() {
    let p = SepBy::new(Many1::new(Lower::new()), Char::new(','));
    let (v, q) = p.parse(&chars("ab,c;"), 0).unwrap();
    assert_eq!(v, vec![vec!['a', 'b'], vec!['c']]);
    assert_eq!(q, 4);
    assert!(p.parse(&chars("ab,;"), 0).is_err());
    assert!(p.parse(&chars(";"), 0).is_err());
}

#[test]
fn grammar_parsers_work_from_a_position() {
    let input = chars("  x y");
    let (_, q) = Term::new().parse(&input, 0).unwrap();
    assert_eq!(q, 3);
    let (_, q) = Expression::new().parse(&input, 0).unwrap();
    assert_eq!(q, 5);
    assert!(Statement::new().parse(&chars("1 +"), 0).is_err());
}

#[test]
fn operators_fold_to_the_left() {
    let e = expression("10-3-2");
    let expected = ExpAst::Sub(Box::new(ExpAst::Sub(num(10), num(3))), num(2));
    assert_eq!(format!("{:?}", e), format!("{:?}", expected));
}

#[test]
fn precedence_layers() {
    let e = expression("2+3*4");
    let expected = ExpAst::Add(num(2), Box::new(ExpAst::Mul(num(3), num(4))));
    assert_eq!(format!("{:?}", e), format!("{:?}", expected));
    let e = expression("f 1 * 2");
    let app = ExpAst::App(Box::new(ExpAst::Var("f".to_string())), num(1));
    let expected = ExpAst::Mul(Box::new(app), num(2));
    assert_eq!(format!("{:?}", e), format!("{:?}", expected));
}

#[test]
fn assignment_names_its_target() {
    match statement_to_ast(parse_statement(" total = 1 ").unwrap()) {
        StatementAst::Assign(name, _) => assert_eq!(name, "total"),
        StatementAst::Exp(_) => panic!("expected an assignment"),
    }
}

#[test]
fn statement_must_use_the_whole_line() {
    assert!(parse_statement("1 2 )").is_err());
    assert!(parse_statement("").is_err());
    assert!(parse_statement("   ").is_err());
    assert!(parse_statement("x = ").is_err());
}

#[test]
fn function_literal_takes_one_parameter() {
    assert!(parse_statement("|x| x").is_ok());
    assert!(parse_statement("|x,y| x").is_err());
    assert!(parse_statement("|if| 1").is_err());
}

#[test]
fn keywords_are_not_identifiers() {
    assert!(parse_statement("then").is_err());
    assert!(parse_statement("end = 1").is_err());
    assert!(parse_statement("iffy").is_ok());
}

#[test]
fn oversized_number_is_rejected() {
    assert!(parse_statement("99999999999").is_err());
}

#[test]
fn letter_classes() {
    assert_eq!(Upper::new().parse(&chars("Q"), 0).unwrap(), ('Q', 1));
    assert!(Upper::new().parse(&chars("q"), 0).is_err());
    assert_eq!(Letter::new().parse(&chars("q"), 0).unwrap(), ('q', 1));
    assert_eq!(Letter::new().parse(&chars("Z"), 0).unwrap(), ('Z', 1));
    assert!(Letter::new().parse(&chars("1"), 0).is_err());
}
