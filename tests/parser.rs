use crabby::ast::{BinaryOp, Expression, Statement};
use crabby::lexer::tokenize;
use crabby::parser::{parse, Parser};
use crabby::utils::CrabbyError;

fn parse_src(src: &str) -> Result<crabby::ast::Program, CrabbyError> {
    parse(tokenize(src).unwrap())
}

#[test]
fn flat_binary_chain_is_left_nested() {
    let p = parse_src("1 + 2 * 3").unwrap();
    match &p.statements[0] {
        Statement::Expression(Expression::Binary { left, operator, right }) => {
            assert_eq!(*operator, BinaryOp::Mul);
            assert!(matches!(**right, Expression::Integer(3)));
            assert!(matches!(**left, Expression::Binary { operator: BinaryOp::Add, .. }));
        },
        _ => panic!("unexpected tree"),
    }
}

#[test]
fn all_binary_operators_parse() {
    let p = parse_src("a . b == c - d / e").unwrap();
    match &p.statements[0] {
        Statement::Expression(Expression::Binary { operator, .. }) => assert_eq!(*operator, BinaryOp::Div),
        _ => panic!("unexpected tree"),
    }
}

#[test]
fn function_definition_parses() {
    let p = parse_src("def add(a, b): { return a + b }").unwrap();
    match &p.statements[0] {
        Statement::FunctionDef { name, params, body } => {
            assert_eq!(name, "add");
            assert_eq!(params, &vec!["a".to_string(), "b".to_string()]);
            assert!(matches!(**body, Statement::Block(ref v) if v.len() == 1));
        },
        _ => panic!("unexpected tree"),
    }
}

#[test]
fn if_else_and_while_parse() {
    let p = parse_src("if x: { print(1) } else { print(2) }\nwhile y: { }").unwrap();
    assert!(matches!(&p.statements[0], Statement::If { else_branch: Some(_), .. }));
    assert!(matches!(&p.statements[1], Statement::While { .. }));
}

#[test]
fn call_and_lambda_parse() {
    let p = parse_src("let f = lambda(): { }\nf()\ng(1, 2, 3)").unwrap();
    assert!(matches!(&p.statements[0], Statement::Let { .. }));
    match &p.statements[2] {
        Statement::Expression(Expression::Call { function, arguments }) => {
            assert_eq!(function, "g");
            assert_eq!(arguments.len(), 3);
        },
        _ => panic!("unexpected tree"),
    }
}

fn parse_error(src: &str) -> (usize, usize, String) {
    match parse_src(src) {
        Err(CrabbyError::ParserError { line, column, message }) => (line, column, message),
        other => panic!("expected a parse error, got {:?}", other.map(|p| p.statements.len())),
    }
}

#[test]
fn missing_name_is_reported_at_the_token() {
    assert_eq!(parse_error("let = 5"), (1, 5, "Expected variable name".to_string()));
    assert_eq!(parse_error("def (a): { }"), (1, 5, "Expected function name".to_string()));
}

#[test]
fn premature_end_uses_last_token() {
    assert_eq!(parse_error("let x ="), (1, 7, "Expected expression".to_string()));
    assert_eq!(parse_error("if x: { print(1)"), (1, 16, "Expected '}' at end of block".to_string()));
}

#[test]
fn other_parse_errors() {
    assert_eq!(parse_error("def f(a b): { }").2, "Expected ',' between parameters");
    assert_eq!(parse_error("def f(1): { }").2, "Expected parameter name");
    assert_eq!(parse_error("def f(a) { }").2, "Expected ':' after parameters");
    assert_eq!(parse_error("while x { }").2, "Expected ':' after while condition");
    assert_eq!(parse_error("if x { }").2, "Expected ':' after if condition");
    assert_eq!(parse_error("(1 + 2").2, "Expected ')' after expression");
    assert_eq!(parse_error("f(1 2)").2, "Expected ')' after arguments");
    assert_eq!(parse_error("lambda x").2, "Expected '(' after lambda");
    assert_eq!(parse_error("while x: print(1)").2, "Expected '{' at start of block");
    assert_eq!(parse_error("let x 5").2, "Expected '=' after variable name");
    assert_eq!(parse_error("def f x").2, "Expected '(' after function name");
}

#[test]
fn parser_parses_a_slice() {
    let toks = tokenize("print(1)\nprint(2)").unwrap();
    let mut parser = Parser::new(&toks);
    let p = parser.parse().unwrap();
    assert_eq!(p.statements.len(), 2);
}
