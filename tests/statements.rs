use crabby::ast::{Expression, Program, Statement};
use crabby::compile::compile;
use crabby::utils::CrabbyError;

fn print_of(e: Expression) -> Statement {
    Statement::Expression(Expression::Call { function: "print".to_string(), arguments: vec![e] })
}

fn text(s: &str) -> Expression {
    Expression::String(s.to_string())
}

fn failure(p: &Program) -> String {
    match compile(p).1 {
        Err(CrabbyError::CompileError(m)) => m,
        other => panic!("expected an evaluation error, got {:?}", other),
    }
}

#[test]
fn fixed_count_loop_repeats_body() {
    let p = Program {
        statements: vec![Statement::Loop {
            count: Box::new(Expression::Integer(3)),
            body: Box::new(print_of(text("x"))),
        }],
    };
    let (out, r) = compile(&p);
    assert!(r.is_ok());
    assert_eq!(out, vec!["x", "x", "x"]);
}

#[test]
fn fixed_count_loop_ignores_minus_one() {
    let p = Program {
        statements: vec![Statement::Loop {
            count: Box::new(Expression::Integer(2)),
            body: Box::new(Statement::Block(vec![print_of(text("y")), Statement::Expression(Expression::Integer(-1))])),
        }],
    };
    assert_eq!(compile(&p).0, vec!["y", "y"]);
}

#[test]
fn for_in_binds_each_index() {
    let p = Program {
        statements: vec![Statement::ForIn {
            variable: "i".to_string(),
            iterator: Box::new(Expression::Range(Box::new(Expression::Integer(3)))),
            body: Box::new(print_of(Expression::Variable("i".to_string()))),
        }],
    };
    let (out, r) = compile(&p);
    assert!(r.is_ok());
    assert_eq!(out, vec!["0", "1", "2"]);
}

#[test]
fn loop_forms_need_integers() {
    let p = Program {
        statements: vec![Statement::Loop { count: Box::new(text("3")), body: Box::new(Statement::Block(vec![])) }],
    };
    assert_eq!(failure(&p), "Loop count must be an integer");
    let p = Program {
        statements: vec![Statement::ForIn {
            variable: "i".to_string(),
            iterator: Box::new(text("3")),
            body: Box::new(Statement::Block(vec![])),
        }],
    };
    assert_eq!(failure(&p), "Iterator must be a range");
    let p = Program { statements: vec![print_of(Expression::Range(Box::new(text("3"))))] };
    assert_eq!(failure(&p), "Range argument must be an integer");
}

#[test]
fn public_marker_is_stripped_from_bound_names() {
    let p = Program {
        statements: vec![
            Statement::Let { name: "pub x".to_string(), value: Box::new(Expression::Integer(5)) },
            print_of(Expression::Variable("x".to_string())),
        ],
    };
    let (out, r) = compile(&p);
    assert!(r.is_ok());
    assert_eq!(out, vec!["5"]);
}
