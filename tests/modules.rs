use crabby::ast::{Program, Statement};
use crabby::compile::Compiler;
use crabby::utils::CrabbyError;

fn import(name: &str, source: Option<&str>) -> Program {
    Program {
        statements: vec![Statement::Import {
            name: name.to_string(),
            source: source.map(|s| s.to_string()),
        }],
    }
}

fn message(r: Result<(), CrabbyError>) -> String {
    match r {
        Err(CrabbyError::CompileError(m)) => m,
        other => panic!("expected an evaluation error, got {:?}", other),
    }
}

#[test]
fn importing_a_private_item_fails() {
    let mut c = Compiler::new(Some("main.crab".to_string()));
    c.add_unit("lib.crab".to_string(), "let secret = 7\nprint(secret)");
    let m = message(c.compile(&import("secret", Some("lib.crab"))));
    assert_eq!(m, "Cannot import private item 'secret' from module");
    assert_eq!(c.output(), &vec!["7".to_string()]);
}

#[test]
fn importing_a_missing_item_fails() {
    let mut c = Compiler::new(None);
    c.add_unit("lib.crab".to_string(), "let a = 1");
    assert_eq!(message(c.compile(&import("b", Some("lib.crab")))), "Item 'b' not found in module");
}

#[test]
fn importing_an_unknown_unit_fails() {
    let mut c = Compiler::new(None);
    assert_eq!(message(c.compile(&import("a", Some("nowhere.crab")))), "Failed to read module 'nowhere.crab'");
}

#[test]
fn standard_library_import_is_not_implemented() {
    let mut c = Compiler::new(None);
    assert_eq!(message(c.compile(&import("a", None))), "Standard library imports not yet implemented");
}

#[test]
fn relative_import_resolves_against_the_file() {
    let mut c = Compiler::new(Some("src/main.crab".to_string()));
    c.add_unit("src/./lib.crab".to_string(), "let hidden = 1");
    let m = message(c.compile(&import("hidden", Some("./lib.crab"))));
    assert_eq!(m, "Cannot import private item 'hidden' from module");
}

#[test]
fn unit_errors_surface_at_import() {
    let mut c = Compiler::new(None);
    c.add_unit("bad.crab".to_string(), "print(1 / 0)");
    assert_eq!(message(c.compile(&import("x", Some("bad.crab")))), "Division by zero");
}

#[test]
fn functions_and_lets_compile_through_a_program() {
    let toks = crabby::lexer::tokenize("def twice(n): { return n * 2 }\nlet v = twice(21)\nprint(v)").unwrap();
    let program = crabby::parser::parse(toks).unwrap();
    let (out, r) = crabby::compile::compile(&program);
    assert!(r.is_ok());
    assert_eq!(out, vec!["42"]);
}
