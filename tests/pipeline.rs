use crabby::compile::run;
use crabby::utils::CrabbyError;

fn lines(source: &str) -> Vec<String> {
    let (out, r) = run(source);
    assert!(r.is_ok(), "unexpected error: {:?}", r);
    out
}

fn evaluation_error(source: &str) -> (Vec<String>, String) {
    let (out, r) = run(source);
    match r {
        Err(CrabbyError::CompileError(m)) => (out, m),
        other => panic!("expected an evaluation error, got {:?}", other),
    }
}

#[test]
fn let_bindings_add() {
    assert_eq!(lines("let x = 2\nlet y = 3\nprint(x + y)"), vec!["5"]);
}

#[test]
fn named_function_returns_sum() {
    assert_eq!(lines("def add(a, b): { return a + b }\nprint(add(2,3))"), vec!["5"]);
}

#[test]
fn division_by_zero_prints_nothing() {
    let (out, m) = evaluation_error("print(5 / 0)");
    assert!(out.is_empty());
    assert_eq!(m, "Division by zero");
}

#[test]
fn division_truncates_toward_zero() {
    assert_eq!(lines("print(7 / 2)"), vec!["3"]);
    assert_eq!(lines("print(0 - 7 / 2)"), vec!["-3"]);
    assert_eq!(lines("print(7 / (0 - 2))"), vec!["-3"]);
}

#[test]
fn division_by_zero_whatever_the_dividend() {
    assert_eq!(evaluation_error("print(0 / 0)").1, "Division by zero");
    assert_eq!(evaluation_error("print((0 - 9) / 0)").1, "Division by zero");
}

#[test]
fn operators_run_left_to_right() {
    assert_eq!(lines("print(2 + 3 * 4)"), vec!["20"]);
    assert_eq!(lines("print(2 + (3 * 4))"), vec!["14"]);
}

#[test]
fn strings_concatenate_and_dot_join() {
    assert_eq!(lines("print(\"ab\" + \"cd\")"), vec!["abcd"]);
    assert_eq!(lines("print(\"a\" . \"b\")"), vec!["a.b"]);
}

#[test]
fn string_plus_number_renders_the_number() {
    assert_eq!(lines("print(\"n=\" + 42)"), vec!["n=42"]);
    assert_eq!(lines("print(42 + \"!\")"), vec!["42!"]);
}

#[test]
fn print_renders_each_kind_on_one_line() {
    assert_eq!(lines("print(42)\nprint(0 - 17)\nprint(\"hi there\")"), vec!["42", "-17", "hi there"]);
    assert_eq!(lines("let f = lambda(a): { return a }\nprint(f)"), vec!["<lambda>"]);
}

#[test]
fn print_takes_one_argument() {
    assert_eq!(evaluation_error("print(1, 2)").1, "print takes exactly one argument");
}

#[test]
fn wrong_arity_names_function_and_counts() {
    let (_, m) = evaluation_error("def f(a): { return a }\nprint(f(1, 2))");
    assert_eq!(m, "Function f expects 1 arguments, got 2");
    let (_, m) = evaluation_error("def g(a, b): { return a }\nprint(g(1))");
    assert_eq!(m, "Function g expects 2 arguments, got 1");
}

#[test]
fn lambda_wrong_arity_errors() {
    let (_, m) = evaluation_error("let f = lambda(a): { return a }\nprint(f())");
    assert_eq!(m, "Lambda expects 1 arguments, got 0");
}

#[test]
fn named_function_cannot_see_caller_variables() {
    let (out, m) = evaluation_error("let x = 1\ndef f(): { return x }\nprint(f())");
    assert!(out.is_empty());
    assert_eq!(m, "Undefined variable: x");
}

#[test]
fn lambda_shares_caller_environment() {
    assert_eq!(lines("let f = lambda(y): { return y + 1 }\nprint(f(5))"), vec!["6"]);
    assert_eq!(lines("let f = lambda(y): { return y + 1 }\nprint(f(5))\nprint(y)"), vec!["6", "5"]);
}

#[test]
fn undefined_names_are_errors() {
    assert_eq!(evaluation_error("print(z)").1, "Undefined variable: z");
    assert_eq!(evaluation_error("nothing(1)").1, "Undefined function: nothing");
}

#[test]
fn integer_equality_is_an_invalid_operation() {
    assert_eq!(evaluation_error("print(1 == 1)").1, "Invalid operation");
    assert_eq!(evaluation_error("print(\"a\" == \"a\")").1, "Invalid operation");
    assert_eq!(evaluation_error("print(1 . 2)").1, "Invalid operation");
}

#[test]
fn integer_overflow_is_reported() {
    assert_eq!(evaluation_error("print(9223372036854775807 + 1)").1, "Integer overflow");
    assert_eq!(lines("print(9223372036854775807)"), vec!["9223372036854775807"]);
}

#[test]
fn if_treats_zero_as_false() {
    assert_eq!(lines("if 0: { print(1) } else { print(2) }"), vec!["2"]);
    assert_eq!(lines("if 7: { print(1) } else { print(2) }"), vec!["1"]);
    assert_eq!(lines("if \"\": { print(1) }"), vec!["1"]);
    assert!(lines("if 0: { print(1) }").is_empty());
}

#[test]
fn while_counts_down() {
    let src = "let n = 3\nwhile n: {\n  print(n)\n  let n = n - 1\n}";
    assert_eq!(lines(src), vec!["3", "2", "1"]);
}

#[test]
fn while_stops_on_minus_one() {
    let src = "let n = 5\nwhile n: {\n  print(n)\n  let n = n - 1\n  0 - 1\n}";
    assert_eq!(lines(src), vec!["5"]);
}

#[test]
fn block_runs_past_return() {
    let src = "def f(): {\n  return 1\n  print(9)\n}\nprint(f())";
    assert_eq!(lines(src), vec!["9", "0"]);
}

#[test]
fn function_without_result_yields_zero() {
    assert_eq!(lines("def f(): { let a = 1 }\nprint(f())"), vec!["0"]);
}

#[test]
fn output_before_an_error_is_kept() {
    let (out, m) = evaluation_error("print(1)\nprint(2 / 0)\nprint(3)");
    assert_eq!(out, vec!["1"]);
    assert_eq!(m, "Division by zero");
}

#[test]
fn lexer_error_reaches_the_caller() {
    let (out, r) = run("print(1) @");
    assert!(out.is_empty());
    assert!(matches!(r, Err(CrabbyError::LexerError { .. })));
}

#[test]
fn parser_error_reaches_the_caller() {
    let (out, r) = run("let = 1");
    assert!(out.is_empty());
    assert!(matches!(r, Err(CrabbyError::ParserError { .. })));
}
