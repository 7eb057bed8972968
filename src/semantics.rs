use crate::ast::{BinaryOp, Expression, Statement};
use crate::table::Tab;
use crate::text::{int_text, names};
use crate::utils::Fault;
use vstd::prelude::*;

verus! {

/// A function as a value: its parameter names and its body.
pub struct Closure {
    pub params: Seq<Seq<char>>,
    pub body: Statement,
}

/// A runtime value.
pub enum Val {
    Int(i64),
    Str(Seq<char>),
    Lam(Closure),
}

/// The exported surface of a unit: public and private bindings.
pub struct ModuleModel {
    pub public: Tab<Val>,
    pub private: Tab<Val>,
}

/// A registered source unit: the lines it printed while it was evaluated, and
/// its module or the error that stopped it.
pub struct UnitModel {
    pub output: Seq<Seq<char>>,
    pub result: Result<ModuleModel, Fault>,
}

/// The state of one evaluator instance.
pub struct State {
    pub vars: Tab<Val>,
    pub funcs: Tab<Closure>,
    pub module: ModuleModel,
    pub file: Option<Seq<char>>,
    pub output: Seq<Seq<char>>,
}

pub open spec fn empty_module() -> ModuleModel {
    ModuleModel { public: Tab::empty(), private: Tab::empty() }
}

/// The state of a fresh instance, as a named function call makes it.
pub open spec fn fresh_state(vars: Tab<Val>) -> State {
    State {
        vars,
        funcs: Tab::empty(),
        module: empty_module(),
        file: None,
        output: Seq::empty(),
    }
}

pub open spec fn msg_limit() -> Seq<char> {
    "Evaluation step limit exceeded"@
}

pub open spec fn msg_undefined_variable(name: Seq<char>) -> Seq<char> {
    "Undefined variable: "@ + name
}

pub open spec fn msg_undefined_function(name: Seq<char>) -> Seq<char> {
    "Undefined function: "@ + name
}

pub open spec fn msg_arity(name: Seq<char>, expected: int, got: int) -> Seq<char> {
    "Function "@ + name + " expects "@ + int_text(expected) + " arguments, got "@ + int_text(got)
}

pub open spec fn msg_lambda_arity(expected: int, got: int) -> Seq<char> {
    "Lambda expects "@ + int_text(expected) + " arguments, got "@ + int_text(got)
}

pub open spec fn msg_private(name: Seq<char>) -> Seq<char> {
    "Cannot import private item '"@ + name + "' from module"@
}

pub open spec fn msg_not_found(name: Seq<char>) -> Seq<char> {
    "Item '"@ + name + "' not found in module"@
}

pub open spec fn msg_unreadable(path: Seq<char>) -> Seq<char> {
    "Failed to read module '"@ + path + "'"@
}

/// The text that `print` writes for a value.
pub open spec fn render(v: Val) -> Seq<char> {
    match v {
        Val::Int(n) => int_text(n as int),
        Val::Str(s) => s,
        Val::Lam(_) => "<lambda>"@,
    }
}

pub open spec fn magnitude(a: int) -> nat {
    if a < 0 {
        (-a) as nat
    } else {
        a as nat
    }
}

/// Integer division rounding toward zero.
pub open spec fn trunc_div(a: int, b: int) -> int {
    let q = (magnitude(a) / magnitude(b)) as int;
    if (a < 0) == (b < 0) {
        q
    } else {
        -q
    }
}

pub open spec fn in_i64(x: int) -> bool {
    i64::MIN <= x <= i64::MAX
}

/// An integer result, or an overflow error where it leaves the 64-bit range.
pub open spec fn int_result(x: int) -> Result<Val, Fault> {
    if in_i64(x) {
        Ok(Val::Int(x as i64))
    } else {
        Err(Fault::Compile("Integer overflow"@))
    }
}

/// What a binary operator yields on two values.
pub open spec fn apply_binary(l: Val, op: BinaryOp, r: Val) -> Result<Val, Fault> {
    match (l, op, r) {
        (Val::Int(a), BinaryOp::Add, Val::Int(b)) => int_result(a + b),
        (Val::Int(a), BinaryOp::Sub, Val::Int(b)) => int_result(a - b),
        (Val::Int(a), BinaryOp::Mul, Val::Int(b)) => int_result(a * b),
        (Val::Int(a), BinaryOp::Div, Val::Int(b)) => if b == 0 {
            Err(Fault::Compile("Division by zero"@))
        } else {
            int_result(trunc_div(a as int, b as int))
        },
        (Val::Str(a), BinaryOp::Add, Val::Str(b)) => Ok(Val::Str(a + b)),
        (Val::Str(a), BinaryOp::Dot, Val::Str(b)) => Ok(Val::Str(a + seq!['.'] + b)),
        (Val::Str(a), BinaryOp::Add, other) => Ok(Val::Str(a + render(other))),
        (other, BinaryOp::Add, Val::Str(b)) => Ok(Val::Str(render(other) + b)),
        _ => Err(Fault::Compile("Invalid operation"@)),
    }
}

pub open spec fn pub_marker() -> Seq<char> {
    seq!['p', 'u', 'b', ' ']
}

/// Whether a bound name carries the public marker.
pub open spec fn has_pub(s: Seq<char>) -> bool {
    s.len() >= 4 && s.subrange(0, 4) == pub_marker()
}

/// The name with every leading public marker removed.
pub open spec fn strip_pub(s: Seq<char>) -> Seq<char>
    decreases s.len(),
{
    if has_pub(s) {
        strip_pub(s.subrange(4, s.len() as int))
    } else {
        s
    }
}

/// Records a top-level binding in the public or the private table.
pub open spec fn export(m: ModuleModel, raw: Seq<char>, v: Val) -> ModuleModel {
    if has_pub(raw) {
        ModuleModel { public: m.public.put(strip_pub(raw), v), private: m.private }
    } else {
        ModuleModel { public: m.public, private: m.private.put(strip_pub(raw), v) }
    }
}

pub open spec fn is_relative(p: Seq<char>) -> bool {
    (p.len() >= 2 && p.subrange(0, 2) == seq!['.', '/']) || (p.len() >= 3 && p.subrange(0, 3)
        == seq!['.', '.', '/'])
}

/// Index of the last '/' before position `i`, or -1.
pub open spec fn last_slash(f: Seq<char>, i: int) -> int
    decreases i,
{
    if i <= 0 {
        -1
    } else if f[i - 1] == '/' {
        i - 1
    } else {
        last_slash(f, i - 1)
    }
}

/// Where an import looks: a relative path is taken from the importing file's directory.
pub open spec fn resolve(file: Option<Seq<char>>, p: Seq<char>) -> Seq<char> {
    match file {
        Some(f) => if is_relative(p) {
            f.subrange(0, last_slash(f, f.len() as int) + 1) + p
        } else {
            p
        },
        None => p,
    }
}

pub open spec fn limit<T>(s: State) -> (State, Result<T, Fault>) {
    (s, Err(Fault::Compile(msg_limit())))
}

pub open spec fn call_result(r: Result<Option<Val>, Fault>) -> Result<Val, Fault> {
    match r {
        Ok(Some(v)) => Ok(v),
        Ok(None) => Ok(Val::Int(0)),
        Err(f) => Err(f),
    }
}

/// Evaluates an expression. Each nested step spends one unit of `fuel`.
pub open spec fn eval_expr(s: State, e: Expression, u: Tab<UnitModel>, fuel: nat) -> (State, Result<Val, Fault>)
    decreases fuel,
{
    if fuel == 0 {
        limit(s)
    } else {
        let f = (fuel - 1) as nat;
        match e {
            Expression::Integer(n) => (s, Ok(Val::Int(n))),
            Expression::String(t) => (s, Ok(Val::Str(t@))),
            Expression::Variable(name) => match s.vars.get(name@) {
                Some(v) => (s, Ok(v)),
                None => (s, Err(Fault::Compile(msg_undefined_variable(name@)))),
            },
            Expression::Range(inner) => {
                let (s1, r) = eval_expr(s, *inner, u, f);
                match r {
                    Ok(Val::Int(n)) => (s1, Ok(Val::Int(n))),
                    Ok(_) => (s1, Err(Fault::Compile("Range argument must be an integer"@))),
                    Err(x) => (s1, Err(x)),
                }
            },
            Expression::Binary { left, operator, right } => {
                let (s1, l) = eval_expr(s, *left, u, f);
                match l {
                    Err(x) => (s1, Err(x)),
                    Ok(lv) => {
                        let (s2, r) = eval_expr(s1, *right, u, f);
                        match r {
                            Err(x) => (s2, Err(x)),
                            Ok(rv) => (s2, apply_binary(lv, operator, rv)),
                        }
                    },
                }
            },
            Expression::Call { function, arguments } => eval_call(s, function@, arguments@, u, f),
            Expression::Lambda { params, body } => (
                s,
                Ok(Val::Lam(Closure { params: names(params@), body: *body })),
            ),
        }
    }
}

/// Evaluates a call of `name`: `print`, then a lambda bound to the name, then a
/// named function.
pub open spec fn eval_call(
    s: State,
    name: Seq<char>,
    args: Seq<Expression>,
    u: Tab<UnitModel>,
    fuel: nat,
) -> (State, Result<Val, Fault>)
    decreases fuel,
{
    if fuel == 0 {
        limit(s)
    } else {
        let f = (fuel - 1) as nat;
        if name == "print"@ {
            if args.len() != 1 {
                (s, Err(Fault::Compile("print takes exactly one argument"@)))
            } else {
                let (s1, r) = eval_expr(s, args[0], u, f);
                match r {
                    Ok(v) => (State { output: s1.output.push(render(v)), ..s1 }, Ok(Val::Int(0))),
                    Err(x) => (s1, Err(x)),
                }
            }
        } else {
            match s.vars.get(name) {
                Some(Val::Lam(c)) => if args.len() != c.params.len() {
                    (
                        s,
                        Err(
                            Fault::Compile(
                                msg_lambda_arity(c.params.len() as int, args.len() as int),
                            ),
                        ),
                    )
                } else {
                    let (s1, r) = eval_bind(s, c.params, args, 0, u, f);
                    match r {
                        Err(x) => (s1, Err(x)),
                        Ok(_) => {
                            let (s2, r2) = eval_stmt(s1, c.body, u, f);
                            (s2, call_result(r2))
                        },
                    }
                },
                _ => eval_named(s, name, args, u, f),
            }
        }
    }
}

/// Calls the named function `name` in a fresh instance whose variables are its
/// parameters alone.
pub open spec fn eval_named(
    s: State,
    name: Seq<char>,
    args: Seq<Expression>,
    u: Tab<UnitModel>,
    fuel: nat,
) -> (State, Result<Val, Fault>)
    decreases fuel,
{
    if fuel == 0 {
        limit(s)
    } else {
        let f = (fuel - 1) as nat;
        match s.funcs.get(name) {
            None => (s, Err(Fault::Compile(msg_undefined_function(name)))),
            Some(c) => if args.len() != c.params.len() {
                (s, Err(Fault::Compile(msg_arity(name, c.params.len() as int, args.len() as int))))
            } else {
                let (s1, frame, r) = eval_args(s, Tab::empty(), c.params, args, 0, u, f);
                match r {
                    Err(x) => (s1, Err(x)),
                    Ok(_) => {
                        let (g, r2) = eval_stmt(fresh_state(frame), c.body, u, f);
                        (State { output: s1.output + g.output, ..s1 }, call_result(r2))
                    },
                }
            },
        }
    }
}

/// Evaluates the arguments from `i` on in the caller and binds them, in the
/// caller's own variables, to the lambda's parameters.
pub open spec fn eval_bind(
    s: State,
    params: Seq<Seq<char>>,
    args: Seq<Expression>,
    i: int,
    u: Tab<UnitModel>,
    fuel: nat,
) -> (State, Result<(), Fault>)
    decreases fuel,
{
    if fuel == 0 {
        limit(s)
    } else if i < 0 || i >= args.len() {
        (s, Ok(()))
    } else {
        let f = (fuel - 1) as nat;
        let (s1, r) = eval_expr(s, args[i], u, f);
        match r {
            Err(x) => (s1, Err(x)),
            Ok(v) => eval_bind(State { vars: s1.vars.put(params[i], v), ..s1 }, params, args, i + 1, u, f),
        }
    }
}

/// Evaluates the arguments from `i` on in the caller and binds them in `frame`,
/// the variables of the callee's fresh instance.
pub open spec fn eval_args(
    s: State,
    frame: Tab<Val>,
    params: Seq<Seq<char>>,
    args: Seq<Expression>,
    i: int,
    u: Tab<UnitModel>,
    fuel: nat,
) -> (State, Tab<Val>, Result<(), Fault>)
    decreases fuel,
{
    if fuel == 0 {
        (s, frame, Err(Fault::Compile(msg_limit())))
    } else if i < 0 || i >= args.len() {
        (s, frame, Ok(()))
    } else {
        let f = (fuel - 1) as nat;
        let (s1, r) = eval_expr(s, args[i], u, f);
        match r {
            Err(x) => (s1, frame, Err(x)),
            Ok(v) => eval_args(s1, frame.put(params[i], v), params, args, i + 1, u, f),
        }
    }
}

/// Executes a statement; its result is the value it reports, if any.
pub open spec fn eval_stmt(s: State, st: Statement, u: Tab<UnitModel>, fuel: nat) -> (State, Result<Option<Val>, Fault>)
    decreases fuel,
{
    if fuel == 0 {
        limit(s)
    } else {
        let f = (fuel - 1) as nat;
        match st {
            Statement::FunctionDef { name, params, body } => {
                let c = Closure { params: names(params@), body: *body };
                (
                    State {
                        module: export(s.module, name@, Val::Lam(c)),
                        funcs: s.funcs.put(strip_pub(name@), c),
                        ..s
                    },
                    Ok(None),
                )
            },
            Statement::Let { name, value } => {
                let (s1, r) = eval_expr(s, *value, u, f);
                match r {
                    Ok(v) => (
                        State {
                            module: export(s1.module, name@, v),
                            vars: s1.vars.put(strip_pub(name@), v),
                            ..s1
                        },
                        Ok(None),
                    ),
                    Err(x) => (s1, Err(x)),
                }
            },
            Statement::Return(e) => {
                let (s1, r) = eval_expr(s, *e, u, f);
                match r {
                    Ok(v) => (s1, Ok(Some(v))),
                    Err(x) => (s1, Err(x)),
                }
            },
            Statement::If { condition, then_branch, else_branch } => {
                let (s1, r) = eval_expr(s, *condition, u, f);
                match r {
                    Err(x) => (s1, Err(x)),
                    Ok(v) => if v == Val::Int(0) {
                        match else_branch {
                            Some(b) => eval_stmt(s1, *b, u, f),
                            None => (s1, Ok(None)),
                        }
                    } else {
                        eval_stmt(s1, *then_branch, u, f)
                    },
                }
            },
            Statement::While { condition, body } => eval_while(s, *condition, *body, u, f),
            Statement::Loop { count, body } => {
                let (s1, r) = eval_expr(s, *count, u, f);
                match r {
                    Ok(Val::Int(n)) => eval_repeat(s1, *body, n as int, u, f),
                    Ok(_) => (s1, Err(Fault::Compile("Loop count must be an integer"@))),
                    Err(x) => (s1, Err(x)),
                }
            },
            Statement::ForIn { variable, iterator, body } => {
                let (s1, r) = eval_expr(s, *iterator, u, f);
                match r {
                    Ok(Val::Int(n)) => eval_for(s1, variable@, *body, 0, n as int, u, f),
                    Ok(_) => (s1, Err(Fault::Compile("Iterator must be a range"@))),
                    Err(x) => (s1, Err(x)),
                }
            },
            Statement::Import { name, source } => match source {
                None => (s, Err(Fault::Compile("Standard library imports not yet implemented"@))),
                Some(p) => match u.get(resolve(s.file, p@)) {
                    None => (s, Err(Fault::Compile(msg_unreadable(p@)))),
                    Some(unit) => {
                        let s1 = State { output: s.output + unit.output, ..s };
                        match unit.result {
                            Err(x) => (s1, Err(x)),
                            Ok(m) => match m.public.get(name@) {
                                Some(v) => (State { vars: s1.vars.put(name@, v), ..s1 }, Ok(None)),
                                None => if m.private.contains(name@) {
                                    (s1, Err(Fault::Compile(msg_private(name@))))
                                } else {
                                    (s1, Err(Fault::Compile(msg_not_found(name@))))
                                },
                            },
                        }
                    },
                },
            },
            Statement::Block(stmts) => eval_block(s, stmts@, 0, None, u, f),
            Statement::Expression(e) => {
                let (s1, r) = eval_expr(s, e, u, f);
                match r {
                    Ok(v) => (s1, Ok(Some(v))),
                    Err(x) => (s1, Err(x)),
                }
            },
        }
    }
}

/// Executes the statements of a block from `i` on; the block reports what its
/// last statement reported.
pub open spec fn eval_block(
    s: State,
    stmts: Seq<Statement>,
    i: int,
    last: Option<Val>,
    u: Tab<UnitModel>,
    fuel: nat,
) -> (State, Result<Option<Val>, Fault>)
    decreases fuel,
{
    if fuel == 0 {
        limit(s)
    } else if i < 0 || i >= stmts.len() {
        (s, Ok(last))
    } else {
        let f = (fuel - 1) as nat;
        let (s1, r) = eval_stmt(s, stmts[i], u, f);
        match r {
            Err(x) => (s1, Err(x)),
            Ok(v) => eval_block(s1, stmts, i + 1, v, u, f),
        }
    }
}

/// Runs a while loop: it stops when the condition is the integer 0, or when
/// the body reports the integer -1.
pub open spec fn eval_while(s: State, c: Expression, b: Statement, u: Tab<UnitModel>, fuel: nat) -> (State, Result<Option<Val>, Fault>)
    decreases fuel,
{
    if fuel == 0 {
        limit(s)
    } else {
        let f = (fuel - 1) as nat;
        let (s1, r) = eval_expr(s, c, u, f);
        match r {
            Err(x) => (s1, Err(x)),
            Ok(v) => if v == Val::Int(0) {
                (s1, Ok(None))
            } else {
                let (s2, r2) = eval_stmt(s1, b, u, f);
                match r2 {
                    Err(x) => (s2, Err(x)),
                    Ok(w) => if w == Some(Val::Int(-1i64)) {
                        (s2, Ok(None))
                    } else {
                        eval_while(s2, c, b, u, f)
                    },
                }
            },
        }
    }
}

/// Runs the body `n` more times.
pub open spec fn eval_repeat(s: State, b: Statement, n: int, u: Tab<UnitModel>, fuel: nat) -> (State, Result<Option<Val>, Fault>)
    decreases fuel,
{
    if fuel == 0 {
        limit(s)
    } else if n <= 0 {
        (s, Ok(None))
    } else {
        let f = (fuel - 1) as nat;
        let (s1, r) = eval_stmt(s, b, u, f);
        match r {
            Err(x) => (s1, Err(x)),
            Ok(_) => eval_repeat(s1, b, n - 1, u, f),
        }
    }
}

/// Runs the body with `var` bound to each of `i`, ..., `n - 1` in turn.
pub open spec fn eval_for(
    s: State,
    var: Seq<char>,
    b: Statement,
    i: int,
    n: int,
    u: Tab<UnitModel>,
    fuel: nat,
) -> (State, Result<Option<Val>, Fault>)
    decreases fuel,
{
    if fuel == 0 {
        limit(s)
    } else if i >= n || !in_i64(i) {
        (s, Ok(None))
    } else {
        let f = (fuel - 1) as nat;
        let (s1, r) = eval_stmt(State { vars: s.vars.put(var, Val::Int(i as i64)), ..s }, b, u, f);
        match r {
            Err(x) => (s1, Err(x)),
            Ok(_) => eval_for(s1, var, b, i + 1, n, u, f),
        }
    }
}

} // verus!
