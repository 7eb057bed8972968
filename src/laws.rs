use crate::ast::{BinaryOp, Expression, Statement};
use crate::semantics::{
    eval_call, eval_expr, eval_stmt, fresh_state, magnitude, msg_arity, msg_lambda_arity, msg_private,
    msg_undefined_variable, resolve, trunc_div, Closure, ModuleModel, State, UnitModel, Val,
};
use crate::table::{lemma_put_get, Tab};
use crate::text::int_text;
use crate::utils::Fault;
use vstd::prelude::*;

verus! {

/// `a / b` on integers divides rounding toward zero: the quotient times `b`
/// leaves a remainder smaller than `b` with the sign of `a`. A zero divisor is
/// always the "Division by zero" error, whatever `a` is.
pub proof fn law_division(s: State, a: i64, b: i64, u: Tab<UnitModel>, fuel: nat)
    requires
        fuel >= 2,
        !(a == i64::MIN && b == -1),
    ensures
        ({
            let e = Expression::Binary {
                left: Box::new(Expression::Integer(a)),
                operator: BinaryOp::Div,
                right: Box::new(Expression::Integer(b)),
            };
            eval_expr(s, e, u, fuel) == (s, if b == 0 {
                Err::<Val, Fault>(Fault::Compile("Division by zero"@))
            } else {
                Ok::<Val, Fault>(Val::Int(trunc_div(a as int, b as int) as i64))
            })
        }),
        b != 0 ==> i64::MIN <= trunc_div(a as int, b as int) <= i64::MAX,
        b != 0 ==> ({
            let q = trunc_div(a as int, b as int);
            let r = a - q * b;
            &&& magnitude(r) < magnitude(b as int)
            &&& (r == 0 || (r < 0) == (a < 0))
        }),
{
    reveal_with_fuel(eval_expr, 2);
    if b != 0 {
        let ma = magnitude(a as int) as int;
        let mb = magnitude(b as int) as int;
        let q0 = ma / mb;
        let r0 = ma % mb;
        assert(ma == q0 * mb + r0 && 0 <= r0 < mb) by (nonlinear_arith)
            requires
                mb > 0,
                ma >= 0,
                q0 == ma / mb,
                r0 == ma % mb,
        ;
        assert(0 <= q0 <= ma) by (nonlinear_arith)
            requires
                mb >= 1,
                ma >= 0,
                q0 == ma / mb,
        ;
        if mb == 1 {
            assert(q0 == ma) by (nonlinear_arith)
                requires
                    mb == 1,
                    q0 == ma / mb,
            ;
        } else {
            assert(q0 * 2 <= ma) by (nonlinear_arith)
                requires
                    mb >= 2,
                    ma >= 0,
                    q0 == ma / mb,
                    ma == q0 * mb + r0,
                    r0 >= 0,
            ;
        }
        let q = trunc_div(a as int, b as int);
        if (a < 0) == (b < 0) {
            assert(q == q0);
            if a < 0 {
                assert(a - q * b == -r0) by (nonlinear_arith)
                    requires
                        a == -ma,
                        b == -mb,
                        q == q0,
                        ma == q0 * mb + r0,
                ;
            } else {
                assert(a - q * b == r0) by (nonlinear_arith)
                    requires
                        a == ma,
                        b == mb,
                        q == q0,
                        ma == q0 * mb + r0,
                ;
            }
        } else {
            assert(q == -q0);
            if a < 0 {
                assert(a - q * b == -r0) by (nonlinear_arith)
                    requires
                        a == -ma,
                        b == mb,
                        q == -q0,
                        ma == q0 * mb + r0,
                ;
            } else {
                assert(a - q * b == r0) by (nonlinear_arith)
                    requires
                        a == ma,
                        b == -mb,
                        q == -q0,
                        ma == q0 * mb + r0,
                ;
            }
        }
    }
}

/// `s + t` on two strings is their concatenation, and `s . t` is `s`, a dot, then `t`.
pub proof fn law_string_join(s: State, x: String, y: String, u: Tab<UnitModel>, fuel: nat)
    requires
        fuel >= 2,
    ensures
        eval_expr(
            s,
            Expression::Binary {
                left: Box::new(Expression::String(x)),
                operator: BinaryOp::Add,
                right: Box::new(Expression::String(y)),
            },
            u,
            fuel,
        ) == (s, Ok::<Val, Fault>(Val::Str(x@ + y@))),
        eval_expr(
            s,
            Expression::Binary {
                left: Box::new(Expression::String(x)),
                operator: BinaryOp::Dot,
                right: Box::new(Expression::String(y)),
            },
            u,
            fuel,
        ) == (s, Ok::<Val, Fault>(Val::Str(x@ + seq!['.'] + y@))),
{
    reveal_with_fuel(eval_expr, 2);
}

/// `print` of an integer literal writes exactly one line, the decimal text of
/// the integer; of a string literal, exactly one line, the string itself. The
/// call yields 0 and changes nothing else.
pub proof fn law_print(s: State, f: String, args: Vec<Expression>, u: Tab<UnitModel>, fuel: nat)
    requires
        fuel >= 3,
        f@ == "print"@,
        args@.len() == 1,
        args@[0] is Integer || args@[0] is String,
    ensures
        ({
            let line = match args@[0] {
                Expression::Integer(n) => int_text(n as int),
                Expression::String(t) => t@,
                _ => Seq::empty(),
            };
            eval_expr(s, Expression::Call { function: f, arguments: args }, u, fuel) == (
                State { output: s.output.push(line), ..s },
                Ok::<Val, Fault>(Val::Int(0)),
            )
        }),
{
    let f1 = (fuel - 1) as nat;
    let f2 = (f1 - 1) as nat;
    let v = match args@[0] {
        Expression::Integer(n) => Val::Int(n),
        Expression::String(t) => Val::Str(t@),
        _ => Val::Int(0),
    };
    assert(eval_expr(s, args@[0], u, f2) == (s, Ok::<Val, Fault>(v)));
    assert(eval_expr(s, Expression::Call { function: f, arguments: args }, u, fuel) == eval_call(
        s,
        f@,
        args@,
        u,
        f1,
    ));
}

/// A named function called with a number of arguments other than its number
/// of parameters is an error that names the function, the expected count and
/// the count given; nothing is evaluated. A lambda called so is an error with
/// both counts.
pub proof fn law_arity(s: State, name: Seq<char>, args: Seq<Expression>, u: Tab<UnitModel>, fuel: nat)
    requires
        fuel >= 2,
        name != "print"@,
    ensures
        (match s.vars.get(name) {
            Some(Val::Lam(c)) => args.len() != c.params.len() ==> eval_call(s, name, args, u, fuel) == (
                s,
                Err::<Val, Fault>(
                    Fault::Compile(msg_lambda_arity(c.params.len() as int, args.len() as int)),
                ),
            ),
            _ => match s.funcs.get(name) {
                Some(c) => args.len() != c.params.len() ==> eval_call(s, name, args, u, fuel) == (
                    s,
                    Err::<Val, Fault>(
                        Fault::Compile(msg_arity(name, c.params.len() as int, args.len() as int)),
                    ),
                ),
                None => true,
            },
        }),
{
    reveal_with_fuel(eval_call, 1);
    reveal_with_fuel(crate::semantics::eval_named, 1);
}

/// A named function runs in a fresh environment: a body that reads `x`, which
/// it never binds, fails with "Undefined variable: x" even when the caller has
/// bound `x`.
pub proof fn law_isolation(s: State, name: Seq<char>, x: String, u: Tab<UnitModel>, fuel: nat)
    requires
        fuel >= 4,
        name != "print"@,
        !(s.vars.get(name) matches Some(Val::Lam(_))),
        s.funcs.get(name) matches Some(c) && c.params.len() == 0 && c.body == Statement::Return(
            Box::new(Expression::Variable(x)),
        ),
    ensures
        eval_call(s, name, Seq::empty(), u, fuel) == (
            s,
            Err::<Val, Fault>(Fault::Compile(msg_undefined_variable(x@))),
        ),
{
    let f1 = (fuel - 1) as nat;
    let f2 = (f1 - 1) as nat;
    let c = s.funcs.get(name)->0;
    let none = Tab::<Val>::empty();
    let err = Err::<Val, Fault>(Fault::Compile(msg_undefined_variable(x@)));
    assert(crate::semantics::eval_args(s, none, c.params, Seq::empty(), 0, u, f2) == (
        s,
        none,
        Ok::<(), Fault>(()),
    ));
    let g = fresh_state(none);
    assert(g.vars.get(x@) is None);
    assert(eval_expr(g, Expression::Variable(x), u, (f2 - 1) as nat) == (g, err));
    assert(eval_stmt(g, c.body, u, f2) == (g, Err::<Option<Val>, Fault>(Fault::Compile(msg_undefined_variable(x@)))));
    assert(s.output + g.output =~= s.output);
    assert(crate::semantics::eval_named(s, name, Seq::empty(), u, f1) == (s, err));
}

/// A lambda runs in its caller's environment: `f = lambda(y): { return y + 1 }`
/// called as `f(n)` yields `n + 1`, and leaves `y` bound to `n` in the caller.
pub proof fn law_lambda(
    s: State,
    f: Seq<char>,
    y: String,
    n: i64,
    args: Seq<Expression>,
    u: Tab<UnitModel>,
    fuel: nat,
)
    requires
        fuel >= 6,
        f != "print"@,
        n < i64::MAX,
        s.vars.wf(),
        args == seq![Expression::Integer(n)],
        s.vars.get(f) == Some(
            Val::Lam(
                Closure {
                    params: seq![y@],
                    body: Statement::Return(
                        Box::new(
                            Expression::Binary {
                                left: Box::new(Expression::Variable(y)),
                                operator: BinaryOp::Add,
                                right: Box::new(Expression::Integer(1)),
                            },
                        ),
                    ),
                },
            ),
        ),
    ensures
        eval_call(s, f, args, u, fuel) == (
            State { vars: s.vars.put(y@, Val::Int(n)), ..s },
            Ok::<Val, Fault>(Val::Int((n + 1) as i64)),
        ),
{
    let f1 = (fuel - 1) as nat;
    let c = Closure {
        params: seq![y@],
        body: Statement::Return(
            Box::new(
                Expression::Binary {
                    left: Box::new(Expression::Variable(y)),
                    operator: BinaryOp::Add,
                    right: Box::new(Expression::Integer(1)),
                },
            ),
        ),
    };
    let s1 = State { vars: s.vars.put(y@, Val::Int(n)), ..s };
    assert(eval_expr(s, Expression::Integer(n), u, (f1 - 1) as nat) == (s, Ok::<Val, Fault>(Val::Int(n))));
    assert(crate::semantics::eval_bind(s1, c.params, args, 1, u, (f1 - 1) as nat) == (s1, Ok::<(), Fault>(())));
    assert(crate::semantics::eval_bind(s, c.params, args, 0, u, f1) == (s1, Ok::<(), Fault>(())));
    lemma_put_get(s.vars, y@, Val::Int(n), y@);
    let sum = Expression::Binary {
        left: Box::new(Expression::Variable(y)),
        operator: BinaryOp::Add,
        right: Box::new(Expression::Integer(1)),
    };
    assert(eval_expr(s1, Expression::Variable(y), u, (f1 - 2) as nat) == (s1, Ok::<Val, Fault>(Val::Int(n))));
    assert(eval_expr(s1, Expression::Integer(1), u, (f1 - 2) as nat) == (s1, Ok::<Val, Fault>(Val::Int(1))));
    assert(eval_expr(s1, sum, u, (f1 - 1) as nat) == (s1, Ok::<Val, Fault>(Val::Int((n + 1) as i64))));
    assert(eval_stmt(s1, c.body, u, f1) == (s1, Ok::<Option<Val>, Fault>(Some(Val::Int((n + 1) as i64)))));
}

/// Importing a name that the unit binds privately, and not publicly, fails
/// with the "private item" error: never "not found", never success.
pub proof fn law_private_import(
    s: State,
    name: String,
    p: String,
    unit: UnitModel,
    m: ModuleModel,
    u: Tab<UnitModel>,
    fuel: nat,
)
    requires
        fuel >= 1,
        u.get(resolve(s.file, p@)) == Some(unit),
        unit.result == Ok::<ModuleModel, Fault>(m),
        !m.public.contains(name@),
        m.private.contains(name@),
    ensures
        eval_stmt(s, Statement::Import { name, source: Some(p) }, u, fuel).1 == Err::<Option<Val>, Fault>(
            Fault::Compile(msg_private(name@)),
        ),
{
    reveal_with_fuel(eval_stmt, 1);
}

} // verus!
