use crate::ast::{deep_stmts, Expression, Program, Statement};
use crate::grammar::parse_tokens;
use crate::lexer::{lex, tokenize};
use crate::parser::parse;
use crate::semantics::{
    call_result, eval_args, eval_bind, eval_block, eval_call, eval_expr, eval_for,
    eval_named, eval_repeat, eval_stmt, eval_while, export, fresh_state, has_pub, is_relative,
    last_slash, msg_arity, msg_lambda_arity, pub_marker, resolve, strip_pub, State, UnitModel,
    Val,
};
use crate::table::{lemma_find_from_range, lemma_map_get, lemma_put_get, lemma_map_put, Tab, Table};
use crate::text::{
    copy_names, names, owned, push_digits, push_text, same_text, slice_text,
};
use crate::utils::{CrabbyError, Fault};
use crate::values::{
    apply_binary_op, fail, ftab, function_view, unit_view, value_view, ores, share, ures, utab, vres, vtab, Function, Module, Unit,
    Value,
};
use vstd::prelude::*;
use vstd::string::StrSliceExecFns;

verus! {

/// How many nested evaluation steps one run may take.
pub const STEP_LIMIT: u64 = 0xffff_ffff_ffff_ffff;

/// The outcome of a whole unit: the state it ends in and its result.
pub open spec fn eval_unit(s: State, stmts: Seq<Statement>, u: Tab<UnitModel>) -> (State, Result<(), Fault>) {
    let (s1, r) = eval_block(s, stmts, 0, None, u, STEP_LIMIT as nat);
    (
        s1,
        match r {
            Ok(_) => Ok(()),
            Err(x) => Err(x),
        },
    )
}

/// Whether `s` carries the public marker.
fn starts_with_pub(s: &str) -> (r: bool)
    ensures
        r == has_pub(s@),
{
    if s.unicode_len() < 4 {
        return false;
    }
    let r = s.get_char(0) == 'p' && s.get_char(1) == 'u' && s.get_char(2) == 'b' && s.get_char(3)
        == ' ';
    assert(r ==> s@.subrange(0, 4) =~= pub_marker());
    assert(s@.subrange(0, 4) == pub_marker() ==> s@.subrange(0, 4)[0] == 'p' && s@.subrange(
        0,
        4,
    )[1] == 'u' && s@.subrange(0, 4)[2] == 'b' && s@.subrange(0, 4)[3] == ' ');
    r
}

/// Splits a bound name into its visibility and the name without the marker.
pub fn split_pub(raw: &String) -> (r: (bool, String))
    ensures
        r.0 == has_pub(raw@),
        r.1@ == strip_pub(raw@),
{
    let public = starts_with_pub(raw.as_str());
    let mut cur = raw.clone();
    while starts_with_pub(cur.as_str())
        invariant
            strip_pub(cur@) == strip_pub(raw@),
        decreases cur@.len(),
    {
        let n = cur.as_str().unicode_len();
        cur = slice_text(cur.as_str(), 4, n);
    }
    (public, cur)
}

/// Resolves an import path against the importing file.
pub fn resolve_path(file: &Option<String>, p: &String) -> (r: String)
    ensures
        r@ == resolve(
            match file {
                Some(f) => Some(f@),
                None => None,
            },
            p@,
        ),
{
    match file {
        None => p.clone(),
        Some(f) => {
            let ps = p.as_str();
            let n = ps.unicode_len();
            let relative = (n >= 2 && ps.get_char(0) == '.' && ps.get_char(1) == '/') || (n >= 3
                && ps.get_char(0) == '.' && ps.get_char(1) == '.' && ps.get_char(2) == '/');
            proof {
                if n >= 2 && p@.subrange(0, 2) == seq!['.', '/'] {
                    assert(p@.subrange(0, 2)[0] == '.' && p@.subrange(0, 2)[1] == '/');
                }
                if n >= 3 && p@.subrange(0, 3) == seq!['.', '.', '/'] {
                    assert(p@.subrange(0, 3)[0] == '.' && p@.subrange(0, 3)[1] == '.' && p@.subrange(
                        0,
                        3,
                    )[2] == '/');
                }
                if n >= 2 && p@[0] == '.' && p@[1] == '/' {
                    assert(p@.subrange(0, 2) =~= seq!['.', '/']);
                }
                if n >= 3 && p@[0] == '.' && p@[1] == '.' && p@[2] == '/' {
                    assert(p@.subrange(0, 3) =~= seq!['.', '.', '/']);
                }
            }
            assert(relative == is_relative(p@));
            if !relative {
                return p.clone();
            }
            let fs = f.as_str();
            let mut i: usize = fs.unicode_len();
            loop
                invariant
                    fs@ == f@,
                    i <= f@.len(),
                    last_slash(f@, i as int) == last_slash(f@, f@.len() as int),
                ensures
                    i <= f@.len(),
                    i == 0 || f@[i - 1] == '/',
                    last_slash(f@, i as int) == last_slash(f@, f@.len() as int),
                decreases i,
            {
                if i == 0 {
                    break;
                }
                if fs.get_char(i - 1) == '/' {
                    break;
                }
                i = i - 1;
            }
            assert(last_slash(f@, f@.len() as int) + 1 == i);
            let mut r = slice_text(fs, 0, i);
            push_text(&mut r, ps);
            r
        },
    }
}

/// The registry is well formed, and so is every module in it.
pub open spec fn units_ok(units: Table<Unit>) -> bool {
    &&& units.model().wf()
    &&& forall|i: int| 0 <= i < units.vals@.len() ==> (#[trigger] units.vals@[i]).wf()
}

impl Unit {
    pub open spec fn wf(&self) -> bool {
        match self.result {
            Ok(m) => m.wf(),
            Err(_) => true,
        }
    }
}

impl Module {
    /// Records a binding in the public or the private table, by its marker.
    pub fn record(&mut self, raw: &String, v: Value)
        requires
            old(self).wf(),
        ensures
            final(self).wf(),
            final(self)@ == export(old(self)@, raw@, v@),
    {
        let (public, bare) = split_pub(raw);
        proof {
            lemma_map_put(self.public_items.model(), bare@, v, value_view());
            lemma_map_put(self.private_items.model(), bare@, v, value_view());
        }
        if public {
            self.public_items.put(bare, v);
        } else {
            self.private_items.put(bare, v);
        }
    }
}

/// One evaluator instance: variables, named functions, the module it exports,
/// the file it reads, the source units it may import, and the lines it printed.
pub struct Compiler {
    variables: Table<Value>,
    functions: Table<Function>,
    module: Module,
    current_file: Option<String>,
    units: Table<Unit>,
    output: Vec<String>,
}

impl View for Compiler {
    type V = State;

    closed spec fn view(&self) -> State {
        State {
            vars: vtab(self.variables),
            funcs: ftab(self.functions),
            module: self.module@,
            file: match self.current_file {
                Some(f) => Some(f@),
                None => None,
            },
            output: names(self.output@),
        }
    }
}

fn limit_error() -> (r: CrabbyError)
    ensures
        r@ == Fault::Compile(crate::semantics::msg_limit()),
{
    fail("Evaluation step limit exceeded")
}

fn lift(r: Result<Option<Value>, CrabbyError>) -> (v: Result<Value, CrabbyError>)
    ensures
        vres(v) == call_result(ores(r)),
{
    match r {
        Ok(Some(v)) => Ok(v),
        Ok(None) => Ok(Value::Integer(0)),
        Err(x) => Err(x),
    }
}

fn prefixed(prefix: &str, name: &String) -> (r: CrabbyError)
    ensures
        r@ == Fault::Compile(prefix@ + name@),
{
    let mut m = owned(prefix);
    push_text(&mut m, name.as_str());
    CrabbyError::CompileError(m)
}

fn with_name(prefix: &str, name: &String, suffix: &str) -> (r: CrabbyError)
    ensures
        r@ == Fault::Compile(prefix@ + name@ + suffix@),
{
    let mut m = owned(prefix);
    push_text(&mut m, name.as_str());
    push_text(&mut m, suffix);
    CrabbyError::CompileError(m)
}

fn arity_error(name: &String, expected: usize, got: usize) -> (r: CrabbyError)
    ensures
        r@ == Fault::Compile(msg_arity(name@, expected as int, got as int)),
{
    let mut m = owned("Function ");
    push_text(&mut m, name.as_str());
    push_text(&mut m, " expects ");
    push_digits(&mut m, expected as u64);
    push_text(&mut m, " arguments, got ");
    push_digits(&mut m, got as u64);
    CrabbyError::CompileError(m)
}

fn lambda_arity_error(expected: usize, got: usize) -> (r: CrabbyError)
    ensures
        r@ == Fault::Compile(msg_lambda_arity(expected as int, got as int)),
{
    let mut m = owned("Lambda expects ");
    push_digits(&mut m, expected as u64);
    push_text(&mut m, " arguments, got ");
    push_digits(&mut m, got as u64);
    CrabbyError::CompileError(m)
}

impl Compiler {
    pub closed spec fn wf(&self) -> bool {
        &&& self.variables.model().wf()
        &&& self.functions.model().wf()
        &&& self.module.wf()
        &&& units_ok(self.units)
    }

    /// The source units this instance may import, by resolved path.
    pub closed spec fn units_model(&self) -> Tab<UnitModel> {
        utab(self.units)
    }

    /// A fresh instance for the unit read from `file_path`.
    pub fn new(file_path: Option<String>) -> (r: Self)
        ensures
            r.wf(),
            r@ == (State {
                file: match file_path {
                    Some(f) => Some(f@),
                    None => None,
                },
                ..fresh_state(Tab::empty())
            }),
            r.units_model() == Tab::<UnitModel>::empty(),
    {
        let r = Compiler {
            variables: Table::new(),
            functions: Table::new(),
            module: Module::new(),
            current_file: file_path,
            units: Table::new(),
            output: Vec::new(),
        };
        assert(r@.vars.vals =~= Seq::<Val>::empty());
        assert(r@.funcs.vals =~= Seq::<crate::semantics::Closure>::empty());
        assert(r@.output =~= Seq::<Seq<char>>::empty());
        assert(r.units_model().vals =~= Seq::<UnitModel>::empty());
        r
    }

    /// The lines printed so far, in order.
    pub fn output(&self) -> (r: &Vec<String>)
        ensures
            names(r@) == self@.output,
    {
        &self.output
    }

    fn frame(vars: Table<Value>) -> (r: Self)
        requires
            vars.model().wf(),
        ensures
            r.wf(),
            r@ == fresh_state(vtab(vars)),
    {
        let r = Compiler {
            variables: vars,
            functions: Table::new(),
            module: Module::new(),
            current_file: None,
            units: Table::new(),
            output: Vec::new(),
        };
        assert(r@.funcs.vals =~= Seq::<crate::semantics::Closure>::empty());
        assert(r@.output =~= Seq::<Seq<char>>::empty());
        r
    }

    fn set_variable(&mut self, name: String, v: Value)
        requires
            old(self).wf(),
        ensures
            final(self).wf(),
            final(self)@ == (State { vars: old(self)@.vars.put(name@, v@), ..old(self)@ }),
    {
        proof {
            lemma_map_put(self.variables.model(), name@, v, value_view());
        }
        self.variables.put(name, v);
    }

    fn emit(&mut self, line: String)
        ensures
            final(self)@ == (State { output: old(self)@.output.push(line@), ..old(self)@ }),
            final(self).wf() == old(self).wf(),
    {
        self.output.push(line);
        assert(names(self.output@) =~= names(old(self).output@).push(line@));
    }

    fn compile_expression(&mut self, e: &Expression, units: &Table<Unit>, fuel: u64) -> (r: Result<Value, CrabbyError>)
        requires
            old(self).wf(),
            units_ok(*units),
        ensures
            final(self).wf(),
            final(self)@ == eval_expr(old(self)@, *e, utab(*units), fuel as nat).0,
            vres(r) == eval_expr(old(self)@, *e, utab(*units), fuel as nat).1,
        decreases fuel, 0nat,
    {
        if fuel == 0 {
            return Err(limit_error());
        }
        let f = fuel - 1;
        match e {
            Expression::Integer(n) => Ok(Value::Integer(*n)),
            Expression::String(t) => Ok(Value::String(t.clone())),
            Expression::Variable(name) => {
                proof {
                    lemma_map_get(self.variables.model(), name@, value_view());
                }
                match self.variables.get(name) {
                    Some(v) => Ok(v.duplicate()),
                    None => Err(prefixed("Undefined variable: ", name)),
                }
            },
            Expression::Range(inner) => {
                match self.compile_expression(inner, units, f) {
                    Ok(Value::Integer(n)) => Ok(Value::Integer(n)),
                    Ok(_) => Err(fail("Range argument must be an integer")),
                    Err(x) => Err(x),
                }
            },
            Expression::Binary { left, operator, right } => {
                match self.compile_expression(left, units, f) {
                    Err(x) => Err(x),
                    Ok(lv) => match self.compile_expression(right, units, f) {
                        Err(x) => Err(x),
                        Ok(rv) => apply_binary_op(&lv, *operator, &rv),
                    },
                }
            },
            Expression::Call { function, arguments } => self.compile_call(
                function,
                arguments,
                units,
                f,
            ),
            Expression::Lambda { params, body } => Ok(
                Value::Lambda(Function { params: copy_names(params), body: share(body) }),
            ),
        }
    }

    #[verifier::rlimit(30)]
    fn compile_call(&mut self, name: &String, args: &Vec<Expression>, units: &Table<Unit>, fuel: u64) -> (r: Result<Value, CrabbyError>)
        requires
            old(self).wf(),
            units_ok(*units),
        ensures
            final(self).wf(),
            final(self)@ == eval_call(old(self)@, name@, args@, utab(*units), fuel as nat).0,
            vres(r) == eval_call(old(self)@, name@, args@, utab(*units), fuel as nat).1,
        decreases fuel, 1nat,
    {
        if fuel == 0 {
            return Err(limit_error());
        }
        let f = fuel - 1;
        if same_text(name.as_str(), "print") {
            if args.len() != 1 {
                return Err(fail("print takes exactly one argument"));
            }
            return match self.compile_expression(&args[0], units, f) {
                Ok(v) => {
                    let line = v.to_string();
                    self.emit(line);
                    Ok(Value::Integer(0))
                },
                Err(x) => Err(x),
            };
        }
        proof {
            lemma_map_get(self.variables.model(), name@, value_view());
        }
        let lambda = match self.variables.get(name) {
            Some(Value::Lambda(c)) => Some(c.duplicate()),
            _ => None,
        };
        match lambda {
            Some(c) => {
                if args.len() != c.params.len() {
                    return Err(lambda_arity_error(c.params.len(), args.len()));
                }
                match self.bind_args(&c.params, args, units, f) {
                    Err(x) => Err(x),
                    Ok(()) => {
                        let r2 = self.compile_statement(&c.body, units, f);
                        lift(r2)
                    },
                }
            },
            None => self.call_named(name, args, units, f),
        }
    }

    #[verifier::rlimit(30)]
    fn call_named(&mut self, name: &String, args: &Vec<Expression>, units: &Table<Unit>, fuel: u64) -> (r: Result<Value, CrabbyError>)
        requires
            old(self).wf(),
            units_ok(*units),
        ensures
            final(self).wf(),
            final(self)@ == eval_named(old(self)@, name@, args@, utab(*units), fuel as nat).0,
            vres(r) == eval_named(old(self)@, name@, args@, utab(*units), fuel as nat).1,
        decreases fuel, 1nat,
    {
        if fuel == 0 {
            return Err(limit_error());
        }
        let f = fuel - 1;
        proof {
            lemma_map_get(self.functions.model(), name@, function_view());
        }
        let func = match self.functions.get(name) {
            None => {
                return Err(prefixed("Undefined function: ", name));
            },
            Some(c) => c.duplicate(),
        };
        if args.len() != func.params.len() {
            return Err(arity_error(name, func.params.len(), args.len()));
        }
        let mut frame: Table<Value> = Table::new();
        assert(vtab(frame) == Tab::<Val>::empty()) by {
            assert(vtab(frame).vals =~= Seq::<Val>::empty());
        }
        match self.fill_frame(&mut frame, &func.params, args, units, f) {
            Err(x) => Err(x),
            Ok(()) => {
                let mut callee = Compiler::frame(frame);
                let r2 = callee.compile_statement(&func.body, units, f);
                let ghost before = self@;
                let ghost printed = callee@.output;
                self.output.append(&mut callee.output);
                assert(names(self.output@) =~= before.output + printed);
                lift(r2)
            },
        }
    }

    fn bind_args(&mut self, params: &Vec<String>, args: &Vec<Expression>, units: &Table<Unit>, fuel: u64) -> (r: Result<(), CrabbyError>)
        requires
            old(self).wf(),
            units_ok(*units),
            params@.len() == args@.len(),
        ensures
            final(self).wf(),
            final(self)@ == eval_bind(old(self)@, names(params@), args@, 0, utab(*units), fuel as nat).0,
            ures(r) == eval_bind(old(self)@, names(params@), args@, 0, utab(*units), fuel as nat).1,
        decreases fuel, 0nat,
    {
        let ghost u = utab(*units);
        let mut i: usize = 0;
        let mut k: u64 = fuel;
        loop
            invariant
                self.wf(),
                units_ok(*units),
                u == utab(*units),
                params@.len() == args@.len(),
                i <= args@.len(),
                k <= fuel,
                eval_bind(old(self)@, names(params@), args@, 0, u, fuel as nat) == eval_bind(
                    self@,
                    names(params@),
                    args@,
                    i as int,
                    u,
                    k as nat,
                ),
            decreases k,
        {
            if k == 0 {
                return Err(limit_error());
            }
            if i >= args.len() {
                return Ok(());
            }
            let f = k - 1;
            match self.compile_expression(&args[i], units, f) {
                Err(x) => {
                    return Err(x);
                },
                Ok(v) => {
                    self.set_variable(params[i].clone(), v);
                },
            }
            i = i + 1;
            k = f;
        }
    }

    fn fill_frame(&mut self, frame: &mut Table<Value>, params: &Vec<String>, args: &Vec<Expression>, units: &Table<Unit>, fuel: u64) -> (r: Result<(), CrabbyError>)
        requires
            old(self).wf(),
            old(frame).model().wf(),
            units_ok(*units),
            params@.len() == args@.len(),
        ensures
            final(self).wf(),
            final(frame).model().wf(),
            final(self)@ == eval_args(old(self)@, vtab(*old(frame)), names(params@), args@, 0, utab(*units), fuel as nat).0,
            vtab(*final(frame)) == eval_args(old(self)@, vtab(*old(frame)), names(params@), args@, 0, utab(*units), fuel as nat).1,
            ures(r) == eval_args(old(self)@, vtab(*old(frame)), names(params@), args@, 0, utab(*units), fuel as nat).2,
        decreases fuel, 0nat,
    {
        let ghost u = utab(*units);
        let mut i: usize = 0;
        let mut k: u64 = fuel;
        loop
            invariant
                self.wf(),
                frame.model().wf(),
                units_ok(*units),
                u == utab(*units),
                params@.len() == args@.len(),
                i <= args@.len(),
                k <= fuel,
                eval_args(old(self)@, vtab(*old(frame)), names(params@), args@, 0, u, fuel as nat) == eval_args(
                    self@,
                    vtab(*frame),
                    names(params@),
                    args@,
                    i as int,
                    u,
                    k as nat,
                ),
            decreases k,
        {
            if k == 0 {
                return Err(limit_error());
            }
            if i >= args.len() {
                return Ok(());
            }
            let f = k - 1;
            match self.compile_expression(&args[i], units, f) {
                Err(x) => {
                    return Err(x);
                },
                Ok(v) => {
                    proof {
                        lemma_map_put(frame.model(), params@[i as int]@, v, value_view());
                    }
                    frame.put(params[i].clone(), v);
                },
            }
            i = i + 1;
            k = f;
        }
    }

    fn compile_statement(&mut self, st: &Statement, units: &Table<Unit>, fuel: u64) -> (r: Result<Option<Value>, CrabbyError>)
        requires
            old(self).wf(),
            units_ok(*units),
        ensures
            final(self).wf(),
            final(self)@ == eval_stmt(old(self)@, *st, utab(*units), fuel as nat).0,
            ores(r) == eval_stmt(old(self)@, *st, utab(*units), fuel as nat).1,
        decreases fuel, 2nat,
    {
        if fuel == 0 {
            return Err(limit_error());
        }
        let f = fuel - 1;
        match st {
            Statement::FunctionDef { name, params, body } => {
                let c = Function { params: copy_names(params), body: share(body) };
                let (_, bare) = split_pub(name);
                self.module.record(name, Value::Lambda(c.duplicate()));
                proof {
                    lemma_map_put(self.functions.model(), bare@, c, function_view());
                }
                self.functions.put(bare, c);
                Ok(None)
            },
            Statement::Let { name, value } => {
                match self.compile_expression(value, units, f) {
                    Ok(v) => {
                        let (_, bare) = split_pub(name);
                        self.module.record(name, v.duplicate());
                        self.set_variable(bare, v);
                        Ok(None)
                    },
                    Err(x) => Err(x),
                }
            },
            Statement::Return(e) => {
                match self.compile_expression(e, units, f) {
                    Ok(v) => Ok(Some(v)),
                    Err(x) => Err(x),
                }
            },
            Statement::Expression(e) => {
                match self.compile_expression(e, units, f) {
                    Ok(v) => Ok(Some(v)),
                    Err(x) => Err(x),
                }
            },
            Statement::If { condition, then_branch, else_branch } => {
                match self.compile_expression(condition, units, f) {
                    Err(x) => Err(x),
                    Ok(v) => {
                        let falsy = match v {
                            Value::Integer(n) => n == 0,
                            _ => false,
                        };
                        if falsy {
                            match else_branch {
                                Some(b) => self.compile_statement(b, units, f),
                                None => Ok(None),
                            }
                        } else {
                            self.compile_statement(then_branch, units, f)
                        }
                    },
                }
            },
            Statement::While { condition, body } => self.run_while(condition, body, units, f),
            Statement::Loop { count, body } => {
                match self.compile_expression(count, units, f) {
                    Ok(Value::Integer(n)) => self.run_repeat(body, n, units, f),
                    Ok(_) => Err(fail("Loop count must be an integer")),
                    Err(x) => Err(x),
                }
            },
            Statement::ForIn { variable, iterator, body } => {
                match self.compile_expression(iterator, units, f) {
                    Ok(Value::Integer(n)) => self.run_for(variable, body, n, units, f),
                    Ok(_) => Err(fail("Iterator must be a range")),
                    Err(x) => Err(x),
                }
            },
            Statement::Import { name, source } => self.import(name, source, units),
            Statement::Block(stmts) => self.run_block(stmts, units, f),
        }
    }

    fn emit_all(&mut self, lines: &Vec<String>)
        requires
            old(self).wf(),
        ensures
            final(self).wf(),
            final(self)@ == (State { output: old(self)@.output + names(lines@), ..old(self)@ }),
    {
        let mut i: usize = 0;
        while i < lines.len()
            invariant
                self.wf(),
                i <= lines@.len(),
                self@ == (State {
                    output: old(self)@.output + names(lines@).subrange(0, i as int),
                    ..old(self)@
                }),
            decreases lines@.len() - i,
        {
            self.emit(lines[i].clone());
            assert(old(self)@.output + names(lines@).subrange(0, i + 1) =~= (old(self)@.output
                + names(lines@).subrange(0, i as int)).push(lines@[i as int]@));
            i = i + 1;
        }
        assert(names(lines@).subrange(0, i as int) =~= names(lines@));
    }

    fn import(&mut self, name: &String, source: &Option<String>, units: &Table<Unit>) -> (r: Result<Option<Value>, CrabbyError>)
        requires
            old(self).wf(),
            units_ok(*units),
        ensures
            final(self).wf(),
            final(self)@ == eval_stmt(old(self)@, Statement::Import { name: *name, source: *source }, utab(*units), 1).0,
            ores(r) == eval_stmt(old(self)@, Statement::Import { name: *name, source: *source }, utab(*units), 1).1,
    {
        match source {
            None => Err(fail("Standard library imports not yet implemented")),
            Some(p) => {
                let path = resolve_path(&self.current_file, p);
                proof {
                    lemma_map_get(units.model(), path@, unit_view());
                }
                match units.get(&path) {
                    None => Err(with_name("Failed to read module '", p, "'")),
                    Some(unit) => {
                        proof {
                            lemma_find_from_range(units.model().keys, path@, 0);
                        }
                        assert(unit.wf());
                        self.emit_all(&unit.output);
                        match &unit.result {
                            Err(x) => Err(x.duplicate()),
                            Ok(m) => {
                                proof {
                                    lemma_map_get(m.public_items.model(), name@, value_view());
                                    lemma_map_get(m.private_items.model(), name@, value_view());
                                }
                                match m.public_items.get(name) {
                                    Some(v) => {
                                        self.set_variable(name.clone(), v.duplicate());
                                        Ok(None)
                                    },
                                    None => {
                                        if m.private_items.find(name).is_some() {
                                            Err(with_name("Cannot import private item '", name, "' from module"))
                                        } else {
                                            Err(with_name("Item '", name, "' not found in module"))
                                        }
                                    },
                                }
                            },
                        }
                    },
                }
            },
        }
    }

    fn run_block(&mut self, stmts: &Vec<Statement>, units: &Table<Unit>, fuel: u64) -> (r: Result<Option<Value>, CrabbyError>)
        requires
            old(self).wf(),
            units_ok(*units),
        ensures
            final(self).wf(),
            final(self)@ == eval_block(old(self)@, stmts@, 0, None, utab(*units), fuel as nat).0,
            ores(r) == eval_block(old(self)@, stmts@, 0, None, utab(*units), fuel as nat).1,
        decreases fuel, 0nat,
    {
        let ghost u = utab(*units);
        let mut i: usize = 0;
        let mut k: u64 = fuel;
        let mut last: Option<Value> = None;
        loop
            invariant
                self.wf(),
                units_ok(*units),
                u == utab(*units),
                i <= stmts@.len(),
                k <= fuel,
                eval_block(old(self)@, stmts@, 0, None, u, fuel as nat) == eval_block(
                    self@,
                    stmts@,
                    i as int,
                    match last {
                        Some(v) => Some(v@),
                        None => None,
                    },
                    u,
                    k as nat,
                ),
            decreases k,
        {
            if k == 0 {
                return Err(limit_error());
            }
            if i >= stmts.len() {
                return Ok(last);
            }
            let f = k - 1;
            match self.compile_statement(&stmts[i], units, f) {
                Err(x) => {
                    return Err(x);
                },
                Ok(v) => {
                    last = v;
                },
            }
            i = i + 1;
            k = f;
        }
    }

    fn run_while(&mut self, c: &Expression, b: &Statement, units: &Table<Unit>, fuel: u64) -> (r: Result<Option<Value>, CrabbyError>)
        requires
            old(self).wf(),
            units_ok(*units),
        ensures
            final(self).wf(),
            final(self)@ == eval_while(old(self)@, *c, *b, utab(*units), fuel as nat).0,
            ores(r) == eval_while(old(self)@, *c, *b, utab(*units), fuel as nat).1,
        decreases fuel, 0nat,
    {
        let ghost u = utab(*units);
        let mut k: u64 = fuel;
        loop
            invariant
                self.wf(),
                units_ok(*units),
                u == utab(*units),
                k <= fuel,
                eval_while(old(self)@, *c, *b, u, fuel as nat) == eval_while(self@, *c, *b, u, k as nat),
            decreases k,
        {
            if k == 0 {
                return Err(limit_error());
            }
            let f = k - 1;
            let v = match self.compile_expression(c, units, f) {
                Err(x) => {
                    return Err(x);
                },
                Ok(v) => v,
            };
            let stop = match v {
                Value::Integer(n) => n == 0,
                _ => false,
            };
            if stop {
                return Ok(None);
            }
            match self.compile_statement(b, units, f) {
                Err(x) => {
                    return Err(x);
                },
                Ok(Some(Value::Integer(n))) => {
                    if n == -1 {
                        return Ok(None);
                    }
                },
                Ok(_) => {},
            }
            k = f;
        }
    }

    fn run_repeat(&mut self, b: &Statement, n: i64, units: &Table<Unit>, fuel: u64) -> (r: Result<Option<Value>, CrabbyError>)
        requires
            old(self).wf(),
            units_ok(*units),
        ensures
            final(self).wf(),
            final(self)@ == eval_repeat(old(self)@, *b, n as int, utab(*units), fuel as nat).0,
            ores(r) == eval_repeat(old(self)@, *b, n as int, utab(*units), fuel as nat).1,
        decreases fuel, 0nat,
    {
        let ghost u = utab(*units);
        let mut left: i64 = n;
        let mut k: u64 = fuel;
        loop
            invariant
                self.wf(),
                units_ok(*units),
                u == utab(*units),
                k <= fuel,
                eval_repeat(old(self)@, *b, n as int, u, fuel as nat) == eval_repeat(self@, *b, left as int, u, k as nat),
            decreases k,
        {
            if k == 0 {
                return Err(limit_error());
            }
            if left <= 0 {
                return Ok(None);
            }
            let f = k - 1;
            match self.compile_statement(b, units, f) {
                Err(x) => {
                    return Err(x);
                },
                Ok(_) => {},
            }
            left = left - 1;
            k = f;
        }
    }

    fn run_for(&mut self, var: &String, b: &Statement, n: i64, units: &Table<Unit>, fuel: u64) -> (r: Result<Option<Value>, CrabbyError>)
        requires
            old(self).wf(),
            units_ok(*units),
        ensures
            final(self).wf(),
            final(self)@ == eval_for(old(self)@, var@, *b, 0, n as int, utab(*units), fuel as nat).0,
            ores(r) == eval_for(old(self)@, var@, *b, 0, n as int, utab(*units), fuel as nat).1,
        decreases fuel, 0nat,
    {
        let ghost u = utab(*units);
        let mut i: i64 = 0;
        let mut k: u64 = fuel;
        loop
            invariant
                self.wf(),
                units_ok(*units),
                u == utab(*units),
                k <= fuel,
                0 <= i,
                eval_for(old(self)@, var@, *b, 0, n as int, u, fuel as nat) == eval_for(self@, var@, *b, i as int, n as int, u, k as nat),
            decreases k,
        {
            if k == 0 {
                return Err(limit_error());
            }
            if i >= n {
                return Ok(None);
            }
            let f = k - 1;
            self.set_variable(var.clone(), Value::Integer(i));
            match self.compile_statement(b, units, f) {
                Err(x) => {
                    return Err(x);
                },
                Ok(_) => {},
            }
            i = i + 1;
            k = f;
        }
    }

    /// Runs the statements of a program in order, stopping at the first error.
    pub fn compile(&mut self, program: &Program) -> (r: Result<(), CrabbyError>)
        requires
            old(self).wf(),
        ensures
            final(self).wf(),
            final(self).units_model() == old(self).units_model(),
            final(self)@ == eval_unit(old(self)@, program.statements@, old(self).units_model()).0,
            ures(r) == eval_unit(old(self)@, program.statements@, old(self).units_model()).1,
    {
        let mut units: Table<Unit> = Table::new();
        std::mem::swap(&mut self.units, &mut units);
        let r = self.run_block(&program.statements, &units, STEP_LIMIT);
        std::mem::swap(&mut self.units, &mut units);
        match r {
            Ok(_) => Ok(()),
            Err(x) => Err(x),
        }
    }

    /// Reads, parses and runs the source unit at `path` in a fresh instance,
    /// and registers what came of it for later imports of that path.
    pub fn add_unit(&mut self, path: String, source: &str)
        requires
            old(self).wf(),
            4 * source@.len() < usize::MAX,
        ensures
            final(self).wf(),
            final(self)@ == old(self)@,
            final(self).units_model().get(path@) is Some,
            final(self).units_model() == old(self).units_model().put(path@, final(self).units_model().get(path@)->0),
            unit_recorded(path@, source@, old(self).units_model(), final(self).units_model().get(path@)->0),
    {
        let ghost u0 = self.units_model();
        let unit = match tokenize(source) {
            Err(x) => {
                let unit = Unit { output: Vec::new(), result: Err(x) };
                assert(unit@.output =~= Seq::<Seq<char>>::empty());
                unit
            },
            Ok(tokens) => match parse(tokens) {
                Err(x) => {
                    let unit = Unit { output: Vec::new(), result: Err(x) };
                    assert(unit@.output =~= Seq::<Seq<char>>::empty());
                    unit
                },
                Ok(program) => {
                    let mut c = Compiler::new(Some(path.clone()));
                    let r = c.run_block(&program.statements, &self.units, STEP_LIMIT);
                    let result = match r {
                        Ok(_) => Ok(c.module),
                        Err(x) => Err(x),
                    };
                    let unit = Unit { output: c.output, result };
                    assert(deep_stmts(program.statements@) == deep_stmts(program.statements@));
                    unit
                },
            },
        };
        assert(unit_recorded(path@, source@, u0, unit@));
        assert(unit.wf());
        proof {
            lemma_map_put(self.units.model(), path@, unit, unit_view());
            lemma_find_from_range(self.units.model().keys, path@, 0);
            lemma_put_get(utab(self.units), path@, unit@, path@);
        }
        let ghost before = self.units.vals@;
        let ghost key = path@;
        self.units.put(path, unit);
        proof {
            lemma_find_from_range(self.units.model().keys, key, 0);
            lemma_map_get(self.units.model(), key, unit_view());
            assert forall|i: int| 0 <= i < self.units.vals@.len() implies (#[trigger] self.units.vals@[i]).wf() by {
                if i < before.len() && self.units.vals@[i] != unit {
                    assert(self.units.vals@[i] == before[i]);
                }
            }
        }
    }
}

/// What registering the text `src` at `path` records: its lexing or parsing
/// error, or else the lines and the module (or the error) of running the
/// statements it parses to in a fresh instance for that file.
pub open spec fn unit_recorded(path: Seq<char>, src: Seq<char>, u: Tab<UnitModel>, got: UnitModel) -> bool {
    match lex(src) {
        Err(x) => got == UnitModel { output: Seq::empty(), result: Err(x) },
        Ok(ts) => match parse_tokens(ts) {
            Err(x) => got == UnitModel { output: Seq::empty(), result: Err(x) },
            Ok(trees) => exists|p: Program|
                #![trigger deep_stmts(p.statements@)]
                {
                    &&& deep_stmts(p.statements@) == trees
                    &&& {
                        let (s, r) = eval_block(
                            State { file: Some(path), ..fresh_state(Tab::empty()) },
                            p.statements@,
                            0,
                            None,
                            u,
                            STEP_LIMIT as nat,
                        );
                        &&& got.output == s.output
                        &&& got.result == match r {
                            Ok(_) => Ok::<crate::semantics::ModuleModel, Fault>(s.module),
                            Err(x) => Err(x),
                        }
                    }
                },
        },
    }
}

/// Runs a parsed program in a fresh instance: the lines it printed and its result.
pub fn compile(ast: &Program) -> (r: (Vec<String>, Result<(), CrabbyError>))
    ensures
        names(r.0@) == eval_unit(fresh_state(Tab::empty()), ast.statements@, Tab::empty()).0.output,
        ures(r.1) == eval_unit(fresh_state(Tab::empty()), ast.statements@, Tab::empty()).1,
{
    let mut compiler = Compiler::new(None);
    let r = compiler.compile(ast);
    (compiler.output, r)
}

/// Lexes, parses and runs a source text: the lines it printed and its result.
pub fn run(source: &str) -> (r: (Vec<String>, Result<(), CrabbyError>))
    requires
        4 * source@.len() < usize::MAX,
    ensures
        match lex(source@) {
            Err(x) => r.0@.len() == 0 && ures(r.1) == Err::<(), Fault>(x),
            Ok(ts) => match parse_tokens(ts) {
                Err(x) => r.0@.len() == 0 && ures(r.1) == Err::<(), Fault>(x),
                Ok(trees) => exists|p: Program|
                    #![trigger deep_stmts(p.statements@)]
                    {
                        &&& deep_stmts(p.statements@) == trees
                        &&& names(r.0@) == eval_unit(fresh_state(Tab::empty()), p.statements@, Tab::empty()).0.output
                        &&& ures(r.1) == eval_unit(fresh_state(Tab::empty()), p.statements@, Tab::empty()).1
                    },
            },
        },
{
    match tokenize(source) {
        Err(x) => (Vec::new(), Err(x)),
        Ok(tokens) => match parse(tokens) {
            Err(x) => (Vec::new(), Err(x)),
            Ok(program) => compile(&program),
        },
    }
}

} // verus!
