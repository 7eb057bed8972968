use crate::ast::{BinaryOp, Statement};
use crate::semantics::{
    apply_binary, empty_module, int_result, magnitude, render, trunc_div, Closure, ModuleModel, UnitModel, Val,
};
use crate::table::{Tab, Table};
use crate::text::{copy_names, int_to_text, names, owned, push_char, push_text};
use crate::utils::{CrabbyError, Fault};
use std::rc::Rc;
use vstd::prelude::*;

verus! {

/// Relies on `Rc::clone`: the new pointer refers to the same statement.
#[verifier::external_body]
pub(crate) fn share(r: &Rc<Statement>) -> (s: Rc<Statement>)
    ensures
        s == *r,
{
    Rc::clone(r)
}

/// A function: its parameter names and its (shared) body.
pub struct Function {
    pub params: Vec<String>,
    pub body: Rc<Statement>,
}

impl View for Function {
    type V = Closure;

    open spec fn view(&self) -> Closure {
        Closure { params: names(self.params@), body: *self.body }
    }
}

impl Function {
    pub fn duplicate(&self) -> (r: Function)
        ensures
            r@ == self@,
    {
        Function { params: copy_names(&self.params), body: share(&self.body) }
    }
}

/// A runtime value.
pub enum Value {
    Integer(i64),
    String(String),
    Lambda(Function),
}

impl View for Value {
    type V = Val;

    open spec fn view(&self) -> Val {
        match self {
            Value::Integer(n) => Val::Int(*n),
            Value::String(s) => Val::Str(s@),
            Value::Lambda(f) => Val::Lam(f@),
        }
    }
}

impl Value {
    pub fn duplicate(&self) -> (r: Value)
        ensures
            r@ == self@,
    {
        match self {
            Value::Integer(n) => Value::Integer(*n),
            Value::String(s) => Value::String(s.clone()),
            Value::Lambda(f) => Value::Lambda(f.duplicate()),
        }
    }

    /// The text that `print` writes for this value.
    pub fn to_string(&self) -> (r: String)
        ensures
            r@ == render(self@),
    {
        match self {
            Value::Integer(n) => int_to_text(*n),
            Value::String(s) => s.clone(),
            Value::Lambda(_) => owned("<lambda>"),
        }
    }
}

pub open spec fn value_view() -> spec_fn(Value) -> Val {
    |v: Value| v@
}

pub open spec fn function_view() -> spec_fn(Function) -> Closure {
    |f: Function| f@
}

pub open spec fn vtab(t: Table<Value>) -> Tab<Val> {
    t.model().map(value_view())
}

pub open spec fn ftab(t: Table<Function>) -> Tab<Closure> {
    t.model().map(function_view())
}

pub open spec fn vres(r: Result<Value, CrabbyError>) -> Result<Val, Fault> {
    match r {
        Ok(v) => Ok(v@),
        Err(e) => Err(e@),
    }
}

pub open spec fn ores(r: Result<Option<Value>, CrabbyError>) -> Result<Option<Val>, Fault> {
    match r {
        Ok(Some(v)) => Ok(Some(v@)),
        Ok(None) => Ok(None),
        Err(e) => Err(e@),
    }
}

pub open spec fn ures(r: Result<(), CrabbyError>) -> Result<(), Fault> {
    match r {
        Ok(_) => Ok(()),
        Err(e) => Err(e@),
    }
}

/// An evaluation error with the given message.
pub fn fail(msg: &str) -> (r: CrabbyError)
    ensures
        r@ == Fault::Compile(msg@),
{
    CrabbyError::CompileError(owned(msg))
}

fn int_value(x: i128) -> (r: Result<Value, CrabbyError>)
    ensures
        vres(r) == int_result(x as int),
{
    if x < i64::MIN as i128 || x > i64::MAX as i128 {
        Err(fail("Integer overflow"))
    } else {
        Ok(Value::Integer(x as i64))
    }
}

fn trunc_quotient(a: i64, b: i64) -> (q: i128)
    requires
        b != 0,
    ensures
        q as int == trunc_div(a as int, b as int),
{
    let ma: u128 = if a < 0 {
        (-(a as i128)) as u128
    } else {
        a as u128
    };
    let mb: u128 = if b < 0 {
        (-(b as i128)) as u128
    } else {
        b as u128
    };
    assert(ma as int == magnitude(a as int));
    assert(mb as int == magnitude(b as int));
    let q: u128 = ma / mb;
    assert(q <= ma) by (nonlinear_arith)
        requires
            mb >= 1,
            q == ma / mb,
    ;
    if (a < 0) == (b < 0) {
        q as i128
    } else {
        -(q as i128)
    }
}

fn concat(a: &String, b: &str) -> (r: String)
    ensures
        r@ == a@ + b@,
{
    let mut t = a.clone();
    push_text(&mut t, b);
    t
}

/// Applies a binary operator to two values.
pub fn apply_binary_op(l: &Value, op: BinaryOp, r: &Value) -> (res: Result<Value, CrabbyError>)
    ensures
        vres(res) == apply_binary(l@, op, r@),
{
    match (l, op, r) {
        (Value::Integer(a), BinaryOp::Add, Value::Integer(b)) => int_value(*a as i128 + *b as i128),
        (Value::Integer(a), BinaryOp::Sub, Value::Integer(b)) => int_value(*a as i128 - *b as i128),
        (Value::Integer(a), BinaryOp::Mul, Value::Integer(b)) => {
            let x: i128 = *a as i128;
            let y: i128 = *b as i128;
            assert(-0x4000_0000_0000_0000_0000_0000_0000_0000 <= x * y
                <= 0x4000_0000_0000_0000_0000_0000_0000_0000) by (nonlinear_arith)
                requires
                    -0x8000_0000_0000_0000 <= x <= 0x8000_0000_0000_0000,
                    -0x8000_0000_0000_0000 <= y <= 0x8000_0000_0000_0000,
            ;
            int_value(x * y)
        },
        (Value::Integer(a), BinaryOp::Div, Value::Integer(b)) => {
            if *b == 0 {
                Err(fail("Division by zero"))
            } else {
                int_value(trunc_quotient(*a, *b))
            }
        },
        (Value::String(a), BinaryOp::Add, Value::String(b)) => Ok(Value::String(concat(a, b.as_str()))),
        (Value::String(a), BinaryOp::Dot, Value::String(b)) => {
            let mut t = a.clone();
            push_char(&mut t, '.');
            push_text(&mut t, b.as_str());
            assert(t@ =~= a@ + seq!['.'] + b@);
            Ok(Value::String(t))
        },
        (Value::String(a), BinaryOp::Add, other) => {
            let t = other.to_string();
            Ok(Value::String(concat(a, t.as_str())))
        },
        (other, BinaryOp::Add, Value::String(b)) => {
            let t = other.to_string();
            Ok(Value::String(concat(&t, b.as_str())))
        },
        _ => Err(fail("Invalid operation")),
    }
}

/// The exported surface of a compiled unit.
pub struct Module {
    pub public_items: Table<Value>,
    pub private_items: Table<Value>,
}

impl View for Module {
    type V = ModuleModel;

    open spec fn view(&self) -> ModuleModel {
        ModuleModel { public: vtab(self.public_items), private: vtab(self.private_items) }
    }
}

impl Module {
    pub open spec fn wf(&self) -> bool {
        self.public_items.model().wf() && self.private_items.model().wf()
    }

    pub fn new() -> (r: Module)
        ensures
            r.wf(),
            r@ == empty_module(),
    {
        let r = Module { public_items: Table::new(), private_items: Table::new() };
        assert(r@.public.vals =~= Seq::<Val>::empty());
        assert(r@.private.vals =~= Seq::<Val>::empty());
        r
    }
}

/// A registered source unit: what it printed, and its module or its error.
pub struct Unit {
    pub output: Vec<String>,
    pub result: Result<Module, CrabbyError>,
}

impl View for Unit {
    type V = UnitModel;

    open spec fn view(&self) -> UnitModel {
        UnitModel {
            output: names(self.output@),
            result: match self.result {
                Ok(m) => Ok(m@),
                Err(e) => Err(e@),
            },
        }
    }
}

pub open spec fn unit_view() -> spec_fn(Unit) -> UnitModel {
    |x: Unit| x@
}

pub open spec fn utab(t: Table<Unit>) -> Tab<UnitModel> {
    t.model().map(unit_view())
}

} // verus!
