use crate::text::names;
use std::rc::Rc;
use vstd::prelude::*;

verus! {

/// A parsed unit: its top-level statements in source order.
pub struct Program {
    pub statements: Vec<Statement>,
}

impl Program {
    pub fn new() -> (r: Self)
        ensures
            r.statements@.len() == 0,
    {
        Program { statements: Vec::new() }
    }
}

/// A statement of the language. The bodies of functions are shared, not copied,
/// when a definition becomes a value.
pub enum Statement {
    FunctionDef { name: String, params: Vec<String>, body: Rc<Statement> },
    Let { name: String, value: Box<Expression> },
    Return(Box<Expression>),
    If {
        condition: Box<Expression>,
        then_branch: Box<Statement>,
        else_branch: Option<Box<Statement>>,
    },
    While { condition: Box<Expression>, body: Box<Statement> },
    Loop { count: Box<Expression>, body: Box<Statement> },
    ForIn { variable: String, iterator: Box<Expression>, body: Box<Statement> },
    Import { name: String, source: Option<String> },
    Block(Vec<Statement>),
    Expression(Expression),
}

/// An expression of the language.
pub enum Expression {
    Integer(i64),
    String(String),
    Variable(String),
    Range(Box<Expression>),
    Binary { left: Box<Expression>, operator: BinaryOp, right: Box<Expression> },
    Call { function: String, arguments: Vec<Expression> },
    Lambda { params: Vec<String>, body: Rc<Statement> },
}

#[derive(Debug, Clone, Copy, PartialEq, Eq)]
pub enum BinaryOp {
    Add,
    Sub,
    Mul,
    Div,
    Eq,
    Dot,
}

/// An expression as a mathematical tree.
pub enum SExpr {
    Integer(i64),
    Str(Seq<char>),
    Variable(Seq<char>),
    Range(Box<SExpr>),
    Binary(Box<SExpr>, BinaryOp, Box<SExpr>),
    Call(Seq<char>, Seq<SExpr>),
    Lambda(Seq<Seq<char>>, Box<SStmt>),
}

/// A statement as a mathematical tree.
pub enum SStmt {
    FunctionDef(Seq<char>, Seq<Seq<char>>, Box<SStmt>),
    Let(Seq<char>, Box<SExpr>),
    Return(Box<SExpr>),
    If(Box<SExpr>, Box<SStmt>, Option<Box<SStmt>>),
    While(Box<SExpr>, Box<SStmt>),
    Loop(Box<SExpr>, Box<SStmt>),
    ForIn(Seq<char>, Box<SExpr>, Box<SStmt>),
    Import(Seq<char>, Option<Seq<char>>),
    Block(Seq<SStmt>),
    Expression(SExpr),
}

broadcast use vstd::std_specs::vec::axiom_vec_index_decreases;

/// The tree that an expression holds.
pub open spec fn deep_expr(e: Expression) -> SExpr
    decreases e,
{
    match e {
        Expression::Integer(n) => SExpr::Integer(n),
        Expression::String(s) => SExpr::Str(s@),
        Expression::Variable(s) => SExpr::Variable(s@),
        Expression::Range(x) => SExpr::Range(Box::new(deep_expr(*x))),
        Expression::Binary { left, operator, right } => SExpr::Binary(
            Box::new(deep_expr(*left)),
            operator,
            Box::new(deep_expr(*right)),
        ),
        Expression::Call { function, arguments } => SExpr::Call(
            function@,
            Seq::new(
                arguments@.len(),
                |i: int|
                    if 0 <= i < arguments@.len() {
                        deep_expr(arguments@[i])
                    } else {
                        SExpr::Integer(0)
                    },
            ),
        ),
        Expression::Lambda { params, body } => SExpr::Lambda(
            names(params@),
            Box::new(deep_stmt(*body)),
        ),
    }
}

/// The tree that a statement holds.
pub open spec fn deep_stmt(s: Statement) -> SStmt
    decreases s,
{
    match s {
        Statement::FunctionDef { name, params, body } => SStmt::FunctionDef(
            name@,
            names(params@),
            Box::new(deep_stmt(*body)),
        ),
        Statement::Let { name, value } => SStmt::Let(name@, Box::new(deep_expr(*value))),
        Statement::Return(e) => SStmt::Return(Box::new(deep_expr(*e))),
        Statement::If { condition, then_branch, else_branch } => SStmt::If(
            Box::new(deep_expr(*condition)),
            Box::new(deep_stmt(*then_branch)),
            match else_branch {
                Some(b) => Some(Box::new(deep_stmt(*b))),
                None => None,
            },
        ),
        Statement::While { condition, body } => SStmt::While(
            Box::new(deep_expr(*condition)),
            Box::new(deep_stmt(*body)),
        ),
        Statement::Loop { count, body } => SStmt::Loop(
            Box::new(deep_expr(*count)),
            Box::new(deep_stmt(*body)),
        ),
        Statement::ForIn { variable, iterator, body } => SStmt::ForIn(
            variable@,
            Box::new(deep_expr(*iterator)),
            Box::new(deep_stmt(*body)),
        ),
        Statement::Import { name, source } => SStmt::Import(
            name@,
            match source {
                Some(p) => Some(p@),
                None => None,
            },
        ),
        Statement::Block(v) => SStmt::Block(
            Seq::new(
                v@.len(),
                |i: int|
                    if 0 <= i < v@.len() {
                        deep_stmt(v@[i])
                    } else {
                        SStmt::Block(Seq::empty())
                    },
            ),
        ),
        Statement::Expression(e) => SStmt::Expression(deep_expr(e)),
    }
}

/// The trees of a list of expressions.
pub open spec fn deep_exprs(v: Seq<Expression>) -> Seq<SExpr> {
    Seq::new(v.len(), |i: int| deep_expr(v[i]))
}

/// The trees of a list of statements.
pub open spec fn deep_stmts(v: Seq<Statement>) -> Seq<SStmt> {
    Seq::new(v.len(), |i: int| deep_stmt(v[i]))
}

} // verus!
