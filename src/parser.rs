use crate::ast::{
    deep_expr, deep_exprs, deep_stmt, deep_stmts, BinaryOp, Expression, Program, SExpr, SStmt,
    Statement,
};
use crate::grammar::{
    adv, binop, expect, msg_end, p_args, p_block, p_call, p_expr, p_function, p_if, p_items, p_let,
    p_param_list, p_params, p_primary, p_program, p_stmt, p_tail, p_while, parse_tokens, perr, span_at,
    tk,
};
use crate::lexer::{lexemes, Lexeme, Tk, Token, TokenStream};
use crate::text::{names, owned};
use crate::utils::{CrabbyError, Fault, Span};
use std::rc::Rc;
use vstd::prelude::*;

verus! {

/// An expression parse: the tree and the position after it, or the error.
pub open spec fn expr_outcome(r: Result<Expression, CrabbyError>, pos: int, s: Result<(SExpr, int), Fault>) -> bool {
    match r {
        Ok(e) => s == Ok::<(SExpr, int), Fault>((deep_expr(e), pos)),
        Err(x) => s == Err::<(SExpr, int), Fault>(x@),
    }
}

/// A statement parse: the tree and the position after it, or the error.
pub open spec fn stmt_outcome(r: Result<Statement, CrabbyError>, pos: int, s: Result<(SStmt, int), Fault>) -> bool {
    match r {
        Ok(st) => s == Ok::<(SStmt, int), Fault>((deep_stmt(st), pos)),
        Err(x) => s == Err::<(SStmt, int), Fault>(x@),
    }
}

proof fn lemma_deep_block(v: Vec<Statement>)
    ensures
        deep_stmt(Statement::Block(v)) == SStmt::Block(deep_stmts(v@)),
{
    assert(deep_stmts(v@) =~= match deep_stmt(Statement::Block(v)) {
        SStmt::Block(x) => x,
        _ => Seq::empty(),
    });
}

proof fn lemma_deep_call(f: String, v: Vec<Expression>)
    ensures
        deep_expr(Expression::Call { function: f, arguments: v }) == SExpr::Call(f@, deep_exprs(v@)),
{
    assert(deep_exprs(v@) =~= match deep_expr(Expression::Call { function: f, arguments: v }) {
        SExpr::Call(_, x) => x,
        _ => Seq::empty(),
    });
}

fn binop_of(t: &Token) -> (r: Option<BinaryOp>)
    ensures
        r == binop(t@),
{
    match t {
        Token::Plus => Some(BinaryOp::Add),
        Token::Minus => Some(BinaryOp::Sub),
        Token::Star => Some(BinaryOp::Mul),
        Token::Slash => Some(BinaryOp::Div),
        Token::DoubleEquals => Some(BinaryOp::Eq),
        Token::Dot => Some(BinaryOp::Dot),
        _ => None,
    }
}

/// A recursive-descent parser over a token sequence, one token of lookahead.
pub struct Parser<'a> {
    tokens: &'a [TokenStream],
    current: usize,
}

impl<'a> Parser<'a> {
    /// The tokens being parsed.
    pub closed spec fn toks(&self) -> Seq<Lexeme> {
        lexemes(self.tokens@)
    }

    /// The position of the next token.
    pub closed spec fn pos(&self) -> int {
        self.current as int
    }

    pub closed spec fn wf(&self) -> bool {
        self.current <= self.tokens@.len()
    }

    pub closed spec fn ready(&self) -> bool {
        self.wf() && self.tokens@.len() > 0
    }

    /// A parser at the first of `tokens`.
    pub fn new(tokens: &'a [TokenStream]) -> (r: Self)
        ensures
            r.wf(),
            r.toks() == lexemes(tokens@),
            r.pos() == 0,
            r.ready() == (tokens@.len() > 0),
    {
        Parser { tokens, current: 0 }
    }

    fn is_at_end(&self) -> (r: bool)
        ensures
            r == (self.pos() >= self.toks().len()),
    {
        self.current >= self.tokens.len()
    }

    /// The next token; past the end, the last one.
    fn peek(&self) -> (r: &TokenStream)
        requires
            self.ready(),
        ensures
            r@.token == tk(self.toks(), self.pos()),
            r@.span == span_at(self.toks(), self.pos()),
    {
        if self.is_at_end() {
            &self.tokens[self.tokens.len() - 1]
        } else {
            &self.tokens[self.current]
        }
    }

    fn advance(&mut self)
        requires
            old(self).wf(),
        ensures
            final(self).wf(),
            final(self).tokens == old(self).tokens,
            final(self).pos() == adv(old(self).toks(), old(self).pos()),
    {
        if self.current < self.tokens.len() {
            self.current = self.current + 1;
        }
    }

    /// Consumes the token `expected`, or fails with `message` at the next token.
    fn consume(&mut self, expected: &Token, message: &str) -> (r: Result<(), CrabbyError>)
        requires
            old(self).ready(),
        ensures
            final(self).ready(),
            final(self).tokens == old(self).tokens,
            match expect(old(self).toks(), old(self).pos(), expected@, message@) {
                Ok(k) => r is Ok && final(self).pos() == k,
                Err(x) => r matches Err(e) && e@ == x && final(self).pos() == old(self).pos(),
            },
    {
        if self.peek().token.same(expected) {
            self.advance();
            Ok(())
        } else {
            Err(self.error(message))
        }
    }

    /// A parse error at the next token.
    fn error(&self, message: &str) -> (r: CrabbyError)
        requires
            self.ready(),
        ensures
            r@ == perr(self.toks(), self.pos(), message@),
    {
        let span: Span = if self.is_at_end() {
            self.tokens[self.tokens.len() - 1].span
        } else {
            self.peek().span
        };
        CrabbyError::ParserError { line: span.line, column: span.column, message: owned(message) }
    }

    /// Whether the position has moved past `i`, within the tokens.
    fn moved_from(&self, i: usize) -> (r: bool)
        ensures
            r == crate::grammar::moved(self.toks(), i as int, self.pos()),
    {
        i < self.current && self.current <= self.tokens.len()
    }

    /// Whether the position is at or past `i`, within the tokens.
    fn kept_from(&self, i: usize) -> (r: bool)
        ensures
            r == crate::grammar::kept(self.toks(), i as int, self.pos()),
    {
        i <= self.current && self.current <= self.tokens.len()
    }

    fn end_error(&self) -> (r: CrabbyError)
        requires
            self.ready(),
        ensures
            r@ == perr(self.toks(), self.pos(), msg_end()),
    {
        self.error("Unexpected end of input")
    }

    /// Parameter names after '(' up to and including ')'.
    fn parse_params(&mut self) -> (r: Result<Vec<String>, CrabbyError>)
        requires
            old(self).ready(),
        ensures
            final(self).ready(),
            final(self).tokens == old(self).tokens,
            match r {
                Ok(ps) => p_param_list(old(self).toks(), old(self).pos()) == Ok::<(Seq<Seq<char>>, int), Fault>((names(ps@), final(self).pos())),
                Err(x) => p_param_list(old(self).toks(), old(self).pos()) == Err::<(Seq<Seq<char>>, int), Fault>(x@),
            },
    {
        if self.peek().token.same(&Token::RParen) {
            self.advance();
            let none: Vec<String> = Vec::new();
            assert(names(none@) =~= Seq::<Seq<char>>::empty());
            return Ok(none);
        }
        let mut params: Vec<String> = Vec::new();
        assert(names(params@) =~= Seq::<Seq<char>>::empty());
        loop
            invariant
                self.ready(),
                self.tokens == old(self).tokens,
                p_param_list(old(self).toks(), old(self).pos()) == p_params(self.toks(), self.pos(), names(params@)),
            decreases self.toks().len() - self.pos(),
        {
            let i = self.current;
            let p = match &self.peek().token {
                Token::Identifier(p) => p.clone(),
                _ => {
                    return Err(self.error("Expected parameter name"));
                },
            };
            self.advance();
            let ghost acc = names(params@);
            params.push(p);
            assert(names(params@) =~= acc.push(p@));
            if self.peek().token.same(&Token::RParen) {
                self.advance();
                return Ok(params);
            }
            match self.consume(&Token::Comma, "Expected ',' between parameters") {
                Err(x) => {
                    return Err(x);
                },
                Ok(()) => {},
            }
            if !self.moved_from(i) {
                return Err(self.end_error());
            }
        }
    }

    fn parse_primary(&mut self) -> (r: Result<Expression, CrabbyError>)
        requires
            old(self).ready(),
        ensures
            final(self).ready(),
            final(self).tokens == old(self).tokens,
            expr_outcome(r, final(self).pos(), p_primary(old(self).toks(), old(self).pos())),
        decreases old(self).toks().len() - old(self).pos(), 2nat,
    {
        let i = self.current;
        match &self.peek().token {
            Token::Integer(n) => {
                let n = *n;
                self.advance();
                Ok(Expression::Integer(n))
            },
            Token::String(s) => {
                let s = s.clone();
                self.advance();
                Ok(Expression::String(s))
            },
            Token::Identifier(name) => {
                let name = name.clone();
                self.advance();
                if self.peek().token.same(&Token::LParen) {
                    if !self.moved_from(i) {
                        return Err(self.end_error());
                    }
                    self.parse_function_call(name)
                } else {
                    Ok(Expression::Variable(name))
                }
            },
            Token::Lambda => {
                self.advance();
                match self.consume(&Token::LParen, "Expected '(' after lambda") {
                    Err(x) => {
                        return Err(x);
                    },
                    Ok(()) => {},
                }
                if !self.moved_from(i) {
                    return Err(self.end_error());
                }
                let params = match self.parse_params() {
                    Err(x) => {
                        return Err(x);
                    },
                    Ok(ps) => ps,
                };
                match self.consume(&Token::Colon, "Expected ':' after parameters") {
                    Err(x) => {
                        return Err(x);
                    },
                    Ok(()) => {},
                }
                if !self.moved_from(i) {
                    return Err(self.end_error());
                }
                match self.parse_block() {
                    Err(x) => Err(x),
                    Ok(body) => Ok(Expression::Lambda { params, body: Rc::new(body) }),
                }
            },
            Token::LParen => {
                self.advance();
                if !self.moved_from(i) {
                    return Err(self.end_error());
                }
                let e = match self.parse_expression() {
                    Err(x) => {
                        return Err(x);
                    },
                    Ok(e) => e,
                };
                match self.consume(&Token::RParen, "Expected ')' after expression") {
                    Err(x) => Err(x),
                    Ok(()) => Ok(e),
                }
            },
            _ => Err(self.error("Expected expression")),
        }
    }

    /// Folds the operators after `left` from left to right.
    fn parse_tail(&mut self, first: Expression) -> (r: Result<Expression, CrabbyError>)
        requires
            old(self).ready(),
        ensures
            final(self).ready(),
            final(self).tokens == old(self).tokens,
            expr_outcome(r, final(self).pos(), p_tail(old(self).toks(), deep_expr(first), old(self).pos())),
        decreases old(self).toks().len() - old(self).pos(), 3nat,
    {
        let mut left = first;
        loop
            invariant
                self.ready(),
                self.tokens == old(self).tokens,
                old(self).pos() <= self.pos(),
                p_tail(old(self).toks(), deep_expr(first), old(self).pos()) == p_tail(self.toks(), deep_expr(left), self.pos()),
            decreases self.toks().len() - self.pos(),
        {
            let op = match binop_of(&self.peek().token) {
                None => {
                    return Ok(left);
                },
                Some(op) => op,
            };
            let j = self.current;
            self.advance();
            let right = match self.parse_primary() {
                Err(x) => {
                    return Err(x);
                },
                Ok(r) => r,
            };
            if !self.moved_from(j) {
                return Err(self.end_error());
            }
            left = Expression::Binary { left: Box::new(left), operator: op, right: Box::new(right) };
        }
    }

    fn parse_expression(&mut self) -> (r: Result<Expression, CrabbyError>)
        requires
            old(self).ready(),
        ensures
            final(self).ready(),
            final(self).tokens == old(self).tokens,
            expr_outcome(r, final(self).pos(), p_expr(old(self).toks(), old(self).pos())),
        decreases old(self).toks().len() - old(self).pos(), 4nat,
    {
        let i = self.current;
        let e = match self.parse_primary() {
            Err(x) => {
                return Err(x);
            },
            Ok(e) => e,
        };
        if !self.kept_from(i) {
            return Err(self.end_error());
        }
        self.parse_tail(e)
    }

    /// A call of `name`, at its '('.
    fn parse_function_call(&mut self, name: String) -> (r: Result<Expression, CrabbyError>)
        requires
            old(self).ready(),
        ensures
            final(self).ready(),
            final(self).tokens == old(self).tokens,
            expr_outcome(r, final(self).pos(), p_call(old(self).toks(), name@, old(self).pos())),
        decreases old(self).toks().len() - old(self).pos(), 6nat,
    {
        self.advance();
        let mut arguments: Vec<Expression> = Vec::new();
        assert(deep_exprs(arguments@) =~= Seq::<SExpr>::empty());
        if !self.peek().token.same(&Token::RParen) {
            let k0 = self.current;
            loop
                invariant_except_break
                    p_args(self.toks(), k0 as int, Seq::empty()) == p_args(self.toks(), self.pos(), deep_exprs(arguments@)),
                    k0 as int <= self.pos(),
                invariant
                    self.ready(),
                    self.tokens == old(self).tokens,
                    old(self).pos() <= k0,
                    k0 == adv(old(self).toks(), old(self).pos()),
                    tk(old(self).toks(), k0 as int) != Tk::RParen,
                ensures
                    p_args(self.toks(), k0 as int, Seq::empty()) == Ok::<(Seq<SExpr>, int), Fault>((deep_exprs(arguments@), self.pos())),
                decreases self.toks().len() - self.pos(),
            {
                let k = self.current;
                let e = match self.parse_expression() {
                    Err(x) => {
                        return Err(x);
                    },
                    Ok(e) => e,
                };
                let ghost acc = deep_exprs(arguments@);
                arguments.push(e);
                assert(deep_exprs(arguments@) =~= acc.push(deep_expr(e)));
                if !self.peek().token.same(&Token::Comma) {
                    break;
                }
                self.advance();
                if !self.moved_from(k) {
                    return Err(self.end_error());
                }
            }
        }
        proof {
            lemma_deep_call(name, arguments);
        }
        match self.consume(&Token::RParen, "Expected ')' after arguments") {
            Err(x) => Err(x),
            Ok(()) => Ok(Expression::Call { function: name, arguments }),
        }
    }

    fn parse_let_statement(&mut self) -> (r: Result<Statement, CrabbyError>)
        requires
            old(self).ready(),
        ensures
            final(self).ready(),
            final(self).tokens == old(self).tokens,
            stmt_outcome(r, final(self).pos(), p_let(old(self).toks(), old(self).pos())),
        decreases old(self).toks().len() - old(self).pos(), 7nat,
    {
        let i = self.current;
        let name = match &self.peek().token {
            Token::Identifier(name) => name.clone(),
            _ => {
                return Err(self.error("Expected variable name"));
            },
        };
        self.advance();
        match self.consume(&Token::Equals, "Expected '=' after variable name") {
            Err(x) => {
                return Err(x);
            },
            Ok(()) => {},
        }
        if !self.kept_from(i) {
            return Err(self.end_error());
        }
        match self.parse_expression() {
            Err(x) => Err(x),
            Ok(v) => Ok(Statement::Let { name, value: Box::new(v) }),
        }
    }

    fn parse_function_definition(&mut self) -> (r: Result<Statement, CrabbyError>)
        requires
            old(self).ready(),
        ensures
            final(self).ready(),
            final(self).tokens == old(self).tokens,
            stmt_outcome(r, final(self).pos(), p_function(old(self).toks(), old(self).pos())),
        decreases old(self).toks().len() - old(self).pos(), 7nat,
    {
        let i = self.current;
        let name = match &self.peek().token {
            Token::Identifier(name) => name.clone(),
            _ => {
                return Err(self.error("Expected function name"));
            },
        };
        self.advance();
        match self.consume(&Token::LParen, "Expected '(' after function name") {
            Err(x) => {
                return Err(x);
            },
            Ok(()) => {},
        }
        if !self.kept_from(i) {
            return Err(self.end_error());
        }
        let params = match self.parse_params() {
            Err(x) => {
                return Err(x);
            },
            Ok(ps) => ps,
        };
        match self.consume(&Token::Colon, "Expected ':' after parameters") {
            Err(x) => {
                return Err(x);
            },
            Ok(()) => {},
        }
        if !self.moved_from(i) {
            return Err(self.end_error());
        }
        match self.parse_block() {
            Err(x) => Err(x),
            Ok(body) => Ok(Statement::FunctionDef { name, params, body: Rc::new(body) }),
        }
    }

    fn parse_if_statement(&mut self) -> (r: Result<Statement, CrabbyError>)
        requires
            old(self).ready(),
        ensures
            final(self).ready(),
            final(self).tokens == old(self).tokens,
            stmt_outcome(r, final(self).pos(), p_if(old(self).toks(), old(self).pos())),
        decreases old(self).toks().len() - old(self).pos(), 7nat,
    {
        let i = self.current;
        let condition = match self.parse_expression() {
            Err(x) => {
                return Err(x);
            },
            Ok(c) => c,
        };
        match self.consume(&Token::Colon, "Expected ':' after if condition") {
            Err(x) => {
                return Err(x);
            },
            Ok(()) => {},
        }
        if !self.moved_from(i) {
            return Err(self.end_error());
        }
        let then_branch = match self.parse_block() {
            Err(x) => {
                return Err(x);
            },
            Ok(t) => t,
        };
        if self.peek().token.same(&Token::Else) {
            self.advance();
            if !self.moved_from(i) {
                return Err(self.end_error());
            }
            match self.parse_block() {
                Err(x) => Err(x),
                Ok(e) => Ok(
                    Statement::If {
                        condition: Box::new(condition),
                        then_branch: Box::new(then_branch),
                        else_branch: Some(Box::new(e)),
                    },
                ),
            }
        } else {
            Ok(
                Statement::If {
                    condition: Box::new(condition),
                    then_branch: Box::new(then_branch),
                    else_branch: None,
                },
            )
        }
    }

    fn parse_while_statement(&mut self) -> (r: Result<Statement, CrabbyError>)
        requires
            old(self).ready(),
        ensures
            final(self).ready(),
            final(self).tokens == old(self).tokens,
            stmt_outcome(r, final(self).pos(), p_while(old(self).toks(), old(self).pos())),
        decreases old(self).toks().len() - old(self).pos(), 7nat,
    {
        let i = self.current;
        let condition = match self.parse_expression() {
            Err(x) => {
                return Err(x);
            },
            Ok(c) => c,
        };
        match self.consume(&Token::Colon, "Expected ':' after while condition") {
            Err(x) => {
                return Err(x);
            },
            Ok(()) => {},
        }
        if !self.moved_from(i) {
            return Err(self.end_error());
        }
        match self.parse_block() {
            Err(x) => Err(x),
            Ok(body) => Ok(Statement::While { condition: Box::new(condition), body: Box::new(body) }),
        }
    }

    fn parse_statement(&mut self) -> (r: Result<Statement, CrabbyError>)
        requires
            old(self).ready(),
        ensures
            final(self).ready(),
            final(self).tokens == old(self).tokens,
            stmt_outcome(r, final(self).pos(), p_stmt(old(self).toks(), old(self).pos())),
        decreases old(self).toks().len() - old(self).pos(), 8nat,
    {
        match &self.peek().token {
            Token::Def => {
                self.advance();
                self.parse_function_definition()
            },
            Token::Let => {
                self.advance();
                self.parse_let_statement()
            },
            Token::Return => {
                self.advance();
                match self.parse_expression() {
                    Err(x) => Err(x),
                    Ok(e) => Ok(Statement::Return(Box::new(e))),
                }
            },
            Token::If => {
                self.advance();
                self.parse_if_statement()
            },
            Token::While => {
                self.advance();
                self.parse_while_statement()
            },
            _ => match self.parse_expression() {
                Err(x) => Err(x),
                Ok(e) => Ok(Statement::Expression(e)),
            },
        }
    }

    fn parse_block(&mut self) -> (r: Result<Statement, CrabbyError>)
        requires
            old(self).ready(),
        ensures
            final(self).ready(),
            final(self).tokens == old(self).tokens,
            stmt_outcome(r, final(self).pos(), p_block(old(self).toks(), old(self).pos())),
        decreases old(self).toks().len() - old(self).pos(), 10nat,
    {
        let i = self.current;
        match self.consume(&Token::LBrace, "Expected '{' at start of block") {
            Err(x) => {
                return Err(x);
            },
            Ok(()) => {},
        }
        if !self.kept_from(i) {
            return Err(self.end_error());
        }
        let j0 = self.current;
        let mut statements: Vec<Statement> = Vec::new();
        assert(deep_stmts(statements@) =~= Seq::<SStmt>::empty());
        while !self.peek().token.same(&Token::RBrace) && !self.is_at_end()
            invariant
                self.ready(),
                self.tokens == old(self).tokens,
                old(self).pos() <= j0 <= self.pos(),
                expect(old(self).toks(), old(self).pos(), Tk::LBrace, "Expected '{' at start of block"@) == Ok::<int, Fault>(j0 as int),
                crate::grammar::kept(old(self).toks(), old(self).pos(), j0 as int),
                p_items(self.toks(), j0 as int, Seq::empty()) == p_items(self.toks(), self.pos(), deep_stmts(statements@)),
            decreases self.toks().len() - self.pos(),
        {
            let j = self.current;
            let s = match self.parse_statement() {
                Err(x) => {
                    return Err(x);
                },
                Ok(s) => s,
            };
            if !self.moved_from(j) {
                return Err(self.end_error());
            }
            let ghost acc = deep_stmts(statements@);
            statements.push(s);
            assert(deep_stmts(statements@) =~= acc.push(deep_stmt(s)));
        }
        proof {
            lemma_deep_block(statements);
        }
        match self.consume(&Token::RBrace, "Expected '}' at end of block") {
            Err(x) => Err(x),
            Ok(()) => Ok(Statement::Block(statements)),
        }
    }

    /// Parses the remaining tokens as a program.
    pub fn parse(&mut self) -> (r: Result<Program, CrabbyError>)
        requires
            old(self).wf(),
        ensures
            final(self).toks() == old(self).toks(),
            match r {
                Ok(p) => p_program(old(self).toks(), old(self).pos(), Seq::empty()) == Ok::<Seq<SStmt>, Fault>(deep_stmts(p.statements@)),
                Err(x) => p_program(old(self).toks(), old(self).pos(), Seq::empty()) == Err::<Seq<SStmt>, Fault>(x@),
            },
    {
        let mut program = Program::new();
        assert(deep_stmts(program.statements@) =~= Seq::<SStmt>::empty());
        while !self.is_at_end()
            invariant
                self.wf(),
                self.tokens == old(self).tokens,
                p_program(old(self).toks(), old(self).pos(), Seq::empty()) == p_program(self.toks(), self.pos(), deep_stmts(program.statements@)),
            decreases self.toks().len() - self.pos(),
        {
            let i = self.current;
            let s = match self.parse_statement() {
                Err(x) => {
                    return Err(x);
                },
                Ok(s) => s,
            };
            if !self.moved_from(i) {
                return Err(self.end_error());
            }
            let ghost acc = deep_stmts(program.statements@);
            program.statements.push(s);
            assert(deep_stmts(program.statements@) =~= acc.push(deep_stmt(s)));
        }
        Ok(program)
    }
}

/// Parses a token sequence into a program.
pub fn parse(tokens: Vec<TokenStream>) -> (r: Result<Program, CrabbyError>)
    ensures
        match r {
            Ok(p) => parse_tokens(lexemes(tokens@)) == Ok::<Seq<SStmt>, Fault>(deep_stmts(p.statements@)),
            Err(x) => parse_tokens(lexemes(tokens@)) == Err::<Seq<SStmt>, Fault>(x@),
        },
{
    let mut parser = Parser::new(tokens.as_slice());
    parser.parse()
}

} // verus!
