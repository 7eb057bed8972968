use crate::ast::{BinaryOp, SExpr, SStmt};
use crate::lexer::{Lexeme, Tk};
use crate::utils::{Fault, Span};
use vstd::prelude::*;

verus! {

/// The token at position `i`; past the end, the last token.
pub open spec fn tk(ts: Seq<Lexeme>, i: int) -> Tk {
    if 0 <= i < ts.len() {
        ts[i].token
    } else {
        ts[ts.len() - 1].token
    }
}

/// The span reported for an error at position `i`; past the end, the last token's.
pub open spec fn span_at(ts: Seq<Lexeme>, i: int) -> Span {
    if 0 <= i < ts.len() {
        ts[i].span
    } else {
        ts[ts.len() - 1].span
    }
}

pub open spec fn perr(ts: Seq<Lexeme>, i: int, msg: Seq<char>) -> Fault {
    Fault::Parser { line: span_at(ts, i).line, column: span_at(ts, i).column, message: msg }
}

pub open spec fn msg_end() -> Seq<char> {
    "Unexpected end of input"@
}

/// Position `k` lies after `i`, within the tokens.
pub open spec fn moved(ts: Seq<Lexeme>, i: int, k: int) -> bool {
    i < k <= ts.len()
}

/// Position `k` lies at or after `i`, within the tokens.
pub open spec fn kept(ts: Seq<Lexeme>, i: int, k: int) -> bool {
    i <= k <= ts.len()
}

/// The position after `i`; the end does not move.
pub open spec fn adv(ts: Seq<Lexeme>, i: int) -> int {
    if i < ts.len() {
        i + 1
    } else {
        i
    }
}

/// Consumes token `t` at `i`, or fails with `msg` there.
pub open spec fn expect(ts: Seq<Lexeme>, i: int, t: Tk, msg: Seq<char>) -> Result<int, Fault> {
    if tk(ts, i) == t {
        Ok(adv(ts, i))
    } else {
        Err(perr(ts, i, msg))
    }
}

/// The operator of a token, for the binary operators.
pub open spec fn binop(t: Tk) -> Option<BinaryOp> {
    match t {
        Tk::Plus => Some(BinaryOp::Add),
        Tk::Minus => Some(BinaryOp::Sub),
        Tk::Star => Some(BinaryOp::Mul),
        Tk::Slash => Some(BinaryOp::Div),
        Tk::DoubleEquals => Some(BinaryOp::Eq),
        Tk::Dot => Some(BinaryOp::Dot),
        _ => None,
    }
}

/// Parameter names from `i` on, after at least one: `a, b, c )`.
pub open spec fn p_params(ts: Seq<Lexeme>, i: int, acc: Seq<Seq<char>>) -> Result<(Seq<Seq<char>>, int), Fault>
    decreases ts.len() - i, 0nat,
{
    match tk(ts, i) {
        Tk::Ident(p) => {
            let j = adv(ts, i);
            if tk(ts, j) == Tk::RParen {
                Ok((acc.push(p), adv(ts, j)))
            } else {
                match expect(ts, j, Tk::Comma, "Expected ',' between parameters"@) {
                    Err(x) => Err(x),
                    Ok(k) => if !moved(ts, i, k) {
                        Err(perr(ts, k, msg_end()))
                    } else {
                        p_params(ts, k, acc.push(p))
                    },
                }
            }
        },
        _ => Err(perr(ts, i, "Expected parameter name"@)),
    }
}

/// A parenthesised parameter list after its '(' : `)` or `a, b)`.
pub open spec fn p_param_list(ts: Seq<Lexeme>, i: int) -> Result<(Seq<Seq<char>>, int), Fault>
    decreases ts.len() - i, 1nat,
{
    if tk(ts, i) == Tk::RParen {
        Ok((Seq::empty(), adv(ts, i)))
    } else {
        p_params(ts, i, Seq::empty())
    }
}

/// A primary expression: a literal, a name, a call, a lambda or a parenthesised expression.
pub open spec fn p_primary(ts: Seq<Lexeme>, i: int) -> Result<(SExpr, int), Fault>
    decreases ts.len() - i, 2nat,
{
    match tk(ts, i) {
        Tk::Integer(n) => Ok((SExpr::Integer(n), adv(ts, i))),
        Tk::Str(s) => Ok((SExpr::Str(s), adv(ts, i))),
        Tk::Ident(name) => {
            let j = adv(ts, i);
            if tk(ts, j) == Tk::LParen {
                if !moved(ts, i, j) {
                    Err(perr(ts, j, msg_end()))
                } else {
                    p_call(ts, name, j)
                }
            } else {
                Ok((SExpr::Variable(name), j))
            }
        },
        Tk::Lambda => match expect(ts, adv(ts, i), Tk::LParen, "Expected '(' after lambda"@) {
            Err(x) => Err(x),
            Ok(k) => if !moved(ts, i, k) {
                Err(perr(ts, k, msg_end()))
            } else {
                match p_param_list(ts, k) {
                    Err(x) => Err(x),
                    Ok((ps, m)) => match expect(ts, m, Tk::Colon, "Expected ':' after parameters"@) {
                        Err(x) => Err(x),
                        Ok(n) => if !moved(ts, i, n) {
                            Err(perr(ts, n, msg_end()))
                        } else {
                            match p_block(ts, n) {
                                Err(x) => Err(x),
                                Ok((b, q)) => Ok((SExpr::Lambda(ps, Box::new(b)), q)),
                            }
                        },
                    },
                }
            },
        },
        Tk::LParen => {
            let j = adv(ts, i);
            if !moved(ts, i, j) {
                Err(perr(ts, j, msg_end()))
            } else {
                match p_expr(ts, j) {
                    Err(x) => Err(x),
                    Ok((e, k)) => match expect(ts, k, Tk::RParen, "Expected ')' after expression"@) {
                        Err(x) => Err(x),
                        Ok(m) => Ok((e, m)),
                    },
                }
            }
        },
        _ => Err(perr(ts, i, "Expected expression"@)),
    }
}

/// The operators and operands after `left`, taken from left to right with no precedence.
pub open spec fn p_tail(ts: Seq<Lexeme>, left: SExpr, j: int) -> Result<(SExpr, int), Fault>
    decreases ts.len() - j, 3nat,
{
    match binop(tk(ts, j)) {
        Some(op) => match p_primary(ts, adv(ts, j)) {
            Err(x) => Err(x),
            Ok((r, m)) => if !moved(ts, j, m) {
                Err(perr(ts, m, msg_end()))
            } else {
                p_tail(ts, SExpr::Binary(Box::new(left), op, Box::new(r)), m)
            },
        },
        None => Ok((left, j)),
    }
}

/// An expression.
pub open spec fn p_expr(ts: Seq<Lexeme>, i: int) -> Result<(SExpr, int), Fault>
    decreases ts.len() - i, 4nat,
{
    match p_primary(ts, i) {
        Err(x) => Err(x),
        Ok((e, j)) => if !kept(ts, i, j) {
            Err(perr(ts, j, msg_end()))
        } else {
            p_tail(ts, e, j)
        },
    }
}

/// Call arguments from `k` on: `a, b` up to the token after the last one.
pub open spec fn p_args(ts: Seq<Lexeme>, k: int, acc: Seq<SExpr>) -> Result<(Seq<SExpr>, int), Fault>
    decreases ts.len() - k, 5nat,
{
    match p_expr(ts, k) {
        Err(x) => Err(x),
        Ok((e, m)) => if tk(ts, m) == Tk::Comma {
            let n = adv(ts, m);
            if !moved(ts, k, n) {
                Err(perr(ts, n, msg_end()))
            } else {
                p_args(ts, n, acc.push(e))
            }
        } else {
            Ok((acc.push(e), m))
        },
    }
}

/// A call of `name` whose '(' stands at `j`.
pub open spec fn p_call(ts: Seq<Lexeme>, name: Seq<char>, j: int) -> Result<(SExpr, int), Fault>
    decreases ts.len() - j, 6nat,
{
    let k = adv(ts, j);
    let args = if tk(ts, k) == Tk::RParen {
        Ok((Seq::<SExpr>::empty(), k))
    } else {
        p_args(ts, k, Seq::empty())
    };
    match args {
        Err(x) => Err(x),
        Ok((a, m)) => match expect(ts, m, Tk::RParen, "Expected ')' after arguments"@) {
            Err(x) => Err(x),
            Ok(n) => Ok((SExpr::Call(name, a), n)),
        },
    }
}

/// `name(params): { ... }`, after `def`.
pub open spec fn p_function(ts: Seq<Lexeme>, i: int) -> Result<(SStmt, int), Fault>
    decreases ts.len() - i, 7nat,
{
    match tk(ts, i) {
        Tk::Ident(name) => match expect(
            ts,
            adv(ts, i),
            Tk::LParen,
            "Expected '(' after function name"@,
        ) {
            Err(x) => Err(x),
            Ok(k) => if !kept(ts, i, k) {
                Err(perr(ts, k, msg_end()))
            } else {
                match p_param_list(ts, k) {
                    Err(x) => Err(x),
                    Ok((ps, m)) => match expect(ts, m, Tk::Colon, "Expected ':' after parameters"@) {
                        Err(x) => Err(x),
                        Ok(n) => if !moved(ts, i, n) {
                            Err(perr(ts, n, msg_end()))
                        } else {
                            match p_block(ts, n) {
                                Err(x) => Err(x),
                                Ok((b, q)) => Ok((SStmt::FunctionDef(name, ps, Box::new(b)), q)),
                            }
                        },
                    },
                }
            },
        },
        _ => Err(perr(ts, i, "Expected function name"@)),
    }
}

/// `name = expression`, after `let`.
pub open spec fn p_let(ts: Seq<Lexeme>, i: int) -> Result<(SStmt, int), Fault>
    decreases ts.len() - i, 7nat,
{
    match tk(ts, i) {
        Tk::Ident(name) => match expect(
            ts,
            adv(ts, i),
            Tk::Equals,
            "Expected '=' after variable name"@,
        ) {
            Err(x) => Err(x),
            Ok(k) => if !kept(ts, i, k) {
                Err(perr(ts, k, msg_end()))
            } else {
                match p_expr(ts, k) {
                    Err(x) => Err(x),
                    Ok((v, m)) => Ok((SStmt::Let(name, Box::new(v)), m)),
                }
            },
        },
        _ => Err(perr(ts, i, "Expected variable name"@)),
    }
}

/// `condition: { ... }` with an optional `else { ... }`, after `if`.
pub open spec fn p_if(ts: Seq<Lexeme>, i: int) -> Result<(SStmt, int), Fault>
    decreases ts.len() - i, 7nat,
{
    match p_expr(ts, i) {
        Err(x) => Err(x),
        Ok((c, j)) => match expect(ts, j, Tk::Colon, "Expected ':' after if condition"@) {
            Err(x) => Err(x),
            Ok(k) => if !moved(ts, i, k) {
                Err(perr(ts, k, msg_end()))
            } else {
                match p_block(ts, k) {
                    Err(x) => Err(x),
                    Ok((t, m)) => if tk(ts, m) == Tk::Else {
                        let n = adv(ts, m);
                        if !moved(ts, i, n) {
                            Err(perr(ts, n, msg_end()))
                        } else {
                            match p_block(ts, n) {
                                Err(x) => Err(x),
                                Ok((e, q)) => Ok(
                                    (SStmt::If(Box::new(c), Box::new(t), Some(Box::new(e))), q),
                                ),
                            }
                        }
                    } else {
                        Ok((SStmt::If(Box::new(c), Box::new(t), None), m))
                    },
                }
            },
        },
    }
}

/// `condition: { ... }`, after `while`.
pub open spec fn p_while(ts: Seq<Lexeme>, i: int) -> Result<(SStmt, int), Fault>
    decreases ts.len() - i, 7nat,
{
    match p_expr(ts, i) {
        Err(x) => Err(x),
        Ok((c, j)) => match expect(ts, j, Tk::Colon, "Expected ':' after while condition"@) {
            Err(x) => Err(x),
            Ok(k) => if !moved(ts, i, k) {
                Err(perr(ts, k, msg_end()))
            } else {
                match p_block(ts, k) {
                    Err(x) => Err(x),
                    Ok((b, m)) => Ok((SStmt::While(Box::new(c), Box::new(b)), m)),
                }
            },
        },
    }
}

/// A statement.
pub open spec fn p_stmt(ts: Seq<Lexeme>, i: int) -> Result<(SStmt, int), Fault>
    decreases ts.len() - i, 8nat,
{
    match tk(ts, i) {
        Tk::Def => p_function(ts, adv(ts, i)),
        Tk::Let => p_let(ts, adv(ts, i)),
        Tk::Return => match p_expr(ts, adv(ts, i)) {
            Err(x) => Err(x),
            Ok((e, j)) => Ok((SStmt::Return(Box::new(e)), j)),
        },
        Tk::If => p_if(ts, adv(ts, i)),
        Tk::While => p_while(ts, adv(ts, i)),
        _ => match p_expr(ts, i) {
            Err(x) => Err(x),
            Ok((e, j)) => Ok((SStmt::Expression(e), j)),
        },
    }
}

/// The statements of a block from `j` up to its '}' or the end.
pub open spec fn p_items(ts: Seq<Lexeme>, j: int, acc: Seq<SStmt>) -> Result<(Seq<SStmt>, int), Fault>
    decreases ts.len() - j, 9nat,
{
    if tk(ts, j) == Tk::RBrace || j >= ts.len() {
        Ok((acc, j))
    } else {
        match p_stmt(ts, j) {
            Err(x) => Err(x),
            Ok((s, k)) => if !moved(ts, j, k) {
                Err(perr(ts, k, msg_end()))
            } else {
                p_items(ts, k, acc.push(s))
            },
        }
    }
}

/// A brace-delimited block.
pub open spec fn p_block(ts: Seq<Lexeme>, i: int) -> Result<(SStmt, int), Fault>
    decreases ts.len() - i, 10nat,
{
    match expect(ts, i, Tk::LBrace, "Expected '{' at start of block"@) {
        Err(x) => Err(x),
        Ok(j) => if !kept(ts, i, j) {
            Err(perr(ts, j, msg_end()))
        } else {
            match p_items(ts, j, Seq::empty()) {
                Err(x) => Err(x),
                Ok((ss, k)) => match expect(ts, k, Tk::RBrace, "Expected '}' at end of block"@) {
                    Err(x) => Err(x),
                    Ok(m) => Ok((SStmt::Block(ss), m)),
                },
            }
        }
    }
}

/// The top-level statements from `i` on.
pub open spec fn p_program(ts: Seq<Lexeme>, i: int, acc: Seq<SStmt>) -> Result<Seq<SStmt>, Fault>
    decreases ts.len() - i,
{
    if i >= ts.len() {
        Ok(acc)
    } else {
        match p_stmt(ts, i) {
            Err(x) => Err(x),
            Ok((s, k)) => if !moved(ts, i, k) {
                Err(perr(ts, k, msg_end()))
            } else {
                p_program(ts, k, acc.push(s))
            },
        }
    }
}

/// The statements that a token sequence parses to.
pub open spec fn parse_tokens(ts: Seq<Lexeme>) -> Result<Seq<SStmt>, Fault> {
    p_program(ts, 0, Seq::empty())
}

} // verus!
