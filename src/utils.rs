use crate::text::{digits, owned, push_digits, push_text};
use vstd::prelude::*;

verus! {

/// Position of a token in the source: byte offsets and 1-based line and column.
#[derive(Debug, Clone, Copy, PartialEq, Eq)]
pub struct Span {
    pub start: usize,
    pub end: usize,
    pub line: usize,
    pub column: usize,
}

impl Span {
    pub fn new(start: usize, end: usize, line: usize, column: usize) -> (r: Self)
        ensures
            r == (Span { start, end, line, column }),
    {
        Span { start, end, line, column }
    }

    /// The span as text: `line L column C (bytes S-E)`.
    pub fn to_string(&self) -> (r: String)
        ensures
            r@ == "line "@ + digits(self.line as nat) + " column "@ + digits(self.column as nat)
                + " (bytes "@ + digits(self.start as nat) + "-"@ + digits(self.end as nat) + ")"@,
    {
        let mut r = owned("line ");
        push_digits(&mut r, self.line as u64);
        push_text(&mut r, " column ");
        push_digits(&mut r, self.column as u64);
        push_text(&mut r, " (bytes ");
        push_digits(&mut r, self.start as u64);
        push_text(&mut r, "-");
        push_digits(&mut r, self.end as u64);
        push_text(&mut r, ")");
        r
    }
}

/// The three kinds of failure of the pipeline: lexing, parsing, evaluating.
#[derive(Debug)]
pub enum CrabbyError {
    LexerError { line: usize, column: usize, message: String },
    ParserError { line: usize, column: usize, message: String },
    CompileError(String),
}

/// What a `CrabbyError` holds, with its messages as character sequences.
pub enum Fault {
    Lexer { line: usize, column: usize, message: Seq<char> },
    Parser { line: usize, column: usize, message: Seq<char> },
    Compile(Seq<char>),
}

impl View for CrabbyError {
    type V = Fault;

    open spec fn view(&self) -> Fault {
        match self {
            CrabbyError::LexerError { line, column, message } => Fault::Lexer {
                line: *line,
                column: *column,
                message: message@,
            },
            CrabbyError::ParserError { line, column, message } => Fault::Parser {
                line: *line,
                column: *column,
                message: message@,
            },
            CrabbyError::CompileError(m) => Fault::Compile(m@),
        }
    }
}

impl CrabbyError {
    pub fn duplicate(&self) -> (r: CrabbyError)
        ensures
            r@ == self@,
    {
        match self {
            CrabbyError::LexerError { line, column, message } => CrabbyError::LexerError {
                line: *line,
                column: *column,
                message: message.clone(),
            },
            CrabbyError::ParserError { line, column, message } => CrabbyError::ParserError {
                line: *line,
                column: *column,
                message: message.clone(),
            },
            CrabbyError::CompileError(m) => CrabbyError::CompileError(m.clone()),
        }
    }
}

} // verus!
