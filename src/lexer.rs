use crate::text::{digits, owned, push_char, push_digits, push_text, same_text};
use crate::utils::{CrabbyError, Fault, Span};
use vstd::prelude::*;
use vstd::string::StrSliceExecFns;

verus! {

/// A lexical unit of the language.
#[derive(Debug)]
pub enum Token {
    Def,
    Return,
    If,
    Else,
    While,
    Let,
    Lambda,
    Integer(i64),
    String(String),
    Identifier(String),
    Plus,
    Minus,
    Star,
    Slash,
    Equals,
    DoubleEquals,
    LParen,
    RParen,
    LBrace,
    RBrace,
    Colon,
    Comma,
    Dot,
}

/// What a token holds, with its text as a character sequence.
pub enum Tk {
    Def,
    Return,
    If,
    Else,
    While,
    Let,
    Lambda,
    Integer(i64),
    Str(Seq<char>),
    Ident(Seq<char>),
    Plus,
    Minus,
    Star,
    Slash,
    Equals,
    DoubleEquals,
    LParen,
    RParen,
    LBrace,
    RBrace,
    Colon,
    Comma,
    Dot,
}

impl View for Token {
    type V = Tk;

    open spec fn view(&self) -> Tk {
        match self {
            Token::Def => Tk::Def,
            Token::Return => Tk::Return,
            Token::If => Tk::If,
            Token::Else => Tk::Else,
            Token::While => Tk::While,
            Token::Let => Tk::Let,
            Token::Lambda => Tk::Lambda,
            Token::Integer(n) => Tk::Integer(*n),
            Token::String(s) => Tk::Str(s@),
            Token::Identifier(s) => Tk::Ident(s@),
            Token::Plus => Tk::Plus,
            Token::Minus => Tk::Minus,
            Token::Star => Tk::Star,
            Token::Slash => Tk::Slash,
            Token::Equals => Tk::Equals,
            Token::DoubleEquals => Tk::DoubleEquals,
            Token::LParen => Tk::LParen,
            Token::RParen => Tk::RParen,
            Token::LBrace => Tk::LBrace,
            Token::RBrace => Tk::RBrace,
            Token::Colon => Tk::Colon,
            Token::Comma => Tk::Comma,
            Token::Dot => Tk::Dot,
        }
    }
}

impl Token {
    /// Whether two tokens are the same token with the same payload.
    pub fn same(&self, other: &Token) -> (r: bool)
        ensures
            r == (self@ == other@),
    {
        match (self, other) {
            (Token::Def, Token::Def) => true,
            (Token::Return, Token::Return) => true,
            (Token::If, Token::If) => true,
            (Token::Else, Token::Else) => true,
            (Token::While, Token::While) => true,
            (Token::Let, Token::Let) => true,
            (Token::Lambda, Token::Lambda) => true,
            (Token::Integer(a), Token::Integer(b)) => *a == *b,
            (Token::String(a), Token::String(b)) => same_text(a.as_str(), b.as_str()),
            (Token::Identifier(a), Token::Identifier(b)) => same_text(a.as_str(), b.as_str()),
            (Token::Plus, Token::Plus) => true,
            (Token::Minus, Token::Minus) => true,
            (Token::Star, Token::Star) => true,
            (Token::Slash, Token::Slash) => true,
            (Token::Equals, Token::Equals) => true,
            (Token::DoubleEquals, Token::DoubleEquals) => true,
            (Token::LParen, Token::LParen) => true,
            (Token::RParen, Token::RParen) => true,
            (Token::LBrace, Token::LBrace) => true,
            (Token::RBrace, Token::RBrace) => true,
            (Token::Colon, Token::Colon) => true,
            (Token::Comma, Token::Comma) => true,
            (Token::Dot, Token::Dot) => true,
            _ => false,
        }
    }
}

/// A token with its position and its text in the source.
#[derive(Debug)]
pub struct TokenStream {
    pub token: Token,
    pub span: Span,
    pub slice: String,
}

/// What a `TokenStream` holds.
pub struct Lexeme {
    pub token: Tk,
    pub span: Span,
    pub slice: Seq<char>,
}

impl View for TokenStream {
    type V = Lexeme;

    open spec fn view(&self) -> Lexeme {
        Lexeme { token: self.token@, span: self.span, slice: self.slice@ }
    }
}

pub open spec fn is_space(c: char) -> bool {
    c == ' ' || c == '\t' || c == '\r' || c == '\n'
}

pub open spec fn is_digit(c: char) -> bool {
    '0' <= c <= '9'
}

pub open spec fn is_ident_start(c: char) -> bool {
    ('a' <= c <= 'z') || ('A' <= c <= 'Z') || c == '_'
}

pub open spec fn is_ident_char(c: char) -> bool {
    is_ident_start(c) || is_digit(c)
}

/// End of the run of digits that starts at `i`.
pub open spec fn digit_end(src: Seq<char>, i: int) -> int
    decreases src.len() - i,
{
    if 0 <= i < src.len() && is_digit(src[i]) {
        digit_end(src, i + 1)
    } else {
        i
    }
}

/// End of the run of identifier characters that starts at `i`.
pub open spec fn ident_end(src: Seq<char>, i: int) -> int
    decreases src.len() - i,
{
    if 0 <= i < src.len() && is_ident_char(src[i]) {
        ident_end(src, i + 1)
    } else {
        i
    }
}

/// Position of the first line break at or after `i`, or the end.
pub open spec fn line_end(src: Seq<char>, i: int) -> int
    decreases src.len() - i,
{
    if 0 <= i < src.len() && src[i] != '\n' && src[i] != '\r' {
        line_end(src, i + 1)
    } else {
        i
    }
}

/// Position of the first '"' at or after `i`, or the end.
pub open spec fn quote_end(src: Seq<char>, i: int) -> int
    decreases src.len() - i,
{
    if 0 <= i < src.len() && src[i] != '"' {
        quote_end(src, i + 1)
    } else {
        i
    }
}

pub open spec fn digit_value(c: char) -> int {
    (c as u32) - ('0' as u32)
}

/// The number that the digits from `i` up to `j` spell.
pub open spec fn number(src: Seq<char>, i: int, j: int) -> int
    decreases j - i,
{
    if j <= i {
        0
    } else {
        number(src, i, j - 1) * 10 + digit_value(src[j - 1])
    }
}

/// The keyword spelled by `w`, or an identifier.
pub open spec fn word(w: Seq<char>) -> Tk {
    if w == "def"@ {
        Tk::Def
    } else if w == "return"@ {
        Tk::Return
    } else if w == "if"@ {
        Tk::If
    } else if w == "else"@ {
        Tk::Else
    } else if w == "while"@ {
        Tk::While
    } else if w == "let"@ {
        Tk::Let
    } else if w == "lambda"@ {
        Tk::Lambda
    } else {
        Tk::Ident(w)
    }
}

/// The token of one character, if there is one.
pub open spec fn single(c: char) -> Option<Tk> {
    if c == '+' {
        Some(Tk::Plus)
    } else if c == '-' {
        Some(Tk::Minus)
    } else if c == '*' {
        Some(Tk::Star)
    } else if c == '/' {
        Some(Tk::Slash)
    } else if c == '(' {
        Some(Tk::LParen)
    } else if c == ')' {
        Some(Tk::RParen)
    } else if c == '{' {
        Some(Tk::LBrace)
    } else if c == '}' {
        Some(Tk::RBrace)
    } else if c == ':' {
        Some(Tk::Colon)
    } else if c == ',' {
        Some(Tk::Comma)
    } else if c == '.' {
        Some(Tk::Dot)
    } else {
        None
    }
}

/// The longest token that starts at `i` and where it ends, if one does.
pub open spec fn lexeme_at(src: Seq<char>, i: int) -> Option<(Tk, int)> {
    let c = src[i];
    if is_digit(c) {
        let j = digit_end(src, i);
        if number(src, i, j) <= i64::MAX {
            Some((Tk::Integer(number(src, i, j) as i64), j))
        } else {
            None
        }
    } else if is_ident_start(c) {
        let j = ident_end(src, i);
        Some((word(src.subrange(i, j)), j))
    } else if c == '"' {
        let j = quote_end(src, i + 1);
        if j < src.len() {
            Some((Tk::Str(src.subrange(i + 1, j)), j + 1))
        } else {
            None
        }
    } else if c == '=' {
        if i + 1 < src.len() && src[i + 1] == '=' {
            Some((Tk::DoubleEquals, i + 2))
        } else {
            Some((Tk::Equals, i + 1))
        }
    } else {
        match single(c) {
            Some(t) => Some((t, i + 1)),
            None => None,
        }
    }
}

/// Bytes that a character takes in UTF-8.
pub open spec fn utf8_len(c: char) -> nat {
    if (c as u32) < 0x80 {
        1
    } else if (c as u32) < 0x800 {
        2
    } else if (c as u32) < 0x10000 {
        3
    } else {
        4
    }
}

/// Byte offset of character position `i`.
pub open spec fn byte_at(src: Seq<char>, i: int) -> nat
    decreases i,
{
    if i <= 0 {
        0
    } else {
        byte_at(src, i - 1) + utf8_len(src[i - 1])
    }
}

/// 1-based line and column of character position `i`.
pub open spec fn line_col(src: Seq<char>, i: int) -> (nat, nat)
    decreases i,
{
    if i <= 0 {
        (1, 1)
    } else {
        let (l, c) = line_col(src, i - 1);
        if src[i - 1] == '\n' {
            (l + 1, 1)
        } else {
            (l, c + 1)
        }
    }
}

pub open spec fn lexeme(src: Seq<char>, i: int, j: int, t: Tk) -> Lexeme {
    Lexeme {
        token: t,
        span: Span {
            start: byte_at(src, i) as usize,
            end: byte_at(src, j) as usize,
            line: line_col(src, i).0 as usize,
            column: line_col(src, i).1 as usize,
        },
        slice: src.subrange(i, j),
    }
}

/// The error for a character at which no token starts.
pub open spec fn invalid_at(src: Seq<char>, i: int) -> Fault {
    Fault::Lexer {
        line: line_col(src, i).0 as usize,
        column: line_col(src, i).1 as usize,
        message: "Invalid character '"@ + seq![src[i]] + "' at position "@ + digits(byte_at(src, i)),
    }
}

pub open spec fn prepend(acc: Seq<Lexeme>, r: Result<Seq<Lexeme>, Fault>) -> Result<Seq<Lexeme>, Fault> {
    match r {
        Ok(rest) => Ok(acc + rest),
        Err(f) => Err(f),
    }
}

/// The tokens of the source from position `i` on.
pub open spec fn scan(src: Seq<char>, i: int) -> Result<Seq<Lexeme>, Fault>
    decreases src.len() - i,
{
    if i < 0 || i >= src.len() {
        Ok(Seq::empty())
    } else if is_space(src[i]) {
        scan(src, i + 1)
    } else if src[i] == '/' && i + 1 < src.len() && src[i + 1] == '/' {
        if i < line_end(src, i + 2) <= src.len() {
            scan(src, line_end(src, i + 2))
        } else {
            Ok(Seq::empty())
        }
    } else {
        match lexeme_at(src, i) {
            None => Err(invalid_at(src, i)),
            Some((t, j)) => if j <= i || j > src.len() {
                Err(invalid_at(src, i))
            } else {
                prepend(seq![lexeme(src, i, j, t)], scan(src, j))
            },
        }
    }
}

/// The tokens of a source text; a text without any is refused.
pub open spec fn lex(src: Seq<char>) -> Result<Seq<Lexeme>, Fault> {
    match scan(src, 0) {
        Ok(ts) => if ts.len() == 0 {
            Err(Fault::Lexer { line: 1, column: 1, message: "Empty source file"@ })
        } else {
            Ok(ts)
        },
        Err(f) => Err(f),
    }
}

/// The characters of a text, one by one.
fn chars_of(source: &str) -> (r: Vec<char>)
    ensures
        r@ == source@,
{
    let n = source.unicode_len();
    let mut r: Vec<char> = Vec::new();
    let mut i: usize = 0;
    while i < n
        invariant
            n == source@.len(),
            i <= n,
            r@ == source@.subrange(0, i as int),
        decreases n - i,
    {
        r.push(source.get_char(i));
        i = i + 1;
        assert(r@ =~= source@.subrange(0, i as int));
    }
    assert(r@ =~= source@);
    r
}

/// A position in the source, with its byte offset, line and column.
struct Cursor {
    i: usize,
    byte: usize,
    line: usize,
    column: usize,
}

impl Cursor {
    spec fn at(&self, src: Seq<char>) -> bool {
        &&& self.i <= src.len()
        &&& self.byte == byte_at(src, self.i as int)
        &&& self.line == line_col(src, self.i as int).0
        &&& self.column == line_col(src, self.i as int).1
        &&& self.byte <= 4 * self.i
        &&& self.line <= self.i + 1
        &&& self.column <= self.i + 1
    }

    /// Moves over one character.
    fn step(&mut self, chars: &Vec<char>)
        requires
            old(self).at(chars@),
            old(self).i < chars@.len(),
            4 * chars@.len() < usize::MAX,
        ensures
            final(self).at(chars@),
            final(self).i == old(self).i + 1,
    {
        let c = chars[self.i];
        let u = c as u32;
        let w: usize = if u < 0x80 {
            1
        } else if u < 0x800 {
            2
        } else if u < 0x10000 {
            3
        } else {
            4
        };
        self.byte = self.byte + w;
        if c == '\n' {
            self.line = self.line + 1;
            self.column = 1;
        } else {
            self.column = self.column + 1;
        }
        self.i = self.i + 1;
    }

    /// Moves forward to position `j`.
    fn skip_to(&mut self, chars: &Vec<char>, j: usize)
        requires
            old(self).at(chars@),
            old(self).i <= j <= chars@.len(),
            4 * chars@.len() < usize::MAX,
        ensures
            final(self).at(chars@),
            final(self).i == j,
    {
        while self.i < j
            invariant
                self.at(chars@),
                self.i <= j <= chars@.len(),
                4 * chars@.len() < usize::MAX,
            decreases j - self.i,
        {
            self.step(chars);
        }
    }
}

fn is_digit_char(c: char) -> (r: bool)
    ensures
        r == is_digit(c),
{
    '0' <= c && c <= '9'
}

fn is_ident_start_char(c: char) -> (r: bool)
    ensures
        r == is_ident_start(c),
{
    ('a' <= c && c <= 'z') || ('A' <= c && c <= 'Z') || c == '_'
}

fn find_ident_end(chars: &Vec<char>, i: usize) -> (j: usize)
    requires
        i <= chars@.len(),
    ensures
        j == ident_end(chars@, i as int),
        i <= j <= chars@.len(),
        i < chars@.len() && is_ident_char(chars@[i as int]) ==> j > i,
{
    let mut k = i;
    while k < chars.len() && (is_ident_start_char(chars[k]) || is_digit_char(chars[k]))
        invariant
            i <= k <= chars@.len(),
            ident_end(chars@, i as int) == ident_end(chars@, k as int),
        decreases chars@.len() - k,
    {
        k = k + 1;
    }
    k
}

fn find_line_end(chars: &Vec<char>, i: usize) -> (j: usize)
    requires
        i <= chars@.len(),
    ensures
        j == line_end(chars@, i as int),
        i <= j <= chars@.len(),
{
    let mut k = i;
    while k < chars.len() && chars[k] != '\n' && chars[k] != '\r'
        invariant
            i <= k <= chars@.len(),
            line_end(chars@, i as int) == line_end(chars@, k as int),
        decreases chars@.len() - k,
    {
        k = k + 1;
    }
    k
}

fn find_quote_end(chars: &Vec<char>, i: usize) -> (j: usize)
    requires
        i <= chars@.len(),
    ensures
        j == quote_end(chars@, i as int),
        i <= j <= chars@.len(),
{
    let mut k = i;
    while k < chars.len() && chars[k] != '"'
        invariant
            i <= k <= chars@.len(),
            quote_end(chars@, i as int) == quote_end(chars@, k as int),
        decreases chars@.len() - k,
    {
        k = k + 1;
    }
    k
}

/// Reads the run of digits at `i`: where it ends, and its value if it fits in `i64`.
fn read_number(chars: &Vec<char>, i: usize) -> (r: (usize, Option<i64>))
    requires
        i <= chars@.len(),
    ensures
        r.0 == digit_end(chars@, i as int),
        i <= r.0 <= chars@.len(),
        i < chars@.len() && is_digit(chars@[i as int]) ==> r.0 > i,
        r.1 == (if number(chars@, i as int, r.0 as int) <= i64::MAX {
            Some(number(chars@, i as int, r.0 as int) as i64)
        } else {
            None::<i64>
        }),
{
    let mut k = i;
    let mut acc: u64 = 0;
    let mut big = false;
    while k < chars.len() && is_digit_char(chars[k])
        invariant
            i <= k <= chars@.len(),
            digit_end(chars@, i as int) == digit_end(chars@, k as int),
            !big ==> acc == number(chars@, i as int, k as int) && acc <= i64::MAX,
            big ==> number(chars@, i as int, k as int) > i64::MAX,
            number(chars@, i as int, k as int) >= 0,
        decreases chars@.len() - k,
    {
        let c = chars[k];
        let d: u64 = (c as u32 - '0' as u32) as u64;
        assert(d == digit_value(chars@[k as int]));
        let ghost before = number(chars@, i as int, k as int);
        assert(number(chars@, i as int, k + 1) == before * 10 + d);
        if !big {
            let v: u128 = acc as u128 * 10 + d as u128;
            if v > i64::MAX as u128 {
                big = true;
            } else {
                acc = v as u64;
            }
        } else {
            assert(before * 10 + d > i64::MAX) by (nonlinear_arith)
                requires
                    before > i64::MAX,
                    d >= 0,
            ;
        }
        assert(number(chars@, i as int, k + 1) >= 0) by (nonlinear_arith)
            requires
                number(chars@, i as int, k + 1) == before * 10 + d,
                before >= 0,
                d >= 0,
        ;
        k = k + 1;
    }
    if big {
        (k, None)
    } else {
        (k, Some(acc as i64))
    }
}

/// The characters from `i` up to `j` as a string.
fn slice_of(chars: &Vec<char>, i: usize, j: usize) -> (r: String)
    requires
        i <= j <= chars@.len(),
    ensures
        r@ == chars@.subrange(i as int, j as int),
{
    let mut r = String::new();
    let mut k = i;
    while k < j
        invariant
            i <= k <= j <= chars@.len(),
            r@ == chars@.subrange(i as int, k as int),
        decreases j - k,
    {
        push_char(&mut r, chars[k]);
        k = k + 1;
        assert(r@ =~= chars@.subrange(i as int, k as int));
    }
    assert(r@ =~= chars@.subrange(i as int, j as int));
    r
}

fn word_token(w: String) -> (t: Token)
    ensures
        t@ == word(w@),
{
    let s = w.as_str();
    if same_text(s, "def") {
        Token::Def
    } else if same_text(s, "return") {
        Token::Return
    } else if same_text(s, "if") {
        Token::If
    } else if same_text(s, "else") {
        Token::Else
    } else if same_text(s, "while") {
        Token::While
    } else if same_text(s, "let") {
        Token::Let
    } else if same_text(s, "lambda") {
        Token::Lambda
    } else {
        Token::Identifier(w)
    }
}

fn single_token(c: char) -> (t: Option<Token>)
    ensures
        match t {
            Some(x) => single(c) == Some(x@),
            None => single(c) is None,
        },
{
    if c == '+' {
        Some(Token::Plus)
    } else if c == '-' {
        Some(Token::Minus)
    } else if c == '*' {
        Some(Token::Star)
    } else if c == '/' {
        Some(Token::Slash)
    } else if c == '(' {
        Some(Token::LParen)
    } else if c == ')' {
        Some(Token::RParen)
    } else if c == '{' {
        Some(Token::LBrace)
    } else if c == '}' {
        Some(Token::RBrace)
    } else if c == ':' {
        Some(Token::Colon)
    } else if c == ',' {
        Some(Token::Comma)
    } else if c == '.' {
        Some(Token::Dot)
    } else {
        None
    }
}

/// The longest token at `i`, and where it ends.
fn next_lexeme(chars: &Vec<char>, i: usize) -> (r: Option<(Token, usize)>)
    requires
        i < chars@.len(),
        4 * chars@.len() < usize::MAX,
    ensures
        match r {
            Some((t, j)) => lexeme_at(chars@, i as int) == Some((t@, j as int)) && i < j <= chars@.len(),
            None => lexeme_at(chars@, i as int) is None,
        },
{
    let c = chars[i];
    if is_digit_char(c) {
        let (j, v) = read_number(chars, i);
        assert(j > i);
        match v {
            Some(n) => Some((Token::Integer(n), j)),
            None => None,
        }
    } else if is_ident_start_char(c) {
        let j = find_ident_end(chars, i);
        assert(j > i);
        Some((word_token(slice_of(chars, i, j)), j))
    } else if c == '"' {
        let j = find_quote_end(chars, i + 1);
        if j < chars.len() {
            Some((Token::String(slice_of(chars, i + 1, j)), j + 1))
        } else {
            None
        }
    } else if c == '=' {
        if i + 1 < chars.len() && chars[i + 1] == '=' {
            Some((Token::DoubleEquals, i + 2))
        } else {
            Some((Token::Equals, i + 1))
        }
    } else {
        match single_token(c) {
            Some(t) => Some((t, i + 1)),
            None => None,
        }
    }
}

fn invalid_character(chars: &Vec<char>, cur: &Cursor) -> (e: CrabbyError)
    requires
        cur.at(chars@),
        cur.i < chars@.len(),
    ensures
        e@ == invalid_at(chars@, cur.i as int),
{
    let mut m = owned("Invalid character '");
    push_char(&mut m, chars[cur.i]);
    push_text(&mut m, "' at position ");
    push_digits(&mut m, cur.byte as u64);
    proof {
        let src = chars@;
        assert(m@ =~= "Invalid character '"@ + seq![src[cur.i as int]] + "' at position "@ + digits(byte_at(src, cur.i as int)));
    }
    CrabbyError::LexerError { line: cur.line, column: cur.column, message: m }
}

pub open spec fn lexemes(v: Seq<TokenStream>) -> Seq<Lexeme> {
    v.map_values(|t: TokenStream| t@)
}

/// Splits a source text into tokens, dropping whitespace and `//` comments.
pub fn tokenize(source: &str) -> (r: Result<Vec<TokenStream>, CrabbyError>)
    requires
        4 * source@.len() < usize::MAX,
    ensures
        match r {
            Ok(ts) => lex(source@) == Ok::<Seq<Lexeme>, Fault>(lexemes(ts@)),
            Err(e) => lex(source@) == Err::<Seq<Lexeme>, Fault>(e@),
        },
{
    let chars = chars_of(source);
    let n = chars.len();
    let mut cur = Cursor { i: 0, byte: 0, line: 1, column: 1 };
    let mut toks: Vec<TokenStream> = Vec::new();
    while cur.i < n
        invariant
            n == chars@.len(),
            chars@ == source@,
            4 * n < usize::MAX,
            cur.at(chars@),
            scan(chars@, 0) == prepend(lexemes(toks@), scan(chars@, cur.i as int)),
        decreases n - cur.i,
    {
        let i = cur.i;
        let c = chars[i];
        if c == ' ' || c == '\t' || c == '\r' || c == '\n' {
            cur.step(&chars);
        } else if c == '/' && i + 1 < n && chars[i + 1] == '/' {
            let j = find_line_end(&chars, i + 2);
            cur.skip_to(&chars, j);
        } else {
            match next_lexeme(&chars, i) {
                None => {
                    return Err(invalid_character(&chars, &cur));
                },
                Some((t, j)) => {
                    let start = cur.byte;
                    let line = cur.line;
                    let column = cur.column;
                    cur.skip_to(&chars, j);
                    let item = TokenStream {
                        token: t,
                        span: Span::new(start, cur.byte, line, column),
                        slice: slice_of(&chars, i, j),
                    };
                    let ghost old_toks = toks@;
                    toks.push(item);
                    proof {
                        let src = chars@;
                        assert(item@ == lexeme(src, i as int, j as int, t@));
                        assert(lexemes(toks@) =~= lexemes(old_toks) + seq![item@]);
                        let rest = scan(src, j as int);
                        match rest {
                            Ok(x) => {
                                assert(lexemes(old_toks) + (seq![item@] + x) =~= lexemes(toks@) + x);
                            },
                            Err(_) => {},
                        }
                    }
                },
            }
        }
    }
    assert(lexemes(toks@) + Seq::<Lexeme>::empty() =~= lexemes(toks@));
    if toks.len() == 0 {
        return Err(CrabbyError::LexerError { line: 1, column: 1, message: owned("Empty source file") });
    }
    Ok(toks)
}

} // verus!
