use crabby::lexer::{tokenize, Token};
use crabby::utils::{CrabbyError, Span};

#[test]
fn tokens_with_spans() {
    let toks = tokenize("let x = 42").unwrap();
    assert_eq!(toks.len(), 4);
    assert!(matches!(toks[0].token, Token::Let));
    assert!(matches!(&toks[1].token, Token::Identifier(s) if s == "x"));
    assert!(matches!(toks[2].token, Token::Equals));
    assert!(matches!(toks[3].token, Token::Integer(42)));
    assert_eq!((toks[3].span.start, toks[3].span.end), (8, 10));
    assert_eq!((toks[3].span.line, toks[3].span.column), (1, 9));
    assert_eq!(toks[3].slice, "42");
}

#[test]
fn keywords_and_identifiers() {
    let toks = tokenize("def define lambda lambdas return if else while _x9").unwrap();
    assert!(matches!(toks[0].token, Token::Def));
    assert!(matches!(&toks[1].token, Token::Identifier(s) if s == "define"));
    assert!(matches!(toks[2].token, Token::Lambda));
    assert!(matches!(&toks[3].token, Token::Identifier(s) if s == "lambdas"));
    assert!(matches!(toks[4].token, Token::Return));
    assert!(matches!(toks[5].token, Token::If));
    assert!(matches!(toks[6].token, Token::Else));
    assert!(matches!(toks[7].token, Token::While));
    assert!(matches!(&toks[8].token, Token::Identifier(s) if s == "_x9"));
}

#[test]
fn double_equals_before_equals() {
    let toks = tokenize("a == b = c").unwrap();
    assert!(matches!(toks[1].token, Token::DoubleEquals));
    assert!(matches!(toks[3].token, Token::Equals));
}

#[test]
fn operators_and_delimiters() {
    let toks = tokenize("+-*/(){}:,.").unwrap();
    let kinds: Vec<bool> = vec![
        matches!(toks[0].token, Token::Plus),
        matches!(toks[1].token, Token::Minus),
        matches!(toks[2].token, Token::Star),
        matches!(toks[3].token, Token::Slash),
        matches!(toks[4].token, Token::LParen),
        matches!(toks[5].token, Token::RParen),
        matches!(toks[6].token, Token::LBrace),
        matches!(toks[7].token, Token::RBrace),
        matches!(toks[8].token, Token::Colon),
        matches!(toks[9].token, Token::Comma),
        matches!(toks[10].token, Token::Dot),
    ];
    assert!(kinds.iter().all(|k| *k));
    assert_eq!(toks.len(), 11);
}

#[test]
fn strings_lose_their_quotes() {
    let toks = tokenize("\"hello world\"").unwrap();
    assert!(matches!(&toks[0].token, Token::String(s) if s == "hello world"));
    assert_eq!(toks[0].slice, "\"hello world\"");
}

#[test]
fn comments_and_whitespace_are_skipped_with_positions() {
    let toks = tokenize("// note\n  let\ty // tail\r\n x").unwrap();
    assert_eq!(toks.len(), 3);
    assert_eq!((toks[0].span.line, toks[0].span.column), (2, 3));
    assert_eq!((toks[1].span.line, toks[1].span.column), (2, 7));
    assert_eq!((toks[2].span.line, toks[2].span.column), (3, 2));
    assert_eq!(toks[0].span.start, 10);
}

#[test]
fn byte_offsets_count_utf8_width() {
    let toks = tokenize("\"é\" x").unwrap();
    assert_eq!((toks[0].span.start, toks[0].span.end), (0, 4));
    assert_eq!((toks[1].span.start, toks[1].span.column), (5, 5));
}

#[test]
fn invalid_character_is_reported_with_position() {
    match tokenize("let x\n  @") {
        Err(CrabbyError::LexerError { line, column, message }) => {
            assert_eq!((line, column), (2, 3));
            assert_eq!(message, "Invalid character '@' at position 8");
        },
        other => panic!("unexpected {:?}", other),
    }
}

#[test]
fn empty_source_is_rejected() {
    for src in ["", "   \n\t", "// only a comment"] {
        match tokenize(src) {
            Err(CrabbyError::LexerError { line, column, message }) => {
                assert_eq!((line, column), (1, 1));
                assert_eq!(message, "Empty source file");
            },
            other => panic!("unexpected {:?}", other),
        }
    }
}

#[test]
fn unterminated_string_is_rejected() {
    match tokenize("x \"abc") {
        Err(CrabbyError::LexerError { message, .. }) => {
            assert_eq!(message, "Invalid character '\"' at position 2");
        },
        other => panic!("unexpected {:?}", other),
    }
}

#[test]
fn too_large_integer_is_rejected() {
    assert!(matches!(tokenize("9223372036854775807"), Ok(_)));
    match tokenize("9223372036854775808") {
        Err(CrabbyError::LexerError { message, .. }) => {
            assert_eq!(message, "Invalid character '9' at position 0");
        },
        other => panic!("unexpected {:?}", other),
    }
}

#[test]
fn span_renders_as_text() {
    let s = Span::new(3, 7, 2, 5);
    assert_eq!(s.to_string(), "line 2 column 5 (bytes 3-7)");
}
