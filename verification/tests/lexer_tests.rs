use otterlang::{tokenize, LexerError, TokenKind};

#[test]
fn tokenize_simple_function() {
    let source = "fn main:\n    print(\"Hello\")\n";
    let tokens = tokenize(source).expect("tokenization should succeed");

    let kinds: Vec<TokenKind> = tokens.into_iter().map(|token| token.kind).collect();
    let expected = vec![
        TokenKind::Fn,
        TokenKind::Identifier("main".to_string()),
        TokenKind::Colon,
        TokenKind::Newline,
        TokenKind::Indent,
        TokenKind::Print,
        TokenKind::LParen,
        TokenKind::StringLiteral("Hello".to_string()),
        TokenKind::RParen,
        TokenKind::Newline,
        TokenKind::Dedent,
        TokenKind::Eof,
    ];

    assert_eq!(kinds, expected);
}

#[test]
fn hello_source_balances_structure() {
    let source = "fn main:\n    print(\"Hello\")\n";
    let tokens = tokenize(source).expect("tokenization should succeed");
    let indents = tokens
        .iter()
        .filter(|t| matches!(t.kind, TokenKind::Indent))
        .count();
    let dedents = tokens
        .iter()
        .filter(|t| matches!(t.kind, TokenKind::Dedent))
        .count();
    let newlines = tokens
        .iter()
        .filter(|t| matches!(t.kind, TokenKind::Newline))
        .count();
    assert_eq!(indents, 1);
    assert_eq!(dedents, 1);
    assert_eq!(newlines, 2);
    assert!(matches!(tokens.last().unwrap().kind, TokenKind::Eof));
}

#[test]
fn tab_indent_is_rejected() {
    let source = "fn main:\n\tprint(\"x\")\n";
    let errors = match tokenize(source) {
        Ok(_) => panic!("a tab indent must not lex"),
        Err(errors) => errors,
    };
    assert!(!errors.is_empty());
    match &errors[0] {
        LexerError::TabsNotAllowed { line, column, .. } => {
            assert_eq!(*line, 2);
            assert_eq!(*column, 1);
        }
        other => panic!("expected a tab diagnostic, got {:?}", other),
    }
}

#[test]
fn blank_and_comment_lines_emit_no_newline() {
    let source = "x = 1\n\n# only a comment\n   \ny = 2\n";
    let tokens = tokenize(source).expect("tokenization should succeed");
    let newlines = tokens
        .iter()
        .filter(|t| matches!(t.kind, TokenKind::Newline))
        .count();
    assert_eq!(newlines, 2);
}

#[test]
fn operators_lex_to_their_tags() {
    let source = "a += 1\nb == c\nr = 0..3\nm.field\n";
    let tokens = tokenize(source).expect("tokenization should succeed");
    let kinds: Vec<TokenKind> = tokens.into_iter().map(|t| t.kind).collect();
    assert!(kinds.contains(&TokenKind::PlusEq));
    assert!(kinds.contains(&TokenKind::EqEq));
    assert!(kinds.contains(&TokenKind::DoubleDot));
    assert!(kinds.contains(&TokenKind::Dot));
    assert!(kinds.contains(&TokenKind::Number("0".to_string())));
    assert!(kinds.contains(&TokenKind::Number("3".to_string())));
}

#[test]
fn fstring_lexes_as_one_token() {
    let source = "s = f\"a{b}c\"\n";
    let tokens = tokenize(source).expect("tokenization should succeed");
    let kinds: Vec<TokenKind> = tokens.into_iter().map(|t| t.kind).collect();
    assert!(kinds.contains(&TokenKind::FString("a{b}c".to_string())));
}

#[test]
fn unterminated_string_is_rejected() {
    let source = "s = \"abc\n";
    let errors = match tokenize(source) {
        Ok(_) => panic!("an unterminated string must not lex"),
        Err(errors) => errors,
    };
    assert!(matches!(errors[0], LexerError::UnterminatedString { .. }));
}
