use hack_toolchain::ast::Span;
use hack_toolchain::jack::error::{LexError, LexErrorKind};
use hack_toolchain::jack::lexer::Lexer;
use hack_toolchain::jack::token::{KwKind, Token, TokenKind};

fn lex(s: &str) -> Result<Vec<Token>, LexError> {
    Lexer::new(s).tokens()
}

fn kinds(s: &str) -> Vec<TokenKind> {
    lex(s).unwrap().iter().map(|t| t.kind.clone()).collect()
}

fn word(s: &str) -> Vec<u8> {
    s.as_bytes().to_vec()
}

#[test]
fn lex_comment() {
    assert!(lex("/* block */").is_ok());
    assert!(lex("// line comment").is_ok());

    let input = r#"
        // line comment
        // line comment 2
        /* block comment */
        /* multi-line block comment
         */
        /** document comment */
        /**
         * multi-line document comment
         */
        "#;
    assert!(lex(input).is_ok());
}

#[test]
fn lex_comment_err() {
    assert!(matches!(
        lex("/* unterminated ").unwrap_err().kind,
        LexErrorKind::UnterminatedComment
    ));
    assert!(matches!(lex("/** *").unwrap_err().kind, LexErrorKind::UnterminatedComment));
    assert!(matches!(
        lex("/* valid */ /** invalid *").unwrap_err().kind,
        LexErrorKind::UnterminatedComment
    ));
    assert!(matches!(lex("/** /").unwrap_err().kind, LexErrorKind::UnterminatedComment));
}

#[test]
fn lexed_tokens_span() {
    let input = r#"(
12345; "hello"
        "#;
    let lexed = lex(input).unwrap();
    assert_eq!(
        lexed,
        vec![
            Token { kind: TokenKind::LParen, span: Span { base: 0, len: 1 } },
            Token { kind: TokenKind::Integer(12345), span: Span { base: 2, len: 5 } },
            Token { kind: TokenKind::Semicolon, span: Span { base: 7, len: 1 } },
            // including surrounding quotes
            Token { kind: TokenKind::Str(word("hello")), span: Span { base: 9, len: 7 } },
        ]
    );
}

#[test]
fn lex_symbol() {
    let input = r#"()[]{}"#;
    assert_eq!(
        kinds(input),
        vec![
            TokenKind::LParen,
            TokenKind::RParen,
            TokenKind::LBracket,
            TokenKind::RBracket,
            TokenKind::LBrace,
            TokenKind::RBrace
        ]
    );
}

#[test]
fn lex_string() {
    let input = r##"
"string"
"string2"
"##;
    assert_eq!(kinds(input), vec![TokenKind::Str(word("string")), TokenKind::Str(word("string2"))]);
    // empty string
    assert_eq!(kinds(r##" "" "##), vec![TokenKind::Str(word(""))]);
}

#[test]
fn lex_number() {
    let input = r#"12345
67890"#;
    assert_eq!(kinds(input), vec![TokenKind::Integer(12345), TokenKind::Integer(67890)]);
}

#[test]
fn lex_invalid_ident() {
    let input = r#"
class Main {}
// invalid ident (?) will appear */
?...
        "#;
    match lex(input).unwrap_err() {
        LexError { kind: LexErrorKind::UnexpectedCharacter(c), span }
            if c == b'?' && input[span.base..].starts_with('?') => {}
        e => panic!("did not match to error condition {:?}", e),
    }
}

#[test]
fn lex_hello() {
    let input = r#"
        /** Hello World program */
        class Main {
            function void main() {
                do Output.printString("Hello world");
                do Output.println();
                return;
            }
        }
        "#;
    assert_eq!(
        kinds(input),
        vec![
            TokenKind::Keyword(KwKind::Class),
            TokenKind::Ident(word("Main")),
            TokenKind::LBrace,
            TokenKind::Keyword(KwKind::Function),
            TokenKind::Keyword(KwKind::Void),
            TokenKind::Ident(word("main")),
            TokenKind::LParen,
            TokenKind::RParen,
            TokenKind::LBrace,
            TokenKind::Keyword(KwKind::Do),
            TokenKind::Ident(word("Output")),
            TokenKind::Dot,
            TokenKind::Ident(word("printString")),
            TokenKind::LParen,
            TokenKind::Str(word("Hello world")),
            TokenKind::RParen,
            TokenKind::Semicolon,
            TokenKind::Keyword(KwKind::Do),
            TokenKind::Ident(word("Output")),
            TokenKind::Dot,
            TokenKind::Ident(word("println")),
            TokenKind::LParen,
            TokenKind::RParen,
            TokenKind::Semicolon,
            TokenKind::Keyword(KwKind::Return),
            TokenKind::Semicolon,
            TokenKind::RBrace,
            TokenKind::RBrace,
        ]
    );
}

#[test]
fn lex_one_token_at_a_time() {
    let mut lexer = Lexer::new("let x");
    let first = lexer.lex().unwrap().unwrap();
    assert_eq!(first, Token { kind: TokenKind::Keyword(KwKind::Let), span: Span { base: 0, len: 3 } });
    let second = lexer.lex().unwrap().unwrap();
    assert_eq!(second, Token { kind: TokenKind::Ident(word("x")), span: Span { base: 4, len: 1 } });
    assert_eq!(lexer.lex().unwrap(), None);
    assert_eq!(lexer.lex().unwrap(), None);
}

#[test]
fn lex_unterminated_quote_is_reported_at_the_quote() {
    let e = lex("x \"abc").unwrap_err();
    assert_eq!(e.kind, LexErrorKind::UnterminatedQuote);
    assert_eq!(e.span, Span { base: 2, len: 4 });
}

#[test]
fn lex_unterminated_comment_is_reported_at_its_start() {
    let e = lex("a /* b").unwrap_err();
    assert_eq!(e.kind, LexErrorKind::UnterminatedComment);
    assert_eq!(e.span, Span { base: 2, len: 4 });
}

#[test]
fn lex_number_too_large() {
    let e = lex("4294967296").unwrap_err();
    assert_eq!(e.kind, LexErrorKind::InvalidNumberFormat);
    assert_eq!(e.span, Span { base: 0, len: 10 });
    assert_eq!(kinds("4294967295"), vec![TokenKind::Integer(4294967295)]);
}

#[test]
fn lex_all_keywords() {
    let words = [
        "class", "constructor", "method", "function", "int", "boolean", "char", "void", "var",
        "static", "field", "let", "do", "if", "else", "while", "return", "true", "false", "null",
        "this",
    ];
    for w in words {
        let k = kinds(w);
        assert_eq!(k.len(), 1);
        match &k[0] {
            TokenKind::Keyword(kw) => assert_eq!(kw.name(), w),
            other => panic!("{:?} is no keyword", other),
        }
    }
    assert_eq!(kinds("classes"), vec![TokenKind::Ident(word("classes"))]);
    assert_eq!(kinds("_x1"), vec![TokenKind::Ident(word("_x1"))]);
}

#[test]
fn lex_slash_is_a_symbol_where_no_comment_starts() {
    assert_eq!(
        kinds("a / b"),
        vec![TokenKind::Ident(word("a")), TokenKind::Slash, TokenKind::Ident(word("b"))]
    );
}

#[test]
fn lex_items_go_on_behind_an_error() {
    let items = Lexer::new("a ? b").items();
    assert_eq!(items.len(), 3);
    assert!(items[0].is_ok());
    assert_eq!(
        items[1],
        Err(LexError { kind: LexErrorKind::UnexpectedCharacter(b'?'), span: Span { base: 2, len: 1 } })
    );
    assert!(items[2].is_ok());
}

#[test]
fn lex_round_trip_on_an_example() {
    let input = "let x = a[1] ; // done\n do f ( \"s t\" ) ; /* c */";
    let tokens = lex(input).unwrap();
    let mut joined = Vec::new();
    for t in &tokens {
        joined.extend_from_slice(&input.as_bytes()[t.span.base..t.span.base + t.span.len]);
    }
    assert_eq!(joined, b"letx=a[1];dof(\"s t\");".to_vec());
}

#[test]
fn token_names() {
    let tokens = lex("class Main { 12 \"hi\" }").unwrap();
    let names: Vec<Vec<u8>> = tokens.iter().map(|t| t.name()).collect();
    assert_eq!(names, vec![word("class"), word("Main"), word("{"), word("12"), word("hi"), word("}")]);
}

#[test]
fn tokens_as_diagnostics_show_them() {
    let tokens = lex("class Main ( 12 \"hi\" ;").unwrap();
    let shown: Vec<String> =
        tokens.iter().map(|t| String::from_utf8(t.to_text()).unwrap()).collect();
    assert_eq!(
        shown,
        vec!["Keyword(class)", "Ident(Main)", "Lparen (", "Integer(12)", "Str(hi)", "Semicolon ;"]
    );
}

#[test]
fn lex_from_bytes() {
    let mut lexer = Lexer::from_bytes(b"x\xffy");
    assert_eq!(lexer.lex().unwrap().unwrap().kind, TokenKind::Ident(word("x")));
    assert_eq!(
        lexer.lex().unwrap_err(),
        LexError { kind: LexErrorKind::UnexpectedCharacter(0xff), span: Span { base: 1, len: 1 } }
    );
    assert_eq!(lexer.lex().unwrap().unwrap().kind, TokenKind::Ident(word("y")));
}

#[test]
fn spans() {
    let s = Span::new(3, 8);
    assert_eq!(s, Span { base: 3, len: 5 });
    assert_eq!(s.lo(), 3);
    assert_eq!(s.hi(), 8);
    assert_eq!(Span::from_len(3, 5), s);
    assert_eq!(s.with_lo(5), Span::new(5, 8));
    assert_eq!(s.with_hi(10), Span::new(3, 10));
    assert_eq!(Span::new(4, 4).len, 0);
}
