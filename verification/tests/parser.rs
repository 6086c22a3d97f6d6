use hack_toolchain::ast::{
    BinOp, Constant, Expr, FnBody, FnCall, FnDef, FnKind, Parameter, Span, Stmt, StmtKind, Term,
    TermKind, Type, UnaryOp, Variable, VariableDef, VariableDefKind,
};
use hack_toolchain::jack::error::{LexError, LexErrorKind, ParseErrorKind};
use hack_toolchain::jack::parser::{parse, Parser};

fn id(s: &str) -> Vec<u8> {
    s.as_bytes().to_vec()
}

fn int_term(n: u32, lo: usize, hi: usize) -> Term {
    Term { kind: TermKind::Const(Constant::Integer(n)), span: Span::new(lo, hi) }
}

fn var_term(name: &str, lo: usize, hi: usize) -> Term {
    Term {
        kind: TermKind::Variable(Variable {
            name: id(name),
            index_accessor: None,
            span: Span::new(lo, hi),
        }),
        span: Span::new(lo, hi),
    }
}

fn single(term: Term) -> Expr {
    Expr { lhs: Box::new(term), rhs: None }
}

fn pair(lhs: Term, op: BinOp, rhs: Term) -> Expr {
    Expr { lhs: Box::new(lhs), rhs: Some(Box::new((op, rhs))) }
}

#[test]
fn parse_reserved_keyword() {
    match parse("class class {}").unwrap_err().kind {
        ParseErrorKind::ReservedKeyword(_) => {}
        e => panic!("did not match to expected error kind {e:?}"),
    }
}

#[test]
fn handle_lex_error() {
    match parse("class Main { /* */ ? }").unwrap_err().kind {
        ParseErrorKind::LexError(_) => {}
        e => panic!("did not match to expected error kind {e:?}"),
    }
}

#[test]
fn parse_variable_defs() {
    assert_eq!(
        Parser::new("var int foo;").parse_variable_defs().unwrap(),
        vec![VariableDef {
            name: id("foo"),
            kind: VariableDefKind::Var,
            ty: Type::Int,
            span: Span::new(8, 11),
        }],
    );
    assert_eq!(
        Parser::new("field SomeClass instance;").parse_variable_defs().unwrap(),
        vec![VariableDef {
            name: id("instance"),
            kind: VariableDefKind::Field,
            ty: Type::Class(id("SomeClass")),
            span: Span::new(16, 24),
        }],
    );
    assert_eq!(
        Parser::new("static int a, xy;").parse_variable_defs().unwrap(),
        vec![
            VariableDef {
                name: id("a"),
                kind: VariableDefKind::Static,
                ty: Type::Int,
                span: Span::new(11, 12),
            },
            VariableDef {
                name: id("xy"),
                kind: VariableDefKind::Static,
                ty: Type::Int,
                span: Span::new(14, 16),
            },
        ],
    );
}

#[test]
fn parse_fn_def() {
    assert_eq!(
        Parser::new("method void dispose() {}").parse_fn_def().unwrap(),
        FnDef {
            name: id("dispose"),
            span: Span::new(12, 19),
            kind: FnKind::Method,
            ret: Type::Void,
            params: vec![],
            body: FnBody { variables: vec![], statements: vec![] },
        },
    );
}

#[test]
fn parse_variable_kind() {
    assert_eq!(Parser::new("static").parse_variable_kind().unwrap(), VariableDefKind::Static);
    assert_eq!(Parser::new("field").parse_variable_kind().unwrap(), VariableDefKind::Field);
    assert_eq!(Parser::new("var").parse_variable_kind().unwrap(), VariableDefKind::Var);
}

#[test]
fn parse_fn_kind() {
    assert_eq!(Parser::new("constructor").parse_fn_kind().unwrap(), FnKind::Ctor);
    assert_eq!(Parser::new("function").parse_fn_kind().unwrap(), FnKind::Function);
    assert_eq!(Parser::new("method").parse_fn_kind().unwrap(), FnKind::Method);
}

#[test]
fn parse_parameter() {
    assert_eq!(
        Parser::new("int a").parse_parameter().unwrap(),
        Parameter { name: id("a"), ty: Type::Int, span: Span::new(0, 5) },
    );
    assert_eq!(
        Parser::new("SomeClass s").parse_parameter().unwrap(),
        Parameter { name: id("s"), ty: Type::Class(id("SomeClass")), span: Span::new(0, 11) },
    );
}

#[test]
fn parse_parameters() {
    assert_eq!(
        Parser::new("int a, char b").parse_parameters().unwrap(),
        vec![
            Parameter { name: id("a"), ty: Type::Int, span: Span::new(0, 5) },
            Parameter { name: id("b"), ty: Type::Char, span: Span::new(7, 13) },
        ],
    )
}

#[test]
fn parse_let_stmt() {
    assert_eq!(
        Parser::new("let a = 10;").parse_stmt().unwrap(),
        Stmt {
            kind: StmtKind::Let {
                lhs: Variable { name: id("a"), index_accessor: None, span: Span::new(4, 5) },
                rhs: single(int_term(10, 8, 10)),
            },
            span: Span::new(0, 11),
        },
    );

    assert_eq!(
        Parser::new("let g = Fraction.gcd(numerator, denominator);").parse_stmt().unwrap(),
        Stmt {
            kind: StmtKind::Let {
                lhs: Variable { name: id("g"), index_accessor: None, span: Span::new(4, 5) },
                rhs: single(Term {
                    kind: TermKind::FnCall(FnCall {
                        receiver: Some(id("Fraction")),
                        fn_name: id("gcd"),
                        args: vec![
                            single(var_term("numerator", 21, 30)),
                            single(var_term("denominator", 32, 43)),
                        ],
                    }),
                    span: Span::new(8, 44),
                }),
            },
            span: Span::new(0, 45),
        },
    );
    assert_eq!(
        Parser::new(
            "\
let data = car;
let next = cdr;
"
        )
        .parse_stmts()
        .unwrap(),
        vec![
            Stmt {
                kind: StmtKind::Let {
                    lhs: Variable {
                        name: id("data"),
                        index_accessor: None,
                        span: Span::new(4, 8),
                    },
                    rhs: single(var_term("car", 11, 14)),
                },
                span: Span::new(0, 15),
            },
            Stmt {
                kind: StmtKind::Let {
                    lhs: Variable {
                        name: id("next"),
                        index_accessor: None,
                        span: Span::new(20, 24),
                    },
                    rhs: single(var_term("cdr", 27, 30)),
                },
                span: Span::new(16, 31),
            },
        ],
    );
}

#[test]
fn parse_if_stmt() {
    assert_eq!(
        Parser::new(
            "\
if (a) {
    let a[0] = 10;
}
            "
        )
        .parse_stmt()
        .unwrap(),
        Stmt {
            kind: StmtKind::If {
                cond: single(var_term("a", 4, 5)),
                then_branch: vec![Stmt {
                    kind: StmtKind::Let {
                        lhs: Variable {
                            name: id("a"),
                            span: Span::new(17, 21),
                            index_accessor: Some(single(int_term(0, 19, 20))),
                        },
                        rhs: single(int_term(10, 24, 26)),
                    },
                    span: Span::new(13, 27),
                }],
                else_branch: None,
            },
            span: Span::new(0, 29),
        },
    );
    assert_eq!(
        Parser::new(
            "\
if (a) {
    let a[0] = 42;
} else {
    let a = 0;
}
            "
        )
        .parse_stmt()
        .unwrap(),
        Stmt {
            kind: StmtKind::If {
                cond: single(var_term("a", 4, 5)),
                then_branch: vec![Stmt {
                    kind: StmtKind::Let {
                        lhs: Variable {
                            name: id("a"),
                            span: Span::new(17, 21),
                            index_accessor: Some(single(int_term(0, 19, 20))),
                        },
                        rhs: single(int_term(42, 24, 26)),
                    },
                    span: Span::new(13, 27),
                }],
                else_branch: Some(vec![Stmt {
                    kind: StmtKind::Let {
                        lhs: Variable {
                            name: id("a"),
                            index_accessor: None,
                            span: Span::new(45, 46),
                        },
                        rhs: single(int_term(0, 49, 50)),
                    },
                    span: Span::new(41, 51),
                }]),
            },
            span: Span::new(0, 53),
        },
    );
}

#[test]
fn parse_while_stmt() {
    assert_eq!(
        Parser::new(
            "\
while (true) {
    let a = a + 1;
}
"
        )
        .parse_stmt()
        .unwrap(),
        Stmt {
            kind: StmtKind::While {
                cond: single(Term {
                    kind: TermKind::Const(Constant::True),
                    span: Span::new(7, 11),
                }),
                body: vec![Stmt {
                    kind: StmtKind::Let {
                        lhs: Variable {
                            name: id("a"),
                            index_accessor: None,
                            span: Span::new(23, 24),
                        },
                        rhs: pair(var_term("a", 27, 28), BinOp::Plus, int_term(1, 31, 32)),
                    },
                    span: Span::new(19, 33),
                }],
            },
            span: Span::new(0, 35),
        },
    );
}

#[test]
fn parse_do_stmt() {
    assert_eq!(
        Parser::new("do some_method();").parse_stmt().unwrap(),
        Stmt {
            kind: StmtKind::Do(FnCall {
                receiver: None,
                fn_name: id("some_method"),
                args: vec![],
            }),
            span: Span::new(0, 17),
        },
    );
    assert_eq!(
        Parser::new("do cat.meow();").parse_stmt().unwrap(),
        Stmt {
            kind: StmtKind::Do(FnCall {
                receiver: Some(id("cat")),
                fn_name: id("meow"),
                args: vec![],
            }),
            span: Span::new(0, 14),
        },
    );
    assert_eq!(
        Parser::new("do add(a, b);").parse_stmt().unwrap(),
        Stmt {
            kind: StmtKind::Do(FnCall {
                receiver: None,
                fn_name: id("add"),
                args: vec![single(var_term("a", 7, 8)), single(var_term("b", 10, 11))],
            }),
            span: Span::new(0, 13),
        },
    )
}

#[test]
fn parse_return_stmt() {
    assert_eq!(
        Parser::new("return;").parse_stmt().unwrap(),
        Stmt { kind: StmtKind::Return(None), span: Span::new(0, 7) },
    );
    assert_eq!(
        Parser::new("return 0;").parse_stmt().unwrap(),
        Stmt { kind: StmtKind::Return(Some(single(int_term(0, 7, 8)))), span: Span::new(0, 9) },
    );
}

#[test]
fn parse_expr() {
    assert_eq!(Parser::new("123").parse_expr().unwrap(), single(int_term(123, 0, 3)));
    assert_eq!(
        Parser::new("123 + 456").parse_expr().unwrap(),
        pair(int_term(123, 0, 3), BinOp::Plus, int_term(456, 6, 9)),
    );
    assert_eq!(
        Parser::new("a * (b[1] + -123)").parse_expr().unwrap(),
        pair(
            var_term("a", 0, 1),
            BinOp::Mul,
            Term {
                kind: TermKind::Expr(Box::new(pair(
                    Term {
                        kind: TermKind::Variable(Variable {
                            name: id("b"),
                            index_accessor: Some(single(int_term(1, 7, 8))),
                            span: Span::new(5, 9),
                        }),
                        span: Span::new(5, 9),
                    },
                    BinOp::Plus,
                    Term {
                        kind: TermKind::Unary {
                            op: UnaryOp::Minus,
                            term: Box::new(int_term(123, 13, 16)),
                        },
                        span: Span::new(12, 16),
                    },
                ))),
                span: Span::new(4, 17),
            },
        ),
    );
}

#[test]
fn parse_term() {
    assert_eq!(Parser::new("12345").parse_term().unwrap(), int_term(12345, 0, 5));
    assert_eq!(
        Parser::new(r##""some string""##).parse_term().unwrap(),
        Term { kind: TermKind::Const(Constant::Str(id("some string"))), span: Span::new(0, 13) },
    );
    assert_eq!(Parser::new("abc").parse_term().unwrap(), var_term("abc", 0, 3));
    assert_eq!(
        Parser::new("-123").parse_term().unwrap(),
        Term {
            kind: TermKind::Unary { op: UnaryOp::Minus, term: Box::new(int_term(123, 1, 4)) },
            span: Span::new(0, 4),
        },
    );
    assert_eq!(
        Parser::new("~(next = null)").parse_term().unwrap(),
        Term {
            kind: TermKind::Unary {
                op: UnaryOp::Not,
                term: Box::new(Term {
                    kind: TermKind::Expr(Box::new(pair(
                        var_term("next", 2, 6),
                        BinOp::Equal,
                        Term { kind: TermKind::Const(Constant::Null), span: Span::new(9, 13) },
                    ))),
                    span: Span::new(1, 14),
                }),
            },
            span: Span::new(0, 14),
        },
    );
    assert_eq!(
        Parser::new("a[123 + 456]").parse_term().unwrap(),
        Term {
            kind: TermKind::Variable(Variable {
                name: id("a"),
                index_accessor: Some(pair(
                    int_term(123, 2, 5),
                    BinOp::Plus,
                    int_term(456, 8, 11)
                )),
                span: Span::new(0, 12),
            }),
            span: Span::new(0, 12),
        },
    );
    assert_eq!(
        Parser::new("some_fn(this, a, 1 + 2)").parse_term().unwrap(),
        Term {
            kind: TermKind::FnCall(FnCall {
                receiver: None,
                fn_name: id("some_fn"),
                args: vec![
                    single(Term {
                        kind: TermKind::Const(Constant::This),
                        span: Span::new(8, 12),
                    }),
                    single(var_term("a", 14, 15)),
                    pair(int_term(1, 17, 18), BinOp::Plus, int_term(2, 21, 22)),
                ],
            }),
            span: Span::new(0, 23),
        },
    );
}

#[test]
fn parse_constant() {
    assert_eq!(Parser::new("12345").parse_constant().unwrap(), Constant::Integer(12345));
    assert_eq!(
        Parser::new(r##""example""##).parse_constant().unwrap(),
        Constant::Str(id("example"))
    );
    assert_eq!(Parser::new("true").parse_constant().unwrap(), Constant::True);
}

#[test]
fn parse_empty_class() {
    let class = parse("class X {}").unwrap();
    assert_eq!(class.name, id("X"));
    assert_eq!(class.span, Span::new(6, 7));
    assert!(class.variables.is_empty());
    assert!(class.functions.is_empty());
}

#[test]
fn parse_class_with_members() {
    let class = parse(
        "class P { field int x, y; static P last; method int getx() { return x; } function void f(int a) { var int b; let b = a; return; } }",
    )
    .unwrap();
    assert_eq!(class.variables.len(), 3);
    assert_eq!(class.variables[1].name, id("y"));
    assert_eq!(class.variables[1].kind, VariableDefKind::Field);
    assert_eq!(class.variables[2].ty, Type::Class(id("P")));
    assert_eq!(class.functions.len(), 2);
    assert_eq!(class.functions[0].kind, FnKind::Method);
    assert_eq!(class.functions[1].params.len(), 1);
    assert_eq!(class.functions[1].body.variables.len(), 1);
    assert_eq!(class.functions[1].body.statements.len(), 2);
}

#[test]
fn parse_reserved_keyword_has_a_hint() {
    let e = parse("class class {}").unwrap_err();
    assert_eq!(e.span, Span::new(6, 11));
    assert_eq!(e.help, Some(id("you cannot use the keyword `class` for a class name")));
}

#[test]
fn parse_errors_by_kind() {
    assert!(matches!(parse("").unwrap_err().kind, ParseErrorKind::UnexpectedEOF));
    assert!(matches!(parse("class X {").unwrap_err().kind, ParseErrorKind::UnexpectedEOF));
    assert!(matches!(parse("X").unwrap_err().kind, ParseErrorKind::UnexpectedToken(_)));
    assert!(matches!(
        parse("class X ( }").unwrap_err().kind,
        ParseErrorKind::InternalCompilerError(_)
    ));
    assert!(matches!(
        Parser::new("+").parse_term().unwrap_err().kind,
        ParseErrorKind::UnexpectedToken(_)
    ));
}

#[test]
fn parse_has_no_precedence() {
    // `a + b * c` is `a + b`, and what follows is left to the caller
    let mut parser = Parser::new("a + b * c");
    assert_eq!(
        parser.parse_expr().unwrap(),
        pair(var_term("a", 0, 1), BinOp::Plus, var_term("b", 4, 5))
    );
    assert_eq!(parser.parse_bin_op().unwrap(), BinOp::Mul);
}

#[test]
fn parse_ignores_what_follows_the_class() {
    assert!(parse("class X {} ?").is_ok());
}

#[test]
fn parse_spans_lie_within_the_source() {
    let src = "class X { function int f() { return 7; } }";
    let class = parse(src).unwrap();
    let f = &class.functions[0];
    assert!(f.span.base + f.span.len <= src.len());
    let s = &f.body.statements[0];
    assert_eq!(s.span, Span::new(29, 38));
    assert!(s.span.base + s.span.len <= src.len());
}

#[test]
fn expressions_as_text() {
    let text = |src: &str| {
        String::from_utf8(Parser::new(src).parse_expr().unwrap().to_text()).unwrap()
    };
    assert_eq!(text("a+1"), "a + 1");
    assert_eq!(text("-x"), "-x");
    assert_eq!(text("~(a&b)"), "~a & b");
    assert_eq!(text("a[i+1]"), "a[i + 1]");
    assert_eq!(text("f()"), "f()");
    assert_eq!(text("o.m(1,\"s\",true)"), "o.m(1, s, true)");
    assert_eq!(text("null = this"), "null = this");
}

#[test]
fn statements_in_brief() {
    let text = |src: &str| {
        String::from_utf8(Parser::new(src).parse_stmt().unwrap().to_text()).unwrap()
    };
    assert_eq!(text("let a[0] = b;"), "let a[0] = b");
    assert_eq!(text("if (a) { return; }"), "if (a) { (1 statements...) }");
    assert_eq!(
        text("if (a) { } else { return; return; }"),
        "if (a) { (0 statements...) } else { (2 statements...) }"
    );
    assert_eq!(text("while (a < b) { do f(); }"), "while (a < b) { (1 statements...) }");
    assert_eq!(text("do o.f(x);"), "o.f(x)");
    assert_eq!(text("return;"), "return");
    assert_eq!(text("return 1;"), "return 1");
}

#[test]
fn types_as_text() {
    assert_eq!(Type::Int.to_text(), b"int".to_vec());
    assert_eq!(Type::Void.to_text(), b"void".to_vec());
    assert_eq!(Type::Class(id("Foo")).to_text(), b"class(Foo)".to_vec());
    assert_eq!(VariableDefKind::Field.name(), "field");
}

#[test]
fn a_lexical_error_is_never_passed_over() {
    // within the first argument of a call
    assert!(matches!(
        Parser::new("f((a ?) )").parse_term().unwrap_err().kind,
        ParseErrorKind::LexError(_)
    ));
    assert!(matches!(
        Parser::new("f(?)").parse_term().unwrap_err().kind,
        ParseErrorKind::LexError(_)
    ));
    // within a declaration of the body of a function
    assert!(matches!(
        parse("class X { function void f() { var int x ? } }").unwrap_err().kind,
        ParseErrorKind::LexError(_)
    ));
    // within a statement of the body of a function
    assert!(matches!(
        parse("class X { function void f() { let x = (1 ? ; } }").unwrap_err().kind,
        ParseErrorKind::LexError(_)
    ));
    // within a declaration of a class
    assert!(matches!(
        parse("class X { field int x ? }").unwrap_err().kind,
        ParseErrorKind::LexError(_)
    ));
    // an unterminated comment
    assert!(matches!(
        parse("class X { /* }").unwrap_err().kind,
        ParseErrorKind::LexError(_)
    ));
}

#[test]
fn a_number_above_the_largest_constant_is_an_error() {
    assert_eq!(Parser::new("32767").parse_constant().unwrap(), Constant::Integer(32767));
    let e = Parser::new("32768").parse_constant().unwrap_err();
    let at = Span { base: 0, len: 5 };
    assert_eq!(
        e.kind,
        ParseErrorKind::LexError(LexError { span: at, kind: LexErrorKind::InvalidNumberFormat })
    );
    assert_eq!(e.span, at);

    let source = "class X{function int f(){return 40000;}}";
    let e = parse(source).unwrap_err();
    let at = Span { base: 32, len: 5 };
    assert_eq!(&source[32..37], "40000");
    assert_eq!(
        e.kind,
        ParseErrorKind::LexError(LexError { span: at, kind: LexErrorKind::InvalidNumberFormat })
    );
    assert_eq!(e.span, at);

    // as an argument, as an index and behind an operator
    for source in ["f(40000)", "a[40000]", "-40000", "(1 + 40000)", "f(1, 40000)"] {
        assert!(matches!(
            Parser::new(source).parse_term().unwrap_err().kind,
            ParseErrorKind::LexError(LexError { kind: LexErrorKind::InvalidNumberFormat, .. })
        ));
    }
    assert!(parse("class X{function int f(){return 32767;}}").is_ok());
}

#[test]
fn the_terms_of_an_expression_stand_in_their_order() {
    let e = Parser::new("  a + (b)").parse_expr().unwrap();
    assert_eq!(e.span(), Span { base: 2, len: 7 });
    assert_eq!(e.range(), e.span());
}

#[test]
fn void_is_the_type_of_no_variable() {
    assert_eq!(Parser::new("void").parse_type().unwrap(), Type::Void);
    assert_eq!(Parser::new("int").parse_value_type().unwrap(), Type::Int);
    assert_eq!(Parser::new("Point").parse_value_type().unwrap(), Type::Class(id("Point")));
    let e = Parser::new("void").parse_value_type().unwrap_err();
    assert!(matches!(e.kind, ParseErrorKind::UnexpectedToken(_)));
    assert_eq!(e.span, Span { base: 0, len: 4 });

    for source in [
        "class X { field void x; }",
        "class X { static void x; }",
        "class X { function void f() { var void x; return; } }",
        "class X { function void f(void x) { return; } }",
        "class X { function void f(int a, void x) { return; } }",
    ] {
        assert!(parse(source).is_err(), "{source}");
    }
    assert!(Parser::new("var void x;").parse_variable_defs().is_err());
    assert!(Parser::new("void x").parse_parameter().is_err());
    assert!(parse("class X { function void f(int a) { var char c; return; } }").is_ok());
}
