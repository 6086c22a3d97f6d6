use hack_toolchain::ast::{Span, Type};
use hack_toolchain::jack::diagnosis::typeck::{infer_expr_ty, validate_variable_ty};
use hack_toolchain::jack::error::{JackError, SemanticError, SemanticErrorKind};
use hack_toolchain::jack::parser::{parse, Parser};
use hack_toolchain::jack::session::{compile_class, CompilerSession};
use hack_toolchain::jack::compiler::Codegen;
use hack_toolchain::jack::symbol::{SymbolTable, VariableCtxt};

fn id(s: &str) -> Vec<u8> {
    s.as_bytes().to_vec()
}

fn compile(sources: &[&str]) -> (Vec<String>, Vec<Vec<SemanticError>>, Vec<Option<JackError>>) {
    let mut sess = CompilerSession::new();
    for s in sources {
        sess.add_source(s).unwrap();
    }
    sess.register().unwrap();
    let units = sess.codegen();
    let mut code = Vec::new();
    let mut warnings = Vec::new();
    let mut errors = Vec::new();
    for u in units {
        code.push(String::from_utf8(u.code).unwrap());
        warnings.push(u.warnings);
        errors.push(u.error);
    }
    (code, warnings, errors)
}

fn compile_one(source: &str) -> String {
    let (code, warnings, errors) = compile(&[source]);
    assert_eq!(warnings[0], vec![]);
    assert_eq!(errors[0], None);
    code[0].clone()
}

fn lines(code: &str) -> Vec<&str> {
    code.lines().collect()
}

#[test]
fn empty_program() {
    let mut sess = CompilerSession::new();
    sess.add_source("class X {}").unwrap();
    sess.register().unwrap();
    assert_eq!(sess.lint(), vec![]);
    let units = sess.codegen();
    assert_eq!(units.len(), 1);
    assert_eq!(units[0].code, Vec::<u8>::new());
    assert_eq!(units[0].warnings, vec![]);
    assert_eq!(units[0].error, None);
    assert!(!sess.has_error);
}

#[test]
fn constant_return() {
    let code = compile_one("class X { function int f() { return 7; } }");
    assert_eq!(code, "function X.f 0\npush constant 7\nreturn\n");
}

#[test]
fn array_write() {
    let code = compile_one(
        "class X { function void f(Array a) { var int i; let a[i+1] = 5; return; } }",
    );
    assert_eq!(
        lines(&code),
        vec![
            "function X.f 1",
            "push constant 5",
            "push local 0",
            "push constant 1",
            "add",
            "push argument 0",
            "add",
            "pop pointer 1",
            "pop that 0",
            "push constant 0",
            "return",
        ]
    );
}

#[test]
fn method_call() {
    let (code, warnings, errors) = compile(&[
        "class Main { field int a, b; field Foo obj; method void run() { do obj.m(3); return; } }",
        "class Foo { method void m(int x) { return; } }",
    ]);
    assert_eq!(errors, vec![None, None]);
    assert_eq!(warnings[0], vec![]);
    assert_eq!(
        lines(&code[0]),
        vec![
            "function Main.run 0",
            "push argument 0",
            "pop pointer 0",
            "push this 2",
            "push constant 3",
            "call Foo.m 2",
            "pop temp 0",
            "push constant 0",
            "return",
        ]
    );
}

#[test]
fn constructor_allocates_its_fields() {
    let code = compile_one(
        "class P { field int x, y; static int n; constructor P new() { return this; } }",
    );
    assert_eq!(
        lines(&code),
        vec![
            "function P.new 0",
            "push constant 2",
            "call Memory.alloc 1",
            "pop pointer 0",
            "push pointer 0",
            "return",
        ]
    );
}

#[test]
fn if_lowers_the_else_branch_first() {
    let code = compile_one(
        "class X { function void f(int a) { if (a) { let a = 1; } else { let a = 2; } return; } }",
    );
    assert_eq!(
        lines(&code),
        vec![
            "function X.f 0",
            "push argument 0",
            "if-goto LABEL_1",
            "push constant 2",
            "pop argument 0",
            "goto LABEL_2",
            "label LABEL_1",
            "push constant 1",
            "pop argument 0",
            "label LABEL_2",
            "push constant 0",
            "return",
        ]
    );
}

#[test]
fn while_jumps_out_on_the_negated_condition() {
    let code = compile_one(
        "class X { function void f(int a) { while (a < 3) { let a = a + 1; } return; } }",
    );
    assert_eq!(
        lines(&code),
        vec![
            "function X.f 0",
            "label LABEL_1",
            "push argument 0",
            "push constant 3",
            "lt",
            "not",
            "if-goto LABEL_2",
            "push argument 0",
            "push constant 1",
            "add",
            "pop argument 0",
            "goto LABEL_1",
            "label LABEL_2",
            "push constant 0",
            "return",
        ]
    );
}

#[test]
fn labels_are_numbered_through_a_program() {
    let (code, _, errors) = compile(&[
        "class A { function void f(int a) { while (a) { } return; } }",
        "class B { function void g(int a) { if (a) { } return; } }",
    ]);
    assert_eq!(errors, vec![None, None]);
    assert!(code[0].contains("label LABEL_1\n"));
    assert!(code[0].contains("label LABEL_2\n"));
    assert!(code[1].contains("label LABEL_3\n"));
    assert!(code[1].contains("label LABEL_4\n"));
}

#[test]
fn constants_and_operators() {
    let code = compile_one(
        "class X { function int f(int a) { return ~(a * (true & (a / -1))); } }",
    );
    assert_eq!(
        lines(&code),
        vec![
            "function X.f 0",
            "push argument 0",
            "push constant 1",
            "neg",
            "push argument 0",
            "push constant 1",
            "neg",
            "call Math.divide 2",
            "and",
            "call Math.multiply 2",
            "not",
            "return",
        ]
    );
}

#[test]
fn a_string_is_built_byte_by_byte() {
    let (code, _, errors) =
        compile(&["class X { function String f() { return \"Hi\"; } }"]);
    assert_eq!(errors, vec![None]);
    assert_eq!(
        lines(&code[0]),
        vec![
            "function X.f 0",
            "push constant 2",
            "call String.new 1",
            "push constant 72",
            "call String.appendChar 2",
            "push constant 105",
            "call String.appendChar 2",
            "return",
        ]
    );
}

#[test]
fn a_call_without_a_receiver_passes_this() {
    let code = compile_one(
        "class X { method void g() { return; } method void f() { do g(); return; } }",
    );
    assert!(code.contains("push pointer 0\ncall X.g 1\npop temp 0\n"));
}

#[test]
fn a_call_through_a_class_passes_nothing() {
    let code = compile_one("class X { function void f() { do Output.println(); return; } }");
    assert_eq!(
        lines(&code),
        vec!["function X.f 0", "call Output.println 0", "pop temp 0", "push constant 0", "return"]
    );
}

#[test]
fn an_indexed_read() {
    let code = compile_one("class X { function Array f(Array a) { return a[2]; } }");
    assert_eq!(
        lines(&code),
        vec![
            "function X.f 0",
            "push constant 2",
            "push argument 0",
            "add",
            "pop pointer 1",
            "push that 0",
            "return",
        ]
    );
}

#[test]
fn an_undefined_variable_ends_the_class() {
    let (code, _, errors) =
        compile(&["class X { function void f() { let y = 1; return; } function void g() { return; } }"]);
    assert_eq!(code[0], "function X.f 0\n");
    assert_eq!(
        errors[0],
        Some(JackError::SemanticError(SemanticError {
            kind: SemanticErrorKind::UndefinedVariable(id("y")),
            span: Span::new(34, 35),
        }))
    );
}

#[test]
fn returning_nothing_from_a_function_with_a_value_is_an_error() {
    let (_, _, errors) = compile(&["class X { function int f() { return; } }"]);
    assert_eq!(
        errors[0],
        Some(JackError::SemanticError(SemanticError {
            kind: SemanticErrorKind::TypeMismatch { expected: Type::Int, actual: Type::Void },
            span: Span::new(29, 36),
        }))
    );
}

#[test]
fn a_method_of_a_builtin_type_is_an_error() {
    let (_, _, errors) = compile(&[
        "class X { function void f(int n) { do n.m(); return; } }",
        "class n { function void m() { return; } }",
    ]);
    assert_eq!(
        errors[0],
        Some(JackError::SemanticError(SemanticError {
            kind: SemanticErrorKind::InvalidSyntax(id("could not call methods of builtin types")),
            span: Span::new(26, 31),
        }))
    );
}

#[test]
fn an_unknown_function_is_an_error() {
    let (_, _, errors) = compile(&["class X { function void f() { do Nope.m(); return; } }"]);
    assert_eq!(
        errors[0],
        Some(JackError::SemanticError(SemanticError {
            kind: SemanticErrorKind::InvalidSyntax(id("called function is not defined")),
            span: Span::new(30, 42),
        }))
    );
    let (_, _, errors) = compile(&["class X { function int f() { return Nope.m(); } }"]);
    assert_eq!(
        errors[0],
        Some(JackError::InternalCompilerError(id("could not infer the type of `Nope.m()`")))
    );
}

#[test]
fn a_mismatched_assignment_is_a_warning() {
    let (code, warnings, errors) = compile(&[
        "class X { function void f() { var char c; let c = 1; return; } }",
    ]);
    assert_eq!(errors, vec![None]);
    assert_eq!(
        warnings[0],
        vec![SemanticError {
            kind: SemanticErrorKind::TypeMismatch { expected: Type::Char, actual: Type::Int },
            span: Span::new(42, 52),
        }]
    );
    // the code is written all the same
    assert!(code[0].contains("push constant 1\npop local 0\n"));
}

#[test]
fn a_do_of_a_function_with_a_value_is_a_warning() {
    let (_, warnings, errors) =
        compile(&["class X { function void f() { do Math.abs(1); return; } }"]);
    assert_eq!(errors, vec![None]);
    assert_eq!(
        warnings[0],
        vec![SemanticError {
            kind: SemanticErrorKind::TypeMismatch { expected: Type::Void, actual: Type::Int },
            span: Span::new(30, 45),
        }]
    );
}

#[test]
fn a_mismatched_return_is_a_warning_at_the_expression() {
    let (_, warnings, errors) =
        compile(&["class X { function int f() { return true; } }"]);
    assert_eq!(errors, vec![None]);
    assert_eq!(
        warnings[0],
        vec![SemanticError {
            kind: SemanticErrorKind::TypeMismatch { expected: Type::Int, actual: Type::Boolean },
            span: Span::new(36, 40),
        }]
    );
}

#[test]
fn assignments_that_fit() {
    let mut table = SymbolTable::new();
    table.sess(id("X"));
    let span = Span::new(0, 0);
    table.register_variable(VariableCtxt::field(id("b"), Type::Boolean, span)).unwrap();
    table.register_variable(VariableCtxt::field(id("i"), Type::Int, span)).unwrap();
    table.register_variable(VariableCtxt::field(id("c"), Type::Char, span)).unwrap();
    table.register_variable(VariableCtxt::field(id("a"), Type::Class(id("Array")), span)).unwrap();
    table.register_variable(VariableCtxt::field(id("x"), Type::Class(id("X")), span)).unwrap();
    let var = |src: &str| Parser::new(src).parse_variable().unwrap();
    let string = Type::Class(id("String"));
    assert!(validate_variable_ty(&var("b"), &string, &table));
    assert!(validate_variable_ty(&var("i"), &Type::Boolean, &table));
    assert!(validate_variable_ty(&var("i"), &Type::Char, &table));
    assert!(!validate_variable_ty(&var("i"), &string, &table));
    assert!(validate_variable_ty(&var("c"), &string, &table));
    assert!(!validate_variable_ty(&var("c"), &Type::Int, &table));
    assert!(validate_variable_ty(&var("a[0]"), &Type::Int, &table));
    assert!(!validate_variable_ty(&var("a"), &Type::Int, &table));
    assert!(validate_variable_ty(&var("x"), &Type::Class(id("X")), &table));
    assert!(!validate_variable_ty(&var("x[0]"), &Type::Int, &table));
    assert!(!validate_variable_ty(&var("nope"), &Type::Int, &table));
}

#[test]
fn types_of_expressions() {
    let mut table = SymbolTable::new();
    table.sess(id("X"));
    table
        .register_variable(VariableCtxt::field(id("c"), Type::Char, Span::new(0, 0)))
        .unwrap();
    let ty = |src: &str| infer_expr_ty(&Parser::new(src).parse_expr().unwrap(), &table);
    assert_eq!(ty("1 + c"), Ok(Type::Int));
    assert_eq!(ty("\"a\""), Ok(Type::Char));
    assert_eq!(ty("\"ab\""), Ok(Type::Class(id("String"))));
    assert_eq!(ty("\"\""), Ok(Type::Class(id("String"))));
    assert_eq!(ty("true"), Ok(Type::Boolean));
    assert_eq!(ty("this"), Ok(Type::Class(id("X"))));
    assert_eq!(ty("c"), Ok(Type::Char));
    assert_eq!(ty("-(c)"), Ok(Type::Char));
    assert_eq!(ty("Math.abs(1)"), Ok(Type::Int));
    // `null` has no type: the second term decides
    assert_eq!(ty("null = c"), Ok(Type::Char));
    assert!(ty("null").is_err());
    assert!(ty("nope").is_err());
}

#[test]
fn unused_variables_are_reported_in_the_order_of_their_declaration() {
    let mut sess = CompilerSession::new();
    sess.add_source(
        "class X { field int used, idle; function void f(int a, int b) { var int c; let c = a + used; return; } }",
    )
    .unwrap();
    let warnings = sess.lint();
    let names: Vec<Vec<u8>> = warnings
        .iter()
        .map(|w| match &w.1.kind {
            SemanticErrorKind::UnusedVariable(n) => n.clone(),
            other => panic!("{:?}", other),
        })
        .collect();
    assert_eq!(names, vec![id("idle"), id("b"), id("c")]);
    assert_eq!(warnings[0].1.span, Span::new(26, 30));
    assert_eq!(warnings[0].0, 0);
}

#[test]
fn a_receiver_and_an_argument_are_used() {
    let mut sess = CompilerSession::new();
    sess.add_source(
        "class X { function void f(X o, int n, int m) { do o.g(n); return; } }",
    )
    .unwrap();
    let warnings = sess.lint();
    assert_eq!(warnings.len(), 1);
    assert_eq!(warnings[0].1.kind, SemanticErrorKind::UnusedVariable(id("m")));
}

#[test]
fn a_duplicate_function_is_reported_when_the_classes_are_registered() {
    let mut sess = CompilerSession::new();
    sess.add_source("class X { function void f() { return; } function int f() { return 1; } }")
        .unwrap();
    let (unit, e) = sess.register().unwrap_err();
    assert_eq!(unit, 0);
    assert_eq!(
        e,
        JackError::SemanticError(SemanticError {
            kind: SemanticErrorKind::AlreadyDefinedIdent {
                name: id("f"),
                original: Span::new(24, 25),
            },
            span: Span::new(53, 54),
        })
    );
    assert!(sess.has_error);
}

#[test]
fn a_source_that_is_no_class_is_an_error() {
    let mut sess = CompilerSession::new();
    assert!(matches!(sess.add_source("class {").unwrap_err(), JackError::ParseError(_)));
    assert!(matches!(sess.add_source("class X { ? }").unwrap_err(), JackError::LexError(_)));
    assert!(sess.classes.is_empty());
}

#[test]
fn one_class_at_a_time() {
    let class = parse("class X { function int f() { return 7; } }").unwrap();
    let mut table = SymbolTable::new();
    let unit = compile_class(&class, &mut table);
    assert_eq!(unit.code, b"function X.f 0\npush constant 7\nreturn\n".to_vec());
    assert_eq!(unit.error, None);
}

#[test]
fn the_generator_writes_lines() {
    let mut g = Codegen::new();
    g.write(b"add");
    g.push(hack_toolchain::vm::segment::Segment::Temp, 3);
    g.pop(hack_toolchain::vm::segment::Segment::Static, 12);
    g.label(b"L");
    g.if_goto(b"L");
    g.goto(b"L");
    g.ret();
    assert_eq!(
        g.out,
        b"add\npush temp 3\npop static 12\nlabel L\nif-goto L\ngoto L\nreturn\n".to_vec()
    );
}

#[test]
fn warnings_and_errors() {
    let span = Span::new(0, 1);
    let warning = |kind| SemanticError { kind, span }.is_warning();
    assert!(warning(SemanticErrorKind::TypeMismatch { expected: Type::Int, actual: Type::Char }));
    assert!(warning(SemanticErrorKind::UnusedVariable(id("x"))));
    assert!(!warning(SemanticErrorKind::UndefinedVariable(id("x"))));
    assert!(!warning(SemanticErrorKind::InvalidSyntax(id("x"))));
    assert!(!warning(SemanticErrorKind::AlreadyDefinedIdent { name: id("x"), original: span }));
}

#[test]
fn the_range_of_an_expression() {
    let e = Parser::new("ab + cd").parse_expr().unwrap();
    assert_eq!(e.span(), Span::new(0, 7));
    assert_eq!(e.range(), Span::new(0, 7));
    assert!(!e.is_null());
    let n = Parser::new("null").parse_expr().unwrap();
    assert!(n.is_null());
    assert_eq!(n.span(), Span::new(0, 4));
}

#[test]
fn a_function_of_the_standard_library_cannot_be_defined_again() {
    let mut sess = CompilerSession::new();
    sess.add_source("class Main { function void main() { return; } }").unwrap();
    sess.add_source("class Sys { function void init() { return; } }").unwrap();
    let (unit, e) = sess.register().unwrap_err();
    assert_eq!(unit, 1);
    assert_eq!(
        e,
        JackError::SemanticError(SemanticError {
            kind: SemanticErrorKind::AlreadyDefinedIdent {
                name: id("init"),
                original: Span::new(0, 0),
            },
            span: Span::new(26, 30),
        })
    );
}

#[test]
fn an_unused_variable_is_reported_with_its_class() {
    let mut sess = CompilerSession::new();
    sess.add_source("class A { function void f(int a) { return; } }").unwrap();
    sess.add_source("class B { field int b; function int g() { return b; } function void h(int c) { return; } }").unwrap();
    let warnings = sess.lint();
    let found: Vec<(usize, Vec<u8>)> = warnings
        .iter()
        .map(|w| match &w.1.kind {
            SemanticErrorKind::UnusedVariable(n) => (w.0, n.clone()),
            other => panic!("{:?}", other),
        })
        .collect();
    assert_eq!(found, vec![(0, id("a")), (1, id("c"))]);
}

#[test]
fn to_index_with_a_variable_is_to_use_it() {
    let mut sess = CompilerSession::new();
    sess.add_source(
        "class X { function int f(Array a, int i, int j, int k, int w) { let a[j] = a[i]; let w = 1; return 0; } }",
    )
    .unwrap();
    let names: Vec<Vec<u8>> = sess
        .lint()
        .iter()
        .map(|w| match &w.1.kind {
            SemanticErrorKind::UnusedVariable(n) => n.clone(),
            other => panic!("{:?}", other),
        })
        .collect();
    // `a` is read, `i` and `j` are read as indices; `w` is only written
    assert_eq!(names, vec![id("k"), id("w")]);
}

#[test]
fn an_unknown_function_in_a_term_is_reported_at_the_term() {
    let source = "class X { function void f() { do Output.printInt(Nope.m(1)); return; } }";
    let (_, _, errors) = compile(&[source]);
    assert_eq!(&source[49..58], "Nope.m(1)");
    assert_eq!(
        errors[0],
        Some(JackError::SemanticError(SemanticError {
            kind: SemanticErrorKind::UndefinedVariable(id("m")),
            span: Span::new(49, 58),
        }))
    );
}

#[test]
fn a_session_remembers_an_error_of_a_class() {
    let mut sess = CompilerSession::new();
    sess.add_source("class A { function void f() { return; } }").unwrap();
    sess.add_source("class B { function void f() { let y = 1; return; } }").unwrap();
    sess.add_source("class C { function void f() { return; } }").unwrap();
    sess.register().unwrap();
    let units = sess.codegen();
    assert_eq!(units[0].error, None);
    assert!(units[1].error.is_some());
    assert_eq!(units[2].error, None);
    assert!(sess.has_error);

    let mut sess = CompilerSession::new();
    sess.add_source("class A { function void f() { return; } }").unwrap();
    sess.register().unwrap();
    let units = sess.codegen();
    assert_eq!(units[0].error, None);
    assert!(!sess.has_error);
}
