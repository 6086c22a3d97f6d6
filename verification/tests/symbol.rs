use hack_toolchain::ast::{FnBody, FnDef, FnKind, Span, Type};
use hack_toolchain::jack::error::{JackError, SemanticError, SemanticErrorKind};
use hack_toolchain::jack::symbol::{SymbolTable, VarKind, VariableCtxt};
use hack_toolchain::vm::segment::Segment;

fn id(s: &str) -> Vec<u8> {
    s.as_bytes().to_vec()
}

fn fndef() -> FnDef {
    FnDef {
        name: id("function"),
        span: Span::new(0, 0),
        kind: FnKind::Method,
        ret: Type::Void,
        params: vec![],
        body: FnBody { variables: vec![], statements: vec![] },
    }
}

#[test]
fn symbol_table_scoped() {
    let mut table = SymbolTable::empty();
    let fndef = fndef();
    let some_field = VariableCtxt::field(id("some_field"), Type::Int, Span::new(0, 10));
    table.register_variable(some_field).unwrap();

    table.scoped(&fndef);
    let some_var = VariableCtxt::var(id("some_var"), Type::Char, Span::new(0, 8));
    table.register_variable(some_var).unwrap();
    assert_eq!(table.count(VarKind::Var), 1);
    table.leave_fn();

    table.scoped(&fndef);
    let some_var = VariableCtxt::var(id("some_var_in_other_scope"), Type::Char, Span::new(0, 23));
    table.register_variable(some_var).unwrap();
    assert_eq!(table.count(VarKind::Var), 1);
    table.leave_fn();

    assert_eq!(table.count(VarKind::Field), 1);
    // because it's out of the scope above,
    // there're no registered local variable.
    assert_eq!(table.count(VarKind::Var), 0);
}

#[test]
fn symbol_table_lookup() {
    let fndef = fndef();
    let span = Span::new(0, 0);

    let mut table = SymbolTable::empty();
    assert_eq!(table.lookup_variable(b"foo"), None);

    let foo = VariableCtxt::field(id("foo"), Type::Char, span);
    table.register_variable(foo.clone()).unwrap();
    assert_eq!(table.lookup_variable(b"foo").unwrap(), &(foo.clone(), 0));

    table.scoped(&fndef);
    assert_eq!(table.lookup_variable(b"foo").unwrap(), &(foo.clone(), 0));
    let bar = VariableCtxt::var(id("bar"), Type::Char, span);
    let piyo = VariableCtxt::var(id("piyo"), Type::Char, span);
    table.register_variable(bar.clone()).unwrap();
    table.register_variable(piyo.clone()).unwrap();
    assert_eq!(table.lookup_variable(b"bar").unwrap(), &(bar, 0));
    assert_eq!(table.lookup_variable(b"piyo").unwrap(), &(piyo, 1));
    table.leave_fn();

    assert_eq!(table.lookup_variable(b"foo").unwrap(), &(foo, 0));

    assert_eq!(table.lookup_variable(b"bar"), None);
    assert_eq!(table.lookup_variable(b"piyo"), None);
}

#[test]
fn registers_count_from_zero_for_each_kind() {
    let span = Span::new(0, 0);
    let mut table = SymbolTable::empty();
    table.sess(id("C"));
    table.register_variable(VariableCtxt::field(id("a"), Type::Int, span)).unwrap();
    table.register_variable(VariableCtxt::stat(id("s"), Type::Int, span)).unwrap();
    table.register_variable(VariableCtxt::field(id("b"), Type::Int, span)).unwrap();
    table.register_variable(VariableCtxt::stat(id("t"), Type::Int, span)).unwrap();
    assert_eq!(table.lookup_variable(b"a").unwrap().1, 0);
    assert_eq!(table.lookup_variable(b"b").unwrap().1, 1);
    assert_eq!(table.lookup_variable(b"s").unwrap().1, 0);
    assert_eq!(table.lookup_variable(b"t").unwrap().1, 1);
}

#[test]
fn a_second_variable_of_a_name_takes_the_place_of_the_first() {
    let mut table = SymbolTable::empty();
    table.sess(id("C"));
    table.register_variable(VariableCtxt::field(id("a"), Type::Int, Span::new(0, 1))).unwrap();
    table.register_variable(VariableCtxt::field(id("a"), Type::Char, Span::new(5, 6))).unwrap();
    let (var, register) = table.lookup_variable(b"a").unwrap();
    assert_eq!(var.ty, Type::Char);
    assert_eq!(*register, 1);
    assert_eq!(table.count(VarKind::Field), 2);
}

#[test]
fn the_inner_scope_hides_the_outer() {
    let mut table = SymbolTable::empty();
    table.sess(id("C"));
    table.register_variable(VariableCtxt::field(id("x"), Type::Int, Span::new(0, 1))).unwrap();
    table.scoped(&fndef());
    table.register_variable(VariableCtxt::var(id("x"), Type::Char, Span::new(0, 1))).unwrap();
    assert_eq!(table.lookup_variable(b"x").unwrap().0.kind, VarKind::Var);
    table.leave_fn();
    assert_eq!(table.lookup_variable(b"x").unwrap().0.kind, VarKind::Field);
}

#[test]
fn a_kind_belongs_to_its_scope() {
    let span = Span::new(3, 4);
    let mut table = SymbolTable::empty();
    table.sess(id("C"));
    let e = table.register_variable(VariableCtxt::var(id("v"), Type::Int, span)).unwrap_err();
    assert_eq!(
        e,
        JackError::SemanticError(SemanticError {
            kind: SemanticErrorKind::InvalidSyntax(id(
                "cannot use var to define class-scoped variables"
            )),
            span,
        })
    );
    assert!(table.register_variable(VariableCtxt::this(Type::Int, span)).is_err());
    table.scoped(&fndef());
    let e = table.register_variable(VariableCtxt::field(id("f"), Type::Int, span)).unwrap_err();
    assert_eq!(
        e,
        JackError::SemanticError(SemanticError {
            kind: SemanticErrorKind::InvalidSyntax(id(
                "cannot use field to define function-scoped variables"
            )),
            span,
        })
    );
    assert!(table.register_variable(VariableCtxt::stat(id("s"), Type::Int, span)).is_err());
    assert!(table.register_variable(VariableCtxt::this(Type::Int, span)).is_ok());
}

#[test]
fn without_a_session_there_is_no_source_to_report_on() {
    let mut table = SymbolTable::empty();
    let e = table
        .register_variable(VariableCtxt::var(id("v"), Type::Int, Span::new(0, 0)))
        .unwrap_err();
    assert_eq!(e, JackError::InternalCompilerError(id("current source is not set")));
    assert_eq!(
        table.current_class().unwrap_err(),
        JackError::InternalCompilerError(id("SymbolTable: current class is not set"))
    );
}

#[test]
fn a_function_is_registered_once() {
    let mut table = SymbolTable::empty();
    table.sess(id("C"));
    table.register_fn(id("C"), id("f"), Type::Int, Span::new(10, 11)).unwrap();
    let e = table.register_fn(id("C"), id("f"), Type::Void, Span::new(40, 41)).unwrap_err();
    assert_eq!(
        e,
        JackError::SemanticError(SemanticError {
            kind: SemanticErrorKind::AlreadyDefinedIdent {
                name: id("f"),
                original: Span::new(10, 11),
            },
            span: Span::new(40, 41),
        })
    );
    // the same name in another class is another function
    table.register_fn(id("D"), id("f"), Type::Void, Span::new(0, 1)).unwrap();
    assert_eq!(table.find_fn(b"C", b"f").unwrap().ty, Type::Int);
    assert_eq!(table.find_fn(b"D", b"f").unwrap().ty, Type::Void);
    // classes and names are not run together
    assert!(table.find_fn(b"Cf", b"").is_none());
    assert!(table.find_fn(b"", b"Cf").is_none());
}

#[test]
fn a_call_resolves_by_its_receiver() {
    let span = Span::new(0, 0);
    let mut table = SymbolTable::new();
    table.register_fn(id("Foo"), id("m"), Type::Int, span).unwrap();
    table.register_fn(id("Main"), id("run"), Type::Void, span).unwrap();
    table.sess(id("Main"));
    table
        .register_variable(VariableCtxt::field(id("obj"), Type::Class(id("Foo")), span))
        .unwrap();
    table.register_variable(VariableCtxt::field(id("n"), Type::Int, span)).unwrap();
    // a variable of a class: the class of the variable
    assert_eq!(table.lookup_fn(Some(b"obj"), b"m").unwrap().class, id("Foo"));
    // the name of a class
    assert_eq!(table.lookup_fn(Some(b"Foo"), b"m").unwrap().class, id("Foo"));
    // a variable of another type: taken as the name of a class
    assert!(table.lookup_fn(Some(b"n"), b"m").is_none());
    // no receiver: the current class
    assert_eq!(table.lookup_fn(None, b"run").unwrap().class, id("Main"));
    assert!(table.lookup_fn(None, b"m").is_none());
}

#[test]
fn the_standard_library_is_known() {
    let table = SymbolTable::new();
    assert_eq!(table.find_fn(b"Math", b"multiply").unwrap().ty, Type::Int);
    assert_eq!(table.find_fn(b"Memory", b"alloc").unwrap().ty, Type::Class(id("Array")));
    assert_eq!(table.find_fn(b"String", b"appendChar").unwrap().ty, Type::Class(id("String")));
    assert_eq!(table.find_fn(b"Keyboard", b"readChar").unwrap().ty, Type::Char);
    assert_eq!(table.find_fn(b"Sys", b"wait").unwrap().ty, Type::Void);
    assert_eq!(table.find_fn(b"Output", b"printInt").unwrap().span, Span::new(0, 0));
    assert!(table.find_fn(b"Sys", b"exit").is_none());
    assert!(SymbolTable::empty().find_fn(b"Math", b"multiply").is_none());
}

#[test]
fn labels_are_numbered_from_one() {
    let mut table = SymbolTable::empty();
    assert_eq!(table.label(), Some(id("LABEL_1")));
    assert_eq!(table.label(), Some(id("LABEL_2")));
    assert_eq!(table.labels(), 2);
}

#[test]
fn kinds_map_to_segments() {
    assert_eq!(VarKind::Var.segment(), Segment::Local);
    assert_eq!(VarKind::Arg.segment(), Segment::Argument);
    assert_eq!(VarKind::Static.segment(), Segment::Static);
    assert_eq!(VarKind::Field.segment(), Segment::This);
}
