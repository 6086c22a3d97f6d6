//! What the compiler emits: for each piece of a syntax tree, the lines of
//! stack-machine code that it is lowered to.
//!
//! The code is text, one instruction to a line. Lowering goes through a
//! state: the text written so far, the warnings given so far, and the number
//! of labels handed out so far. A piece that cannot be lowered ends the
//! lowering with an error; what was written before it stays.
use vstd::prelude::*;

use crate::ast::{
    BinOp, Class, Constant, Expr, FnCall, FnDef, FnKind, Parameter, Span, Stmt, StmtKind, Term,
    TermKind, TypeView, UnaryOp, Variable, VariableDef,
};
use crate::jack::diagnosis::typeck::{assignable, expr_type, infer_failure};
use crate::jack::error::{JackErrorView, SemanticErrorKindView, SemanticErrorView};
use crate::jack::symbol::{
    def_kind, label_text, opt_view, segment_of, FnCtxtView, FnSigView, TableView, VarKind,
    VariableCtxtView,
};
use crate::text::{dec, lit};
use crate::vm::segment::{segment_text, Segment};

verus! {

/// The state of a lowering.
pub struct Emitted {
    /// The code written so far.
    pub text: Seq<u8>,
    /// The warnings given so far.
    pub warnings: Seq<SemanticErrorView>,
    /// How many labels were handed out so far.
    pub labels: nat,
}

/// The outcome of lowering one piece: the state behind it, and the error
/// that ended the lowering, if one did.
pub struct Gen {
    pub st: Emitted,
    pub res: Result<(), JackErrorView>,
}

/// The outcome of a piece that was lowered.
pub open spec fn fine(st: Emitted) -> Gen {
    Gen { st, res: Ok(()) }
}

/// The outcome of a piece that was not lowered, because of `e`.
pub open spec fn fail(st: Emitted, e: JackErrorView) -> Gen {
    Gen { st, res: Err(e) }
}

/// The error of the given kind at `span`.
pub open spec fn sem_error(kind: SemanticErrorKindView, span: Span) -> JackErrorView {
    JackErrorView::SemanticError(SemanticErrorView { kind, span })
}

/// The error for a counter of labels that gave out.
pub open spec fn label_failure() -> JackErrorView {
    JackErrorView::InternalCompilerError(lit("the counter of labels is exhausted"))
}

impl Emitted {
    /// One more line.
    pub open spec fn line(self, s: Seq<u8>) -> Emitted {
        Emitted { text: self.text + s + lit("\n"), ..self }
    }

    /// `push <segment> <n>`
    pub open spec fn push(self, segment: Segment, n: nat) -> Emitted {
        Emitted {
            text: self.text + lit("push ") + segment_text(segment) + lit(" ") + dec(n) + lit("\n"),
            ..self
        }
    }

    /// `pop <segment> <n>`
    pub open spec fn pop(self, segment: Segment, n: nat) -> Emitted {
        Emitted {
            text: self.text + lit("pop ") + segment_text(segment) + lit(" ") + dec(n) + lit("\n"),
            ..self
        }
    }

    /// `<word> <name>`: a label, a jump, and the like.
    pub open spec fn named(self, word: &str, name: Seq<u8>) -> Emitted {
        Emitted { text: self.text + lit(word) + name + lit("\n"), ..self }
    }

    /// One more warning.
    pub open spec fn warn(self, kind: SemanticErrorKindView, span: Span) -> Emitted {
        Emitted { warnings: self.warnings.push(SemanticErrorView { kind, span }), ..self }
    }

    /// One more label handed out.
    pub open spec fn labelled(self) -> Emitted {
        Emitted { labels: self.labels + 1, ..self }
    }
}

/// The instruction for a binary operator. Products and quotients are calls
/// of the library.
pub open spec fn op_line(op: BinOp) -> Seq<u8> {
    match op {
        BinOp::Plus => lit("add"),
        BinOp::Minus => lit("sub"),
        BinOp::Mul => lit("call Math.multiply 2"),
        BinOp::Div => lit("call Math.divide 2"),
        BinOp::And => lit("and"),
        BinOp::Or => lit("or"),
        BinOp::Equal => lit("eq"),
        BinOp::Lt => lit("lt"),
        BinOp::Gt => lit("gt"),
    }
}

/// The instruction for a unary operator.
pub open spec fn unary_line(op: UnaryOp) -> Seq<u8> {
    match op {
        UnaryOp::Not => lit("not"),
        UnaryOp::Minus => lit("neg"),
    }
}

/// The bytes of a string from the `i`-th on, each appended to the string on
/// the stack.
pub open spec fn emit_bytes(s: Seq<u8>, i: nat, st: Emitted) -> Emitted
    decreases s.len() - i,
{
    if i >= s.len() {
        st
    } else {
        emit_bytes(
            s,
            i + 1,
            st.push(Segment::Constant, s[i as int] as nat).line(lit("call String.appendChar 2")),
        )
    }
}

/// A constant: a number is pushed; `null` and `false` are 0; `true` is -1;
/// `this` is the first pointer; a string is built byte by byte.
pub open spec fn emit_constant(c: Constant, st: Emitted) -> Emitted {
    match c {
        Constant::This => st.push(Segment::Pointer, 0),
        Constant::Integer(n) => st.push(Segment::Constant, n as nat),
        Constant::Null => st.push(Segment::Constant, 0),
        Constant::False => st.push(Segment::Constant, 0),
        Constant::True => st.push(Segment::Constant, 1).line(lit("neg")),
        Constant::Str(s) => emit_bytes(
            s@,
            0,
            st.push(Segment::Constant, s@.len()).line(lit("call String.new 1")),
        ),
    }
}

/// The address of an element is put into the second pointer: the index, the
/// base, their sum.
pub open spec fn element_address(st: Emitted, kind: VarKind, register: nat) -> Emitted {
    st.push(segment_of(kind), register).line(lit("add")).pop(Segment::Pointer, 1)
}

/// `call <class>.<name> <args>`
pub open spec fn call_line(st: Emitted, class: Seq<u8>, name: Seq<u8>, args: nat) -> Emitted {
    Emitted {
        text: st.text + lit("call ") + class + lit(".") + name + lit(" ") + dec(args) + lit("\n"),
        ..st
    }
}

/// An expression: its first term, then its second and the operator, if it
/// has them.
pub open spec fn emit_expr(e: Expr, env: TableView, st: Emitted) -> Gen
    decreases e, 0nat,
{
    let a = emit_term(*e.lhs, env, st);
    if a.res is Err {
        a
    } else {
        match e.rhs {
            None => a,
            Some(b) => {
                let c = emit_term(b.1, env, a.st);
                if c.res is Err {
                    c
                } else {
                    fine(c.st.line(op_line(b.0)))
                }
            },
        }
    }
}

/// A term.
pub open spec fn emit_term(t: Term, env: TableView, st: Emitted) -> Gen
    decreases t, 0nat,
{
    match t.kind {
        TermKind::Const(c) => fine(emit_constant(c, st)),
        TermKind::Variable(v) => emit_variable(v, env, st),
        TermKind::FnCall(f) => emit_call(f, t.span, env, st),
        TermKind::Expr(e) => emit_expr(*e, env, st),
        TermKind::Unary { op, term } => {
            let a = emit_term(*term, env, st);
            if a.res is Err {
                a
            } else {
                fine(a.st.line(unary_line(op)))
            }
        },
    }
}

/// The value of a variable, or of one of its elements. A variable that is
/// not declared is an error.
pub open spec fn emit_variable(v: Variable, env: TableView, st: Emitted) -> Gen
    decreases v, 0nat,
{
    match env.lookup_variable(v.name@) {
        None => fail(st, sem_error(SemanticErrorKindView::UndefinedVariable(v.name@), v.span)),
        Some(e) => match v.index_accessor {
            None => fine(st.push(segment_of(e.0.kind), e.1)),
            Some(offset) => {
                let a = emit_expr(offset, env, st);
                if a.res is Err {
                    a
                } else {
                    fine(element_address(a.st, e.0.kind, e.1).push(Segment::That, 0))
                }
            },
        },
    }
}

/// The arguments of a call from the `i`-th on, left to right.
pub open spec fn emit_args(args: Seq<Expr>, i: nat, env: TableView, st: Emitted) -> Gen
    decreases args, args.len() - i,
{
    if i >= args.len() {
        fine(st)
    } else {
        let a = emit_expr(args[i as int], env, st);
        if a.res is Err {
            a
        } else {
            emit_args(args, i + 1, env, a.st)
        }
    }
}

/// What a call pushes before its arguments, and how many arguments that
/// makes: a receiver that is a variable of a class is pushed as the hidden
/// first argument; a receiver that names a class pushes nothing; without a
/// receiver the current object is pushed. A variable of another type has no
/// methods.
pub open spec fn emit_receiver(f: FnCall, env: TableView, st: Emitted) -> (Gen, nat) {
    match f.receiver {
        None => (fine(st.push(Segment::Pointer, 0)), 1),
        Some(r) => match env.lookup_variable(r@) {
            None => (fine(st), 0),
            Some(e) => match e.0.ty {
                TypeView::Class(_) => (fine(st.push(segment_of(e.0.kind), e.1)), 1),
                _ => (
                    fail(
                        st,
                        sem_error(
                            SemanticErrorKindView::InvalidSyntax(
                                lit("could not call methods of builtin types"),
                            ),
                            e.0.span,
                        ),
                    ),
                    0,
                ),
            },
        },
    }
}

/// A call that stands at `at`: the receiver, the arguments, then the call of
/// the function in the class that the receiver resolves to. A function that
/// is not known is an error at `at`.
pub open spec fn emit_call(f: FnCall, at: Span, env: TableView, st: Emitted) -> Gen
    decreases f, 0nat,
{
    match env.lookup_fn(opt_view(f.receiver), f.fn_name@) {
        None => fail(
            st,
            sem_error(
                SemanticErrorKindView::UndefinedVariable(f.fn_name@),
                at,
            ),
        ),
        Some(fc) => {
            let r = emit_receiver(f, env, st);
            if r.0.res is Err {
                r.0
            } else {
                let a = emit_args(f.args@, 0, env, r.0.st);
                if a.res is Err {
                    a
                } else {
                    fine(call_line(a.st, fc.class, f.fn_name@, f.args@.len() + r.1))
                }
            }
        },
    }
}

/// The range of an expression: from the start of its first term to the end
/// of its last. Where the terms are out of order, it is the range of the
/// first.
pub open spec fn expr_range(e: Expr) -> Span {
    match e.rhs {
        Some(b) => if b.1.span.valid() && e.lhs.span.low() <= b.1.span.high() {
            Span::between(e.lhs.span.low(), b.1.span.high())
        } else {
            e.lhs.span
        },
        None => e.lhs.span,
    }
}

/// The check of an assignment: a warning where the type of the value does
/// not fit the variable. A value without a type is an error; `null` fits
/// everything.
pub open spec fn check_assign(
    stmt: Stmt,
    lhs: Variable,
    rhs: Expr,
    expected: TypeView,
    env: TableView,
    st: Emitted,
) -> Gen {
    if rhs.lhs.kind matches TermKind::Const(Constant::Null) {
        fine(st)
    } else {
        match expr_type(rhs, env) {
            None => fail(st, infer_failure(rhs)),
            Some(ty) => if assignable(lhs, ty, env) {
                fine(st)
            } else {
                fine(
                    st.warn(
                        SemanticErrorKindView::TypeMismatch { expected, actual: ty },
                        stmt.span,
                    ),
                )
            },
        }
    }
}

/// `let`: the value, then the store into the variable or into its element.
pub open spec fn emit_let(stmt: Stmt, lhs: Variable, rhs: Expr, env: TableView, st: Emitted) -> Gen {
    match env.lookup_variable(lhs.name@) {
        None => fail(
            st,
            sem_error(SemanticErrorKindView::UndefinedVariable(lhs.name@), lhs.span),
        ),
        Some(e) => {
            let c = check_assign(stmt, lhs, rhs, e.0.ty, env, st);
            if c.res is Err {
                c
            } else {
                let a = emit_expr(rhs, env, c.st);
                if a.res is Err {
                    a
                } else {
                    match lhs.index_accessor {
                        None => fine(a.st.pop(segment_of(e.0.kind), e.1)),
                        Some(offset) => {
                            let b = emit_expr(offset, env, a.st);
                            if b.res is Err {
                                b
                            } else {
                                fine(element_address(b.st, e.0.kind, e.1).pop(Segment::That, 0))
                            }
                        },
                    }
                }
            }
        },
    }
}

/// `do`: the call, and its result thrown away. A warning where the function
/// returns a value; an error where it is not known.
pub open spec fn emit_do(stmt: Stmt, f: FnCall, env: TableView, st: Emitted) -> Gen {
    match env.lookup_fn(opt_view(f.receiver), f.fn_name@) {
        None => fail(
            st,
            sem_error(
                SemanticErrorKindView::InvalidSyntax(lit("called function is not defined")),
                stmt.span,
            ),
        ),
        Some(fc) => {
            let w = if fc.ty is Void {
                st
            } else {
                st.warn(
                    SemanticErrorKindView::TypeMismatch {
                        expected: TypeView::Void,
                        actual: fc.ty,
                    },
                    stmt.span,
                )
            };
            let a = emit_call(f, stmt.span, env, w);
            if a.res is Err {
                a
            } else {
                fine(a.st.pop(Segment::Temp, 0))
            }
        },
    }
}

/// The check of a returned value: a warning where its type is not that of
/// the function. A constructor returns what it likes.
pub open spec fn check_return(value: Expr, kind: FnKind, ret: TypeView, env: TableView, st: Emitted) -> Gen {
    if kind is Ctor {
        fine(st)
    } else {
        match expr_type(value, env) {
            None => fail(st, infer_failure(value)),
            Some(ty) => if ty == ret {
                fine(st)
            } else {
                fine(
                    st.warn(
                        SemanticErrorKindView::TypeMismatch { expected: ret, actual: ty },
                        expr_range(value),
                    ),
                )
            },
        }
    }
}

/// `return`: the value, or 0 where the function returns nothing. A missing
/// value is an error where the function returns one.
pub open spec fn emit_return(stmt: Stmt, value: Option<Expr>, env: TableView, st: Emitted) -> Gen {
    match env.current_fn {
        None => fail(
            st,
            sem_error(
                SemanticErrorKindView::InvalidSyntax(
                    lit("statements can't be declared outside functions"),
                ),
                stmt.span,
            ),
        ),
        Some(f) => match value {
            Some(v) => {
                let c = check_return(v, f.kind, f.ret, env, st);
                if c.res is Err {
                    c
                } else {
                    let a = emit_expr(v, env, c.st);
                    if a.res is Err {
                        a
                    } else {
                        fine(a.st.line(lit("return")))
                    }
                }
            },
            None => if f.ret is Void {
                fine(st.push(Segment::Constant, 0).line(lit("return")))
            } else {
                fail(
                    st,
                    sem_error(
                        SemanticErrorKindView::TypeMismatch {
                            expected: f.ret,
                            actual: TypeView::Void,
                        },
                        stmt.span,
                    ),
                )
            },
        },
    }
}

/// Two fresh labels: the state behind them, or the state in which the
/// counter gave out.
pub open spec fn two_labels(st: Emitted) -> Gen {
    if st.labels >= usize::MAX {
        fail(st, label_failure())
    } else if st.labels + 1 >= usize::MAX {
        fail(st.labelled(), label_failure())
    } else {
        fine(st.labelled().labelled())
    }
}

/// A statement.
pub open spec fn emit_stmt(stmt: Stmt, env: TableView, st: Emitted) -> Gen
    decreases stmt, 0nat,
{
    match stmt.kind {
        StmtKind::Let { lhs, rhs } => emit_let(stmt, lhs, rhs, env, st),
        StmtKind::Do(f) => emit_do(stmt, f, env, st),
        StmtKind::Return(value) => emit_return(stmt, value, env, st),
        StmtKind::If { cond, then_branch, else_branch } => {
            // the condition, a jump to the `then` branch, the `else` branch,
            // a jump to the end, the `then` branch
            let l = two_labels(st);
            if l.res is Err {
                l
            } else {
                let then_label = label_text(st.labels + 1);
                let end_label = label_text(st.labels + 2);
                let c = emit_expr(cond, env, l.st);
                if c.res is Err {
                    c
                } else {
                    let e = match else_branch {
                        Some(b) => emit_stmts(b@, 0, env, c.st.named("if-goto ", then_label)),
                        None => fine(c.st.named("if-goto ", then_label)),
                    };
                    if e.res is Err {
                        e
                    } else {
                        let t = emit_stmts(
                            then_branch@,
                            0,
                            env,
                            e.st.named("goto ", end_label).named("label ", then_label),
                        );
                        if t.res is Err {
                            t
                        } else {
                            fine(t.st.named("label ", end_label))
                        }
                    }
                }
            }
        },
        StmtKind::While { cond, body } => {
            // the condition, a jump behind the loop if it does not hold, the
            // body, a jump back
            let l = two_labels(st);
            if l.res is Err {
                l
            } else {
                let loop_label = label_text(st.labels + 1);
                let quit_label = label_text(st.labels + 2);
                let c = emit_expr(cond, env, l.st.named("label ", loop_label));
                if c.res is Err {
                    c
                } else {
                    let b = emit_stmts(
                        body@,
                        0,
                        env,
                        c.st.line(lit("not")).named("if-goto ", quit_label),
                    );
                    if b.res is Err {
                        b
                    } else {
                        fine(b.st.named("goto ", loop_label).named("label ", quit_label))
                    }
                }
            }
        },
    }
}

/// The statements of a list from the `i`-th on, in their order.
pub open spec fn emit_stmts(stmts: Seq<Stmt>, i: nat, env: TableView, st: Emitted) -> Gen
    decreases stmts, stmts.len() - i,
{
    if i >= stmts.len() {
        fine(st)
    } else {
        let a = emit_stmt(stmts[i as int], env, st);
        if a.res is Err {
            a
        } else {
            emit_stmts(stmts, i + 1, env, a.st)
        }
    }
}

/// How many of the first `n` variables of a class are fields.
pub open spec fn count_fields(vars: Seq<VariableDef>, n: nat) -> nat
    decreases n,
{
    if n == 0 || n > vars.len() {
        0
    } else if vars[n - 1].kind is Field {
        count_fields(vars, (n - 1) as nat) + 1
    } else {
        count_fields(vars, (n - 1) as nat)
    }
}

/// The head of a function: its name and the number of its local variables.
/// A constructor then allocates one word for each field of the class and
/// makes the object current; a method makes its first argument current.
pub open spec fn emit_fn_head(class: Class, def: FnDef, st: Emitted) -> Emitted {
    let head = Emitted {
        text: st.text + lit("function ") + class.name@ + lit(".") + def.name@ + lit(" ") + dec(
            def.body.variables@.len(),
        ) + lit("\n"),
        ..st
    };
    match def.kind {
        FnKind::Ctor => head.push(
            Segment::Constant,
            count_fields(class.variables@, class.variables@.len()),
        ).line(lit("call Memory.alloc 1")).pop(Segment::Pointer, 0),
        FnKind::Method => head.push(Segment::Argument, 0).pop(Segment::Pointer, 0),
        FnKind::Function => head,
    }
}

/// What the table remembers of a function while it is compiled.
pub open spec fn sig_of(def: FnDef) -> FnSigView {
    FnSigView { name: def.name@, kind: def.kind, ret: def.ret@ }
}

/// The variable that a declaration declares.
pub open spec fn def_ctxt(def: VariableDef) -> VariableCtxtView {
    VariableCtxtView { name: def.name@, ty: def.ty@, kind: def_kind(def.kind), span: def.span }
}

/// The argument that a parameter declares.
pub open spec fn param_ctxt(param: Parameter) -> VariableCtxtView {
    VariableCtxtView { name: param.name@, ty: param.ty@, kind: VarKind::Arg, span: param.span }
}

/// The receiver of a method of `class`: its first argument.
pub open spec fn this_ctxt(class: Class, def: FnDef) -> VariableCtxtView {
    VariableCtxtView {
        name: lit("this"),
        ty: TypeView::Class(class.name@),
        kind: VarKind::Arg,
        span: def.span,
    }
}

/// The outcome of changing the table: the error that ended it, if one did,
/// and the table behind it.
pub struct Declared {
    pub res: Result<(), JackErrorView>,
    pub env: TableView,
}

/// The variables of `defs` from the `i`-th on are registered, in their
/// order, up to the first that cannot be.
pub open spec fn declare_vars(defs: Seq<VariableDef>, i: nat, env: TableView) -> Declared
    decreases defs.len() - i,
{
    if i >= defs.len() {
        Declared { res: Ok(()), env }
    } else {
        let r = env.register_variable(def_ctxt(defs[i as int]));
        if r.0 is Err {
            Declared { res: r.0, env: r.1 }
        } else {
            declare_vars(defs, i + 1, r.1)
        }
    }
}

/// The parameters from the `i`-th on are registered as arguments, in their
/// order.
pub open spec fn declare_params(params: Seq<Parameter>, i: nat, env: TableView) -> Declared
    decreases params.len() - i,
{
    if i >= params.len() {
        Declared { res: Ok(()), env }
    } else {
        let r = env.register_variable(param_ctxt(params[i as int]));
        if r.0 is Err {
            Declared { res: r.0, env: r.1 }
        } else {
            declare_params(params, i + 1, r.1)
        }
    }
}

/// The receiver of a method is registered as its first argument; other
/// functions have none.
pub open spec fn declare_this(class: Class, def: FnDef, env: TableView) -> Declared {
    if def.kind is Method {
        let r = env.register_variable(this_ctxt(class, def));
        Declared { res: r.0, env: r.1 }
    } else {
        Declared { res: Ok(()), env }
    }
}

/// The table inside the function `def`: a fresh scope with the receiver, the
/// parameters and the local variables, in this order.
pub open spec fn declare_fn(class: Class, def: FnDef, env: TableView) -> Declared {
    let t = declare_this(class, def, env.enter(sig_of(def)));
    if t.res is Err {
        t
    } else {
        let p = declare_params(def.params@, 0, t.env);
        if p.res is Err {
            p
        } else {
            declare_vars(def.body.variables@, 0, p.env)
        }
    }
}

/// A function: its head, then its statements, lowered in the table of the
/// function.
pub open spec fn emit_fn(class: Class, def: FnDef, env: TableView, st: Emitted) -> Gen {
    let head = emit_fn_head(class, def, st);
    let d = declare_fn(class, def, env);
    match d.res {
        Err(e) => fail(head, e),
        Ok(_) => emit_stmts(def.body.statements@, 0, d.env, head),
    }
}

/// The functions of a class from the `i`-th on.
pub open spec fn emit_fns(class: Class, i: nat, env: TableView, st: Emitted) -> Gen
    decreases class.functions@.len() - i,
{
    if i >= class.functions@.len() {
        fine(st)
    } else {
        let a = emit_fn(class, class.functions@[i as int], env, st);
        if a.res is Err {
            a
        } else {
            emit_fns(class, i + 1, env, a.st)
        }
    }
}

/// The table in which the functions of `class` are lowered: a new session
/// with the variables of the class.
pub open spec fn declare_class(class: Class, env: TableView) -> Declared {
    declare_vars(class.variables@, 0, env.sess(class.name@))
}

/// A class: its functions, one after the other. The first error ends the
/// class.
pub open spec fn emit_class(class: Class, env: TableView, st: Emitted) -> Gen {
    let d = declare_class(class, env);
    match d.res {
        Err(e) => fail(st, e),
        Ok(_) => emit_fns(class, 0, d.env, st),
    }
}

/// The functions of `class` from the `i`-th on are filed in the registry, up
/// to the first whose name the class has already.
pub open spec fn file_fns(class: Class, i: nat, env: TableView) -> Declared
    decreases class.functions@.len() - i,
{
    if i >= class.functions@.len() {
        Declared { res: Ok(()), env }
    } else {
        let f = class.functions@[i as int];
        let r = env.register_fn(
            FnCtxtView { class: class.name@, name: f.name@, ty: f.ret@, span: f.span },
        );
        if r.0 is Err {
            Declared { res: r.0, env: r.1 }
        } else {
            file_fns(class, i + 1, r.1)
        }
    }
}

/// The functions of `class` are filed in the registry, in a session for the
/// class. This comes before any class is lowered, so that calls across
/// classes resolve.
pub open spec fn file_class(class: Class, env: TableView) -> Declared {
    file_fns(class, 0, env.sess(class.name@))
}

} // verus!
