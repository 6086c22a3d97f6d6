//! The symbol table of the compiler: the functions of all classes, and the
//! variables of the class and of the function that are being compiled.
//!
//! Variables live in two scopes, that of the class (`static`, `field`) and
//! that of the function (`var` and arguments). Each variable gets a register:
//! the number of variables of its kind that its scope held before it.
use vstd::prelude::*;

use crate::ast::{
    copy_ident, FnDef, FnKind, Ident, Parameter, Span, Type, TypeView, VariableDef, VariableDefKind,
};
use crate::fx::{entry_at, index_entries, index_get, index_insert, index_new, NameIndex};
use crate::jack::error::{
    JackError, JackErrorView, SemanticError, SemanticErrorKind, SemanticErrorKindView,
    SemanticErrorView,
};
use crate::text::{dec, lemma_dec_injective, lit, lit_vec, push_all, push_dec, push_lit};
use crate::vm::segment::Segment;

verus! {

/// What is known of a function: its class, its name, its return type and
/// where it is defined.
#[derive(Debug, Clone, PartialEq, Eq)]
pub struct FnCtxt {
    pub class: Ident,
    pub name: Ident,
    pub ty: Type,
    pub span: Span,
}

/// `FnCtxt` as contracts see it: its text is a sequence of bytes.
pub struct FnCtxtView {
    pub class: Seq<u8>,
    pub name: Seq<u8>,
    pub ty: TypeView,
    pub span: Span,
}

impl View for FnCtxt {
    type V = FnCtxtView;

    open spec fn view(&self) -> FnCtxtView {
        FnCtxtView { class: self.class@, name: self.name@, ty: self.ty@, span: self.span }
    }
}

/// The kinds of variables: local variables, arguments, static variables and
/// fields.
#[derive(Debug, Clone, Copy, Eq, PartialEq, Hash, Structural)]
pub enum VarKind {
    Var,
    Arg,
    Static,
    Field,
}

impl VarKind {
    /// The memory segment that holds the variables of this kind.
    pub fn segment(&self) -> (s: Segment)
        ensures
            s == segment_of(*self),
    {
        match self {
            VarKind::Var => Segment::Local,
            VarKind::Arg => Segment::Argument,
            VarKind::Static => Segment::Static,
            VarKind::Field => Segment::This,
        }
    }

    /// The name of the kind in a diagnostic.
    pub fn name(&self) -> (r: &'static str)
        ensures
            lit(r) == kind_text(*self),
    {
        match self {
            VarKind::Var => "var",
            VarKind::Arg => "function argument",
            VarKind::Static => "static",
            VarKind::Field => "field",
        }
    }
}

/// The memory segment that holds the variables of a kind.
pub open spec fn segment_of(kind: VarKind) -> Segment {
    match kind {
        VarKind::Var => Segment::Local,
        VarKind::Arg => Segment::Argument,
        VarKind::Static => Segment::Static,
        VarKind::Field => Segment::This,
    }
}

/// The name of a kind of variable in a diagnostic.
pub open spec fn kind_text(kind: VarKind) -> Seq<u8> {
    match kind {
        VarKind::Var => lit("var"),
        VarKind::Arg => lit("function argument"),
        VarKind::Static => lit("static"),
        VarKind::Field => lit("field"),
    }
}

/// What is known of a variable: its name, its type, its kind and where it is
/// declared.
#[derive(Debug, Clone, PartialEq, Eq)]
pub struct VariableCtxt {
    pub name: Ident,
    pub ty: Type,
    pub kind: VarKind,
    pub span: Span,
}

/// `VariableCtxt` as contracts see it: its text is a sequence of bytes.
pub struct VariableCtxtView {
    pub name: Seq<u8>,
    pub ty: TypeView,
    pub kind: VarKind,
    pub span: Span,
}

impl View for VariableCtxt {
    type V = VariableCtxtView;

    open spec fn view(&self) -> VariableCtxtView {
        VariableCtxtView { name: self.name@, ty: self.ty@, kind: self.kind, span: self.span }
    }
}

/// The kind of variable that a kind of declaration declares.
pub open spec fn def_kind(kind: VariableDefKind) -> VarKind {
    match kind {
        VariableDefKind::Var => VarKind::Var,
        VariableDefKind::Static => VarKind::Static,
        VariableDefKind::Field => VarKind::Field,
    }
}

impl VariableCtxt {
    /// A field of a class.
    pub fn field(name: Ident, ty: Type, span: Span) -> (v: VariableCtxt)
        ensures
            v == (VariableCtxt { name, ty, kind: VarKind::Field, span }),
    {
        VariableCtxt { name, ty, kind: VarKind::Field, span }
    }

    /// A static variable of a class.
    pub fn stat(name: Ident, ty: Type, span: Span) -> (v: VariableCtxt)
        ensures
            v == (VariableCtxt { name, ty, kind: VarKind::Static, span }),
    {
        VariableCtxt { name, ty, kind: VarKind::Static, span }
    }

    /// A local variable of a function.
    pub fn var(name: Ident, ty: Type, span: Span) -> (v: VariableCtxt)
        ensures
            v == (VariableCtxt { name, ty, kind: VarKind::Var, span }),
    {
        VariableCtxt { name, ty, kind: VarKind::Var, span }
    }

    /// The receiver of a method: its first argument, called `this`.
    pub fn this(ty: Type, span: Span) -> (v: VariableCtxt)
        ensures
            v@ == (VariableCtxtView { name: lit("this"), ty: ty@, kind: VarKind::Arg, span }),
    {
        VariableCtxt { name: lit_vec("this"), ty, kind: VarKind::Arg, span }
    }

    /// The variable that a definition declares.
    pub fn from_def(var: &VariableDef) -> (v: VariableCtxt)
        ensures
            v@ == (VariableCtxtView {
                name: var.name@,
                ty: var.ty@,
                kind: def_kind(var.kind),
                span: var.span,
            }),
    {
        VariableCtxt {
            name: copy_ident(&var.name),
            ty: var.ty.duplicate(),
            span: var.span,
            kind: match var.kind {
                VariableDefKind::Var => VarKind::Var,
                VariableDefKind::Static => VarKind::Static,
                VariableDefKind::Field => VarKind::Field,
            },
        }
    }

    /// The argument that a parameter declares.
    pub fn from_param(param: &Parameter) -> (v: VariableCtxt)
        ensures
            v@ == (VariableCtxtView {
                name: param.name@,
                ty: param.ty@,
                kind: VarKind::Arg,
                span: param.span,
            }),
    {
        VariableCtxt {
            name: copy_ident(&param.name),
            ty: param.ty.duplicate(),
            span: param.span,
            kind: VarKind::Arg,
        }
    }
}

/// How many variables of each kind a scope holds.
pub struct Counts {
    pub var: nat,
    pub arg: nat,
    pub stat: nat,
    pub field: nat,
}

impl Counts {
    /// No variable of any kind.
    pub open spec fn none() -> Counts {
        Counts { var: 0, arg: 0, stat: 0, field: 0 }
    }

    /// The counter of the kind `kind`.
    pub open spec fn of(self, kind: VarKind) -> nat {
        match kind {
            VarKind::Var => self.var,
            VarKind::Arg => self.arg,
            VarKind::Static => self.stat,
            VarKind::Field => self.field,
        }
    }

    /// The sum of the counters.
    pub open spec fn total(self) -> nat {
        self.var + self.arg + self.stat + self.field
    }

    /// The counters after one more variable of `kind`.
    pub open spec fn bump(self, kind: VarKind) -> Counts {
        match kind {
            VarKind::Var => Counts { var: self.var + 1, ..self },
            VarKind::Arg => Counts { arg: self.arg + 1, ..self },
            VarKind::Static => Counts { stat: self.stat + 1, ..self },
            VarKind::Field => Counts { field: self.field + 1, ..self },
        }
    }
}

/// The variables of one scope, as contracts see them.
pub struct ScopeView {
    /// Each name with the variable that was registered under it last, and
    /// its register.
    pub vars: Map<Seq<u8>, (VariableCtxtView, nat)>,
    /// How many variables of each kind were registered.
    pub counts: Counts,
}

impl ScopeView {
    /// The scope that holds nothing.
    pub open spec fn empty() -> ScopeView {
        ScopeView { vars: Map::empty(), counts: Counts::none() }
    }

    /// The scope after `var` was registered: it gets the next register of its
    /// kind, and takes the place of a variable of the same name.
    pub open spec fn with(self, var: VariableCtxtView) -> ScopeView {
        ScopeView {
            vars: self.vars.insert(var.name, (var, self.counts.of(var.kind))),
            counts: self.counts.bump(var.kind),
        }
    }

    /// The variable called `name` and its register.
    pub open spec fn lookup(self, name: Seq<u8>) -> Option<(VariableCtxtView, nat)> {
        if self.vars.dom().contains(name) {
            Some(self.vars[name])
        } else {
            None
        }
    }
}

/// The variables of one scope: the variables in the order of their
/// registration, the place of each under its name, and for each kind of
/// variable, under the name of the kind, how many of it there are.
pub struct ScopedContext {
    names: NameIndex,
    entries: Vec<(VariableCtxt, usize)>,
    counters: NameIndex,
}

/// How many variables of `kind` the counters `m` have counted. A kind is
/// counted under its name, and a kind without a counter has no variable.
pub open spec fn counted(m: Map<Seq<u8>, usize>, kind: VarKind) -> nat {
    match entry_at(m, kind_text(kind)) {
        Some(n) => n as nat,
        None => 0,
    }
}

/// What the counters `m` have counted, kind by kind.
pub open spec fn counts_of(m: Map<Seq<u8>, usize>) -> Counts {
    Counts {
        var: counted(m, VarKind::Var),
        arg: counted(m, VarKind::Arg),
        stat: counted(m, VarKind::Static),
        field: counted(m, VarKind::Field),
    }
}

/// The kinds have different names.
pub proof fn lemma_kind_texts_differ(a: VarKind, b: VarKind)
    ensures
        a != b ==> kind_text(a) != kind_text(b),
{
    reveal_strlit("var");
    reveal_strlit("function argument");
    reveal_strlit("static");
    reveal_strlit("field");
    vstd::string::is_ascii_spec_bytes("var");
    vstd::string::is_ascii_spec_bytes("function argument");
    vstd::string::is_ascii_spec_bytes("static");
    vstd::string::is_ascii_spec_bytes("field");
    assert(lit("var").len() == 3);
    assert(lit("function argument").len() == 17);
    assert(lit("static").len() == 6);
    assert(lit("field").len() == 5);
}

impl View for ScopedContext {
    type V = ScopeView;

    closed spec fn view(&self) -> ScopeView {
        ScopeView {
            vars: Map::new(
                |n: Seq<u8>| index_entries(self.names).dom().contains(n),
                |n: Seq<u8>|
                    (
                        self.entries@[index_entries(self.names)[n] as int].0@,
                        self.entries@[index_entries(self.names)[n] as int].1 as nat,
                    ),
            ),
            counts: counts_of(index_entries(self.counters)),
        }
    }
}

impl ScopedContext {
    /// The scope is in order: it counts what it holds, and every variable that
    /// has a name is held.
    pub closed spec fn wf(&self) -> bool {
        &&& counts_of(index_entries(self.counters)).total() == self.entries@.len()
        &&& forall|n: Seq<u8>| #[trigger]
            index_entries(self.names).dom().contains(n) ==> index_entries(self.names)[n]
                < self.entries@.len()
    }

    /// A scope without variables.
    pub fn new() -> (s: ScopedContext)
        ensures
            s.wf(),
            s@ == ScopeView::empty(),
    {
        let s = ScopedContext {
            names: index_new(),
            entries: Vec::new(),
            counters: index_new(),
        };
        assert(s@.vars =~= Map::<Seq<u8>, (VariableCtxtView, nat)>::empty());
        s
    }

    /// How many variables of `kind` were registered.
    pub fn count(&self, kind: VarKind) -> (n: usize)
        ensures
            n == self@.counts.of(kind),
    {
        match index_get(&self.counters, kind.name().as_bytes()) {
            Some(n) => n,
            None => 0,
        }
    }

    /// The variable called `name` and its register.
    pub fn lookup_ident(&self, name: &[u8]) -> (r: Option<&(VariableCtxt, usize)>)
        requires
            self.wf(),
        ensures
            match r {
                Some(e) => self@.lookup(name@) == Some((e.0@, e.1 as nat)),
                None => self@.lookup(name@).is_none(),
            },
    {
        match index_get(&self.names, name) {
            Some(i) => Some(&self.entries[i]),
            None => None,
        }
    }

    /// Registers `var` with the next register of its kind, and returns the
    /// register.
    pub fn add(&mut self, var: VariableCtxt) -> (register: usize)
        requires
            old(self).wf(),
        ensures
            final(self).wf(),
            final(self)@ == old(self)@.with(var@),
            register == old(self)@.counts.of(var.kind),
    {
        let n = self.entries.len();
        let register = self.count(var.kind);
        let kind = lit_vec(var.kind.name());
        let key = copy_ident(&var.name);
        let ghost v = var@;
        self.entries.push((var, register));
        let held = self.entries.len();
        proof {
            lemma_kind_texts_differ(VarKind::Var, v.kind);
            lemma_kind_texts_differ(VarKind::Arg, v.kind);
            lemma_kind_texts_differ(VarKind::Static, v.kind);
            lemma_kind_texts_differ(VarKind::Field, v.kind);
            assert(register < held);
        }
        index_insert(&mut self.counters, kind, register + 1);
        index_insert(&mut self.names, key, n);
        assert(final(self)@.vars =~= old(self)@.vars.insert(v.name, (v, register as nat)));
        register
    }
}

/// What the table remembers of the function that is being compiled.
#[derive(Debug, PartialEq, Eq)]
pub struct FnSig {
    pub name: Ident,
    pub kind: FnKind,
    pub ret: Type,
}

/// `FnSig` as contracts see it: its text is a sequence of bytes.
pub struct FnSigView {
    pub name: Seq<u8>,
    pub kind: FnKind,
    pub ret: TypeView,
}

impl View for FnSig {
    type V = FnSigView;

    open spec fn view(&self) -> FnSigView {
        FnSigView { name: self.name@, kind: self.kind, ret: self.ret@ }
    }
}

/// The key of a function in the registry: its class and its name.
pub type FnKey = (Seq<u8>, Seq<u8>);

/// The symbol table, as contracts see it.
pub struct TableView {
    /// The functions of all classes, each under its class and its name.
    pub fns: Map<FnKey, FnCtxtView>,
    /// The variables of the class.
    pub class_scope: ScopeView,
    /// The variables of the function, while one is being compiled.
    pub fn_scope: Option<ScopeView>,
    /// The name of the class that is being compiled.
    pub current: Option<Seq<u8>>,
    /// The function that is being compiled.
    pub current_fn: Option<FnSigView>,
}

/// The function of the class `class` called `name`, if `fns` has it.
pub open spec fn fn_at(fns: Map<FnKey, FnCtxtView>, class: Seq<u8>, name: Seq<u8>) -> Option<
    FnCtxtView,
> {
    if fns.dom().contains((class, name)) {
        Some(fns[(class, name)])
    } else {
        None
    }
}

/// The error of the compiler that says `message`.
pub open spec fn internal_error(message: &str) -> JackErrorView {
    JackErrorView::InternalCompilerError(lit(message))
}

/// The text of the `n`-th label.
pub open spec fn label_text(n: nat) -> Seq<u8> {
    lit("LABEL_") + dec(n)
}

/// What the error says when a variable of the kind `kind` is declared in a
/// scope of the level `level`, where it does not belong.
pub open spec fn scope_message(kind: VarKind, level: &str) -> Seq<u8> {
    lit("cannot use ") + kind_text(kind) + lit(" to define ") + lit(level) + lit(
        "-scoped variables",
    )
}

impl TableView {
    /// The variable called `name`: that of the function if there is one,
    /// else that of the class.
    pub open spec fn lookup_variable(self, name: Seq<u8>) -> Option<(VariableCtxtView, nat)> {
        match self.fn_scope {
            Some(scope) => match scope.lookup(name) {
                Some(v) => Some(v),
                None => self.class_scope.lookup(name),
            },
            None => self.class_scope.lookup(name),
        }
    }

    /// The class that a call through `receiver` resolves in: the class of
    /// the variable of that name, if there is one and its type is a class,
    /// else the class of that name.
    pub open spec fn receiver_class(self, receiver: Seq<u8>) -> Seq<u8> {
        match self.lookup_variable(receiver) {
            Some(v) => match v.0.ty {
                TypeView::Class(name) => name,
                _ => receiver,
            },
            None => receiver,
        }
    }

    /// The function that a call of `fn_name` resolves to. Without a receiver
    /// it is looked up in the current class.
    pub open spec fn lookup_fn(self, receiver: Option<Seq<u8>>, fn_name: Seq<u8>) -> Option<
        FnCtxtView,
    > {
        match receiver {
            Some(r) => fn_at(self.fns, self.receiver_class(r), fn_name),
            None => match self.current {
                Some(class) => fn_at(self.fns, class, fn_name),
                None => None,
            },
        }
    }

    /// The error that the table reports for `kind` at `span`. Before a
    /// session has started there is no source to report on.
    pub open spec fn error(self, kind: SemanticErrorKindView, span: Span) -> JackErrorView {
        match self.current {
            Some(_) => JackErrorView::SemanticError(SemanticErrorView { kind, span }),
            None => internal_error("current source is not set"),
        }
    }

    /// What registering the function `f` gives: an error if its class has a
    /// function of that name already, else the table with `f`.
    pub open spec fn register_fn(self, f: FnCtxtView) -> (Result<(), JackErrorView>, TableView) {
        match fn_at(self.fns, f.class, f.name) {
            Some(before) => (
                Err(
                    self.error(
                        SemanticErrorKindView::AlreadyDefinedIdent {
                            name: f.name,
                            original: before.span,
                        },
                        f.span,
                    ),
                ),
                self,
            ),
            None => (Ok(()), TableView { fns: self.fns.insert((f.class, f.name), f), ..self }),
        }
    }

    /// What registering the variable `var` gives: an error if its kind does
    /// not belong to the current scope, else the table with `var` in that
    /// scope.
    pub open spec fn register_variable(self, var: VariableCtxtView) -> (
        Result<(), JackErrorView>,
        TableView,
    ) {
        match self.fn_scope {
            None => if var.kind == VarKind::Var || var.kind == VarKind::Arg {
                (
                    Err(
                        self.error(
                            SemanticErrorKindView::InvalidSyntax(scope_message(var.kind, "class")),
                            var.span,
                        ),
                    ),
                    self,
                )
            } else {
                (Ok(()), TableView { class_scope: self.class_scope.with(var), ..self })
            },
            Some(scope) => if var.kind == VarKind::Static || var.kind == VarKind::Field {
                (
                    Err(
                        self.error(
                            SemanticErrorKindView::InvalidSyntax(
                                scope_message(var.kind, "function"),
                            ),
                            var.span,
                        ),
                    ),
                    self,
                )
            } else {
                (Ok(()), TableView { fn_scope: Some(scope.with(var)), ..self })
            },
        }
    }

    /// The table at the start of a session for `class`: no variables, no
    /// function.
    pub open spec fn sess(self, class: Seq<u8>) -> TableView {
        TableView {
            current: Some(class),
            class_scope: ScopeView::empty(),
            fn_scope: None,
            current_fn: None,
            ..self
        }
    }

    /// The table inside the function `f`: a fresh scope above that of the
    /// class.
    pub open spec fn enter(self, f: FnSigView) -> TableView {
        TableView { fn_scope: Some(ScopeView::empty()), current_fn: Some(f), ..self }
    }

    /// The table behind a function: the scope of the class alone.
    pub open spec fn leave(self) -> TableView {
        TableView { fn_scope: None, current_fn: None, ..self }
    }
}

/// A function is registered once: whoever registers a function of the same
/// class and name again is told where the first is defined, and the registry
/// stays as it was.
pub proof fn lemma_duplicate_rejected(t: TableView, f: FnCtxtView, g: FnCtxtView)
    requires
        t.current is Some,
        g.class == f.class,
        g.name == f.name,
        t.register_fn(f).0 is Ok,
    ensures
        t.register_fn(f).1.register_fn(g).0 == Err::<(), JackErrorView>(
            JackErrorView::SemanticError(
                SemanticErrorView {
                    kind: SemanticErrorKindView::AlreadyDefinedIdent {
                        name: g.name,
                        original: f.span,
                    },
                    span: g.span,
                },
            ),
        ),
        t.register_fn(f).1.register_fn(g).1 == t.register_fn(f).1,
{
}

/// Whatever the first registration gave, the second of the same class and
/// name is an error.
pub proof fn lemma_second_registration_fails(t: TableView, f: FnCtxtView, g: FnCtxtView)
    requires
        g.class == f.class,
        g.name == f.name,
    ensures
        t.register_fn(f).1.register_fn(g).0 is Err,
{
}

/// The scope after the first `n` of the variables `vars` were registered, in
/// their order.
pub open spec fn scope_of(vars: Seq<VariableCtxtView>, n: nat) -> ScopeView
    decreases n,
{
    if n == 0 || n > vars.len() {
        ScopeView::empty()
    } else {
        scope_of(vars, (n - 1) as nat).with(vars[n - 1])
    }
}

/// How many of the first `n` of the variables `vars` are of the kind `kind`.
pub open spec fn kind_count(vars: Seq<VariableCtxtView>, n: nat, kind: VarKind) -> nat
    decreases n,
{
    if n == 0 || n > vars.len() {
        0
    } else if vars[n - 1].kind == kind {
        kind_count(vars, (n - 1) as nat, kind) + 1
    } else {
        kind_count(vars, (n - 1) as nat, kind)
    }
}

/// A scope counts the variables of each kind that were registered in it.
pub proof fn lemma_scope_counts(vars: Seq<VariableCtxtView>, n: nat, kind: VarKind)
    requires
        n <= vars.len(),
    ensures
        scope_of(vars, n).counts.of(kind) == kind_count(vars, n, kind),
    decreases n,
{
    if n > 0 {
        lemma_scope_counts(vars, (n - 1) as nat, kind);
        lemma_scope_counts(vars, (n - 1) as nat, vars[n - 1].kind);
    }
}

/// The register of a variable is its place among the variables of its kind,
/// in the order of their declaration: the `i`-th variable of a scope, if no
/// later one has taken its name, has as its register the number of variables
/// of its kind that were declared before it. Variables of other kinds do not
/// count.
pub proof fn lemma_register_order(vars: Seq<VariableCtxtView>, n: nat, i: nat)
    requires
        i < n <= vars.len(),
        forall|j: int| i < j < n ==> (#[trigger] vars[j]).name != vars[i as int].name,
    ensures
        scope_of(vars, n).lookup(vars[i as int].name) == Some(
            (vars[i as int], kind_count(vars, i, vars[i as int].kind)),
        ),
    decreases n,
{
    if n == i + 1 {
        lemma_scope_counts(vars, i, vars[i as int].kind);
    } else {
        lemma_register_order(vars, (n - 1) as nat, i);
        assert(vars[n - 1].name != vars[i as int].name);
    }
}

/// Whether a variable of the kind `kind` belongs to the scope that is
/// current in `t`: a static variable or a field to that of the class, a
/// local variable or an argument to that of a function.
pub open spec fn belongs(t: TableView, kind: VarKind) -> bool {
    match t.fn_scope {
        None => kind == VarKind::Static || kind == VarKind::Field,
        Some(_) => kind == VarKind::Var || kind == VarKind::Arg,
    }
}

/// Whether the scope that is current in `t` holds nothing: as at the start of
/// a session, or on entering a function.
pub open spec fn fresh_scope(t: TableView) -> bool {
    match t.fn_scope {
        Some(s) => s == ScopeView::empty(),
        None => t.class_scope == ScopeView::empty(),
    }
}

/// The table after the first `n` of the variables `vars` were registered in
/// `t`, in their order.
pub open spec fn registered(t: TableView, vars: Seq<VariableCtxtView>, n: nat) -> TableView
    decreases n,
{
    if n == 0 || n > vars.len() {
        t
    } else {
        registered(t, vars, (n - 1) as nat).register_variable(vars[n - 1]).1
    }
}

/// Registering variables that belong to a fresh scope fills that scope, and
/// changes nothing else.
pub proof fn lemma_registered(t: TableView, vars: Seq<VariableCtxtView>, n: nat)
    requires
        fresh_scope(t),
        n <= vars.len(),
        forall|j: int| 0 <= j < n ==> belongs(t, (#[trigger] vars[j]).kind),
    ensures
        registered(t, vars, n) == match t.fn_scope {
            Some(_) => TableView { fn_scope: Some(scope_of(vars, n)), ..t },
            None => TableView { class_scope: scope_of(vars, n), ..t },
        },
    decreases n,
{
    if n > 0 {
        lemma_registered(t, vars, (n - 1) as nat);
        assert(belongs(t, vars[n - 1].kind));
    }
}

/// The registers depend on the order of the declarations alone. Take a fresh
/// scope and variables with different names that belong to it, and register
/// them in their order. Then every registration succeeds; the register of
/// each variable is the number of variables of its kind that were registered
/// before it, so that each kind counts from 0; and no later registration
/// changes it.
pub proof fn lemma_registers_by_order(t: TableView, vars: Seq<VariableCtxtView>, i: nat)
    requires
        fresh_scope(t),
        i < vars.len(),
        forall|j: int| 0 <= j < vars.len() ==> belongs(t, (#[trigger] vars[j]).kind),
        forall|j: int, k: int| 0 <= j < k < vars.len() ==> vars[j].name != vars[k].name,
    ensures
        forall|j: nat|
            j < vars.len() ==> (#[trigger] registered(t, vars, j)).register_variable(
                vars[j as int],
            ).0 is Ok,
        forall|n: nat|
            i < n <= vars.len() ==> (#[trigger] registered(t, vars, n)).lookup_variable(
                vars[i as int].name,
            ) == Some((vars[i as int], kind_count(vars, i, vars[i as int].kind))),
{
    assert forall|j: nat| j < vars.len() implies (#[trigger] registered(
        t,
        vars,
        j,
    )).register_variable(vars[j as int]).0 is Ok by {
        lemma_registered(t, vars, j);
        assert(belongs(t, vars[j as int].kind));
    }
    assert forall|n: nat| i < n <= vars.len() implies (#[trigger] registered(
        t,
        vars,
        n,
    )).lookup_variable(vars[i as int].name) == Some(
        (vars[i as int], kind_count(vars, i, vars[i as int].kind)),
    ) by {
        lemma_registered(t, vars, n);
        lemma_register_order(vars, n, i);
    }
}

/// Two labels with different numbers are different texts.
pub proof fn lemma_labels_differ(a: nat, b: nat)
    requires
        a != b,
    ensures
        label_text(a) != label_text(b),
{
    let p = lit("LABEL_");
    if label_text(a) == label_text(b) {
        assert(label_text(a).subrange(p.len() as int, label_text(a).len() as int) =~= dec(a));
        assert(label_text(b).subrange(p.len() as int, label_text(b).len() as int) =~= dec(b));
        lemma_dec_injective(a, b);
    }
}

/// The key under which the registry files the function `name` of `class`:
/// the length of the class's name in eight bytes, then both names. Two
/// functions have the same key only if they are the same function.
pub open spec fn pair_key(class: Seq<u8>, name: Seq<u8>) -> Seq<u8> {
    vstd::bytes::spec_u64_to_le_bytes(class.len() as u64) + class + name
}

/// Two functions with the same key are the same function: they have the
/// same class and the same name.
pub proof fn lemma_pair_key_injective(c1: Seq<u8>, n1: Seq<u8>, c2: Seq<u8>, n2: Seq<u8>)
    requires
        c1.len() <= u64::MAX,
        c2.len() <= u64::MAX,
        pair_key(c1, n1) == pair_key(c2, n2),
    ensures
        c1 == c2,
        n1 == n2,
{
    vstd::bytes::lemma_auto_spec_u64_to_from_le_bytes();
    let k1 = pair_key(c1, n1);
    let k2 = pair_key(c2, n2);
    let l1 = vstd::bytes::spec_u64_to_le_bytes(c1.len() as u64);
    let l2 = vstd::bytes::spec_u64_to_le_bytes(c2.len() as u64);
    assert(l1.len() == 8 && l2.len() == 8);
    assert(k1.subrange(0, 8) =~= l1);
    assert(k2.subrange(0, 8) =~= l2);
    assert(c1.len() == c2.len());
    assert(k1.subrange(8, (8 + c1.len()) as int) =~= c1);
    assert(k2.subrange(8, (8 + c2.len()) as int) =~= c2);
    assert(k1.subrange((8 + c1.len()) as int, k1.len() as int) =~= n1);
    assert(k2.subrange((8 + c2.len()) as int, k2.len() as int) =~= n2);
}

/// The symbol table: the registry of functions, the scopes of variables, the
/// class and the function that are being compiled, and the counter of labels.
pub struct SymbolTable {
    fn_index: NameIndex,
    functions: Vec<FnCtxt>,
    class_scope: ScopedContext,
    fn_scope: Option<ScopedContext>,
    current: Option<Ident>,
    current_fn: Option<FnSig>,
    label_counter: usize,
}

impl View for SymbolTable {
    type V = TableView;

    closed spec fn view(&self) -> TableView {
        TableView {
            fns: Map::new(
                |k: FnKey|
                    k.0.len() <= u64::MAX && index_entries(self.fn_index).dom().contains(
                        pair_key(k.0, k.1),
                    ),
                |k: FnKey| self.functions@[index_entries(self.fn_index)[pair_key(k.0, k.1)] as int]@,
            ),
            class_scope: self.class_scope@,
            fn_scope: match self.fn_scope {
                Some(s) => Some(s@),
                None => None,
            },
            current: match self.current {
                Some(c) => Some(c@),
                None => None,
            },
            current_fn: match self.current_fn {
                Some(f) => Some(f@),
                None => None,
            },
        }
    }
}

impl SymbolTable {
    /// How many labels have been handed out.
    pub closed spec fn label_count(&self) -> nat {
        self.label_counter as nat
    }

    /// The table is in order: its scopes are, and every function that is filed
    /// is held.
    pub closed spec fn wf(&self) -> bool {
        &&& self.class_scope.wf()
        &&& self.fn_scope matches Some(s) ==> s.wf()
        &&& forall|k: Seq<u8>| #[trigger]
            index_entries(self.fn_index).dom().contains(k) ==> index_entries(self.fn_index)[k]
                < self.functions@.len()
    }

    /// The table without functions and without a session.
    pub open spec fn empty_view() -> TableView {
        TableView {
            fns: Map::empty(),
            class_scope: ScopeView::empty(),
            fn_scope: None,
            current: None,
            current_fn: None,
        }
    }

    /// A table without functions and without a session.
    pub fn empty() -> (t: SymbolTable)
        ensures
            t.wf(),
            t@ == SymbolTable::empty_view(),
            t.label_count() == 0,
    {
        let t = SymbolTable {
            fn_index: index_new(),
            functions: Vec::new(),
            class_scope: ScopedContext::new(),
            fn_scope: None,
            current: None,
            current_fn: None,
            label_counter: 0,
        };
        assert(t@.fns =~= Map::<FnKey, FnCtxtView>::empty());
        t
    }

    /// Starts the session for the class called `class`: the variables of
    /// the session before are forgotten.
    pub fn sess(&mut self, class: Ident)
        requires
            old(self).wf(),
        ensures
            final(self).wf(),
            final(self)@ == old(self)@.sess(class@),
            final(self).label_count() == old(self).label_count(),
    {
        self.current = Some(class);
        self.class_scope = ScopedContext::new();
        self.fn_scope = None;
        self.current_fn = None;
    }

    /// The name of the class that is being compiled.
    pub fn current_class(&self) -> (r: Result<&Ident, JackError>)
        ensures
            match r {
                Ok(class) => self@.current == Some(class@),
                Err(e) => self@.current.is_none() && e@ == internal_error(
                    "SymbolTable: current class is not set",
                ),
            },
    {
        match &self.current {
            Some(class) => Ok(class),
            None => Err(
                JackError::InternalCompilerError(lit_vec("SymbolTable: current class is not set")),
            ),
        }
    }

    /// The function that is being compiled.
    pub fn current_fn(&self) -> (r: Option<&FnSig>)
        ensures
            match r {
                Some(f) => self@.current_fn == Some(f@),
                None => self@.current_fn.is_none(),
            },
    {
        match &self.current_fn {
            Some(f) => Some(f),
            None => None,
        }
    }

    /// Starts the scope of the function `f`: its variables go to a fresh
    /// scope above that of the class, until `leave_fn` ends it.
    pub fn scoped(&mut self, f: &FnDef)
        requires
            old(self).wf(),
        ensures
            final(self).wf(),
            final(self)@ == old(self)@.enter(
                FnSigView { name: f.name@, kind: f.kind, ret: f.ret@ },
            ),
            final(self).label_count() == old(self).label_count(),
    {
        self.fn_scope = Some(ScopedContext::new());
        self.current_fn = Some(
            FnSig { name: copy_ident(&f.name), kind: f.kind, ret: f.ret.duplicate() },
        );
    }

    /// Leaves the function: its variables are forgotten.
    pub fn leave_fn(&mut self)
        requires
            old(self).wf(),
        ensures
            final(self).wf(),
            final(self)@ == old(self)@.leave(),
            final(self).label_count() == old(self).label_count(),
    {
        self.fn_scope = None;
        self.current_fn = None;
    }

    /// The variable called `name` and its register: that of the function if
    /// there is one, else that of the class.
    pub fn lookup_variable(&self, name: &[u8]) -> (r: Option<&(VariableCtxt, usize)>)
        requires
            self.wf(),
        ensures
            match r {
                Some(e) => self@.lookup_variable(name@) == Some((e.0@, e.1 as nat)),
                None => self@.lookup_variable(name@).is_none(),
            },
    {
        match &self.fn_scope {
            Some(scope) => match scope.lookup_ident(name) {
                Some(e) => Some(e),
                None => self.class_scope.lookup_ident(name),
            },
            None => self.class_scope.lookup_ident(name),
        }
    }

    /// The function filed under `class` and `name`.
    pub fn find_fn(&self, class: &[u8], name: &[u8]) -> (r: Option<&FnCtxt>)
        requires
            self.wf(),
        ensures
            match r {
                Some(f) => fn_at(self@.fns, class@, name@) == Some(f@),
                None => fn_at(self@.fns, class@, name@).is_none(),
            },
    {
        let key = SymbolTable::key(class, name);
        match index_get(&self.fn_index, key.as_slice()) {
            Some(i) => Some(&self.functions[i]),
            None => None,
        }
    }

    /// The key of the function `name` of `class`.
    fn key(class: &[u8], name: &[u8]) -> (k: Vec<u8>)
        ensures
            k@ == pair_key(class@, name@),
            class@.len() <= u64::MAX,
    {
        let mut k = vstd::bytes::u64_to_le_bytes(class.len() as u64);
        push_all(&mut k, class);
        push_all(&mut k, name);
        k
    }

    /// The function that a call of `fn_name` resolves to.
    pub fn lookup_fn(&self, receiver: Option<&[u8]>, fn_name: &[u8]) -> (r: Option<&FnCtxt>)
        requires
            self.wf(),
        ensures
            match r {
                Some(f) => self@.lookup_fn(slice_opt_view(receiver), fn_name@) == Some(f@),
                None => self@.lookup_fn(slice_opt_view(receiver), fn_name@).is_none(),
            },
    {
        match receiver {
            Some(receiver) => {
                match self.lookup_variable(receiver) {
                    Some(e) => match &e.0.ty {
                        Type::Class(name) => self.find_fn(name.as_slice(), fn_name),
                        _ => self.find_fn(receiver, fn_name),
                    },
                    None => self.find_fn(receiver, fn_name),
                }
            },
            None => match &self.current {
                Some(class) => self.find_fn(class.as_slice(), fn_name),
                None => None,
            },
        }
    }

    /// Files a function without looking for one of the same name: it takes
    /// the place of such a one.
    pub fn put_fn(&mut self, f: FnCtxt)
        requires
            old(self).wf(),
        ensures
            final(self).wf(),
            final(self)@ == (TableView {
                fns: old(self)@.fns.insert((f.class@, f.name@), f@),
                ..old(self)@
            }),
            final(self).label_count() == old(self).label_count(),
    {
        let key = SymbolTable::key(f.class.as_slice(), f.name.as_slice());
        let n = self.functions.len();
        let ghost fv = f@;
        self.functions.push(f);
        index_insert(&mut self.fn_index, key, n);
        proof {
            assert forall|k: FnKey| #[trigger]
                final(self)@.fns.dom().contains(k) <==> old(self)@.fns.insert(
                    (fv.class, fv.name),
                    fv,
                ).dom().contains(k) by {
                if k.0.len() <= u64::MAX && pair_key(k.0, k.1) == pair_key(fv.class, fv.name) {
                    lemma_pair_key_injective(k.0, k.1, fv.class, fv.name);
                }
            }
            assert forall|k: FnKey| #[trigger]
                final(self)@.fns.dom().contains(k) implies final(self)@.fns[k] == old(
                self,
            )@.fns.insert((fv.class, fv.name), fv)[k] by {
                if pair_key(k.0, k.1) == pair_key(fv.class, fv.name) {
                    lemma_pair_key_injective(k.0, k.1, fv.class, fv.name);
                }
            }
            assert(final(self)@.fns =~= old(self)@.fns.insert((fv.class, fv.name), fv));
        }
    }

    /// The error that the table reports for `kind` at `span`.
    pub fn error(&self, kind: SemanticErrorKind, span: Span) -> (e: JackError)
        ensures
            e@ == self@.error(kind@, span),
    {
        match &self.current {
            Some(_) => JackError::SemanticError(SemanticError { kind, span }),
            None => JackError::InternalCompilerError(lit_vec("current source is not set")),
        }
    }

    /// Registers the function `name` of `class`. A class has one function of
    /// each name: a second one is an error, which names the place of the
    /// first.
    pub fn register_fn(&mut self, class: Ident, name: Ident, ty: Type, span: Span) -> (r: Result<
        (),
        JackError,
    >)
        requires
            old(self).wf(),
        ensures
            final(self).wf(),
            error_view(r) == old(self)@.register_fn(
                FnCtxtView { class: class@, name: name@, ty: ty@, span },
            ).0,
            final(self)@ == old(self)@.register_fn(
                FnCtxtView { class: class@, name: name@, ty: ty@, span },
            ).1,
            final(self).label_count() == old(self).label_count(),
    {
        match self.find_fn(class.as_slice(), name.as_slice()) {
            Some(before) => {
                let original = before.span;
                Err(self.error(SemanticErrorKind::AlreadyDefinedIdent { name, original }, span))
            },
            None => {
                self.put_fn(FnCtxt { class, name, ty, span });
                Ok(())
            },
        }
    }

    /// Registers a variable in the current scope and gives it the next
    /// register of its kind. The scope of a class takes `static` and `field`
    /// variables, that of a function `var` variables and arguments.
    pub fn register_variable(&mut self, var: VariableCtxt) -> (r: Result<(), JackError>)
        requires
            old(self).wf(),
        ensures
            final(self).wf(),
            error_view(r) == old(self)@.register_variable(var@).0,
            final(self)@ == old(self)@.register_variable(var@).1,
            final(self).label_count() == old(self).label_count(),
    {
        let kind = var.kind;
        let in_fn = self.fn_scope.is_some();
        let misplaced = match kind {
            VarKind::Var => !in_fn,
            VarKind::Arg => !in_fn,
            VarKind::Static => in_fn,
            VarKind::Field => in_fn,
        };
        if misplaced {
            let mut msg = lit_vec("cannot use ");
            push_lit(&mut msg, kind.name());
            push_lit(&mut msg, " to define ");
            if in_fn {
                push_lit(&mut msg, "function");
            } else {
                push_lit(&mut msg, "class");
            }
            push_lit(&mut msg, "-scoped variables");
            return Err(self.error(SemanticErrorKind::InvalidSyntax(msg), var.span));
        }
        if in_fn {
            let mut scope = match self.fn_scope.take() {
                Some(scope) => scope,
                None => ScopedContext::new(),
            };
            let _ = scope.add(var);
            self.fn_scope = Some(scope);
        } else {
            let _ = self.class_scope.add(var);
        }
        Ok(())
    }

    /// A label that was not handed out before: `LABEL_1`, `LABEL_2` and so
    /// on. `None` when the counter of labels is exhausted.
    pub fn label(&mut self) -> (r: Option<Vec<u8>>)
        requires
            old(self).wf(),
        ensures
            final(self).wf(),
            final(self)@ == old(self)@,
            match r {
                Some(l) => old(self).label_count() < usize::MAX && l@ == label_text(
                    old(self).label_count() + 1,
                ) && final(self).label_count() == old(self).label_count() + 1,
                None => old(self).label_count() == usize::MAX && final(self).label_count()
                    == old(self).label_count(),
            },
    {
        if self.label_counter == usize::MAX {
            return None;
        }
        self.label_counter = self.label_counter + 1;
        let mut l = lit_vec("LABEL_");
        push_dec(&mut l, self.label_counter as u64);
        Some(l)
    }

    /// How many variables of `kind` the current scope holds.
    pub fn count(&self, kind: VarKind) -> (n: usize)
        requires
            self.wf(),
        ensures
            n == match self@.fn_scope {
                Some(s) => s.counts.of(kind),
                None => self@.class_scope.counts.of(kind),
            },
    {
        match &self.fn_scope {
            Some(scope) => scope.count(kind),
            None => self.class_scope.count(kind),
        }
    }

    /// How many labels have been handed out.
    pub fn labels(&self) -> (n: usize)
        ensures
            n == self.label_count(),
    {
        self.label_counter
    }
}

/// The bytes of a name that may be missing.
pub open spec fn opt_view(s: Option<Vec<u8>>) -> Option<Seq<u8>> {
    match s {
        Some(s) => Some(s@),
        None => None,
    }
}

/// The bytes of a name that may be missing.
pub open spec fn slice_opt_view(s: Option<&[u8]>) -> Option<Seq<u8>> {
    match s {
        Some(s) => Some(s@),
        None => None,
    }
}

/// The result `r` as contracts see it.
pub open spec fn error_view(r: Result<(), JackError>) -> Result<(), JackErrorView> {
    match r {
        Ok(_) => Ok(()),
        Err(e) => Err(e@),
    }
}

} // verus!
