//! The check for variables that nothing uses.
//!
//! Every variable of a class and every parameter and local variable of a
//! function is noted when it is declared, and ticked when a statement reads
//! it, calls a method on it or passes it to a function. To assign to a
//! variable is not to use it; to index with it is. Behind each function
//! its notes are merged into those of the classes. What is not ticked in the
//! end is reported, in the order in which the names were first declared, each
//! with the number of the class that declares it.
use vstd::prelude::*;

use crate::ast::{
    copy_ident, Class, Expr, FnCall, FnDef, Parameter, Span, Stmt, StmtKind, Term, TermKind,
    Variable, VariableDef,
};
use crate::fx::{index_entries, index_get, index_insert, index_new, NameIndex};
use crate::jack::error::{
    SemanticError, SemanticErrorKind, SemanticErrorKindView, SemanticErrorView,
};
use crate::text::to_vec;

verus! {

/// What is noted of a name: whether it was used, and where it is declared:
/// in which class, counted from 0, and at which place of its source.
#[derive(Debug, Clone, Copy, PartialEq, Eq, Structural)]
pub struct Note {
    pub used: bool,
    pub unit: usize,
    pub span: Span,
}

/// A warning, and the number of the class that it is about.
pub type Finding = (usize, SemanticError);

/// The elements of `v` as contracts see them.
pub open spec fn findings_view(v: Seq<Finding>) -> Seq<(nat, SemanticErrorView)> {
    Seq::new(v.len(), |i: int| (v[i].0 as nat, v[i].1@))
}

/// The notes of one scope, as contracts see them.
pub struct MarksView {
    /// The names, in the order in which they were first declared.
    pub order: Seq<Seq<u8>>,
    /// What is noted of each name.
    pub info: Map<Seq<u8>, Note>,
}

impl MarksView {
    /// No notes.
    pub open spec fn empty() -> MarksView {
        MarksView { order: Seq::empty(), info: Map::empty() }
    }

    /// Whether something is noted of `name`.
    pub open spec fn has(self, name: Seq<u8>) -> bool {
        self.info.dom().contains(name)
    }

    /// The notes after `name` was noted with `note`: a name that is new comes
    /// last.
    pub open spec fn put(self, name: Seq<u8>, note: Note) -> MarksView {
        MarksView {
            order: if self.has(name) {
                self.order
            } else {
                self.order.push(name)
            },
            info: self.info.insert(name, note),
        }
    }

    /// The notes after `name` was declared at `span` in the class `unit`:
    /// it is not used yet, whatever was noted of the name before.
    pub open spec fn declare(self, name: Seq<u8>, unit: usize, span: Span) -> MarksView {
        self.put(name, Note { used: false, unit, span })
    }

    /// The notes after `name` was used: a name that is noted is ticked.
    pub open spec fn mark(self, name: Seq<u8>) -> MarksView {
        if self.has(name) {
            MarksView {
                order: self.order,
                info: self.info.insert(name, Note { used: true, ..self.info[name] }),
            }
        } else {
            self
        }
    }

    /// The notes after `name` came in from an inner scope with `note`: a
    /// name that is noted here already is used if it was used in either
    /// scope.
    pub open spec fn absorb(self, name: Seq<u8>, note: Note) -> MarksView {
        if self.has(name) {
            self.put(name, Note { used: self.info[name].used || note.used, ..note })
        } else {
            self.put(name, note)
        }
    }

    /// The notes after those of `inner` came in, from its `i`-th name on.
    pub open spec fn merge(self, inner: MarksView, i: nat) -> MarksView
        decreases inner.order.len() - i,
    {
        if i >= inner.order.len() {
            self
        } else {
            self.absorb(inner.order[i as int], inner.info[inner.order[i as int]]).merge(
                inner,
                i + 1,
            )
        }
    }

    /// The warnings for the names from the `i`-th on that were never used,
    /// behind the warnings `acc`.
    pub open spec fn unused(self, i: nat, acc: Seq<(nat, SemanticErrorView)>) -> Seq<
        (nat, SemanticErrorView),
    >
        decreases self.order.len() - i,
    {
        if i >= self.order.len() {
            acc
        } else if self.info[self.order[i as int]].used {
            self.unused(i + 1, acc)
        } else {
            self.unused(
                i + 1,
                acc.push(
                    (
                        self.info[self.order[i as int]].unit as nat,
                        SemanticErrorView {
                            kind: SemanticErrorKindView::UnusedVariable(self.order[i as int]),
                            span: self.info[self.order[i as int]].span,
                        },
                    ),
                ),
            )
        }
    }
}

/// The notes of one scope.
pub struct Marks {
    names: NameIndex,
    entries: Vec<(Vec<u8>, Note)>,
}

impl View for Marks {
    type V = MarksView;

    closed spec fn view(&self) -> MarksView {
        MarksView {
            order: Seq::new(self.entries@.len(), |i: int| self.entries@[i].0@),
            info: Map::new(
                |n: Seq<u8>| index_entries(self.names).dom().contains(n),
                |n: Seq<u8>| self.entries@[index_entries(self.names)[n] as int].1,
            ),
        }
    }
}

impl Marks {
    /// Each name that is noted has one entry, and the index knows where.
    pub closed spec fn wf(&self) -> bool {
        &&& forall|n: Seq<u8>| #[trigger]
            index_entries(self.names).dom().contains(n) ==> index_entries(self.names)[n]
                < self.entries@.len() && self.entries@[index_entries(self.names)[n] as int].0@
                == n
        &&& forall|i: int|
            0 <= i < self.entries@.len() ==> index_entries(self.names).dom().contains(
                #[trigger] self.entries@[i].0@,
            ) && index_entries(self.names)[self.entries@[i].0@] == i
    }

    /// No notes.
    pub fn new() -> (m: Marks)
        ensures
            m.wf(),
            m@ == MarksView::empty(),
    {
        let m = Marks { names: index_new(), entries: Vec::new() };
        assert(m@.order =~= Seq::<Seq<u8>>::empty());
        assert(m@.info =~= Map::<Seq<u8>, Note>::empty());
        m
    }

    /// What is noted of `name`.
    pub fn get(&self, name: &[u8]) -> (r: Option<Note>)
        requires
            self.wf(),
        ensures
            r == if self@.has(name@) {
                Some(self@.info[name@])
            } else {
                None
            },
    {
        match index_get(&self.names, name) {
            Some(i) => Some(self.entries[i].1),
            None => None,
        }
    }

    /// Notes `note` of `name`.
    pub fn put(&mut self, name: &[u8], note: Note)
        requires
            old(self).wf(),
        ensures
            final(self).wf(),
            final(self)@ == old(self)@.put(name@, note),
    {
        match index_get(&self.names, name) {
            Some(i) => {
                let key = to_vec(name);
                self.entries[i] = (key, note);
                assert(final(self)@.order =~= old(self)@.order);
                assert(final(self)@.info =~= old(self)@.info.insert(name@, note));
            },
            None => {
                let n = self.entries.len();
                self.entries.push((to_vec(name), note));
                index_insert(&mut self.names, to_vec(name), n);
                assert(final(self)@.order =~= old(self)@.order.push(name@));
                assert(final(self)@.info =~= old(self)@.info.insert(name@, note));
            },
        }
    }

    /// Notes that `name` is declared at `span` in the class `unit`.
    pub fn declare(&mut self, name: &[u8], unit: usize, span: Span)
        requires
            old(self).wf(),
        ensures
            final(self).wf(),
            final(self)@ == old(self)@.declare(name@, unit, span),
    {
        self.put(name, Note { used: false, unit, span });
    }

    /// Ticks `name`, if it is noted.
    pub fn mark(&mut self, name: &[u8])
        requires
            old(self).wf(),
        ensures
            final(self).wf(),
            final(self)@ == old(self)@.mark(name@),
    {
        match self.get(name) {
            Some(note) => {
                self.put(name, Note { used: true, unit: note.unit, span: note.span });
            },
            None => {},
        }
    }

    /// Takes in the notes of an inner scope.
    pub fn merge(&mut self, inner: &Marks)
        requires
            old(self).wf(),
            inner.wf(),
        ensures
            final(self).wf(),
            final(self)@ == old(self)@.merge(inner@, 0),
    {
        let mut i: usize = 0;
        while i < inner.entries.len()
            invariant
                self.wf(),
                inner.wf(),
                i <= inner.entries@.len(),
                inner@.order.len() == inner.entries@.len(),
                self@.merge(inner@, i as nat) == old(self)@.merge(inner@, 0),
            decreases inner.entries@.len() - i,
        {
            let name = inner.entries[i].0.as_slice();
            let note = inner.entries[i].1;
            assert(inner@.order[i as int] == name@);
            assert(inner@.info[name@] == note);
            match self.get(name) {
                Some(mine) => {
                    self.put(
                        name,
                        Note { used: mine.used || note.used, unit: note.unit, span: note.span },
                    );
                },
                None => {
                    self.put(name, note);
                },
            }
            i = i + 1;
        }
    }

    /// The warnings for the names that were never used.
    pub fn report(&self) -> (r: Vec<Finding>)
        requires
            self.wf(),
        ensures
            findings_view(r@) == self@.unused(0, Seq::empty()),
    {
        let mut out: Vec<Finding> = Vec::new();
        let mut i: usize = 0;
        assert(findings_view(out@) =~= Seq::<(nat, SemanticErrorView)>::empty());
        while i < self.entries.len()
            invariant
                self.wf(),
                i <= self.entries@.len(),
                self@.order.len() == self.entries@.len(),
                self@.unused(i as nat, findings_view(out@)) == self@.unused(0, Seq::empty()),
            decreases self.entries@.len() - i,
        {
            assert(self@.order[i as int] == self.entries@[i as int].0@);
            assert(self@.info[self.entries@[i as int].0@] == self.entries@[i as int].1);
            if !self.entries[i].1.used {
                let ghost before = findings_view(out@);
                let e = SemanticError {
                    kind: SemanticErrorKind::UnusedVariable(copy_ident(&self.entries[i].0)),
                    span: self.entries[i].1.span,
                };
                let unit = self.entries[i].1.unit;
                let ghost ev = (unit as nat, e@);
                out.push((unit, e));
                assert(findings_view(out@) =~= before.push(ev));
            }
            i = i + 1;
        }
        out
    }
}

/// The state of the check, as contracts see it.
pub struct VisitorView {
    /// The notes of the classes, and of the functions behind them.
    pub used: MarksView,
    /// The notes of the function that is being checked.
    pub current: MarksView,
}

impl VisitorView {
    /// The name `ident` is used: it is ticked wherever it is noted.
    pub open spec fn mark_used(self, ident: Seq<u8>) -> VisitorView {
        VisitorView { used: self.used.mark(ident), current: self.current.mark(ident) }
    }
}

/// The index of a variable, if it has one, is visited.
pub open spec fn visit_index(var: Variable, v: VisitorView) -> VisitorView
    decreases var, 0nat,
{
    match var.index_accessor {
        Some(e) => visit_expr(e, v),
        None => v,
    }
}

/// A term: a variable is used; the terms within are visited.
pub open spec fn visit_term(t: Term, v: VisitorView) -> VisitorView
    decreases t, 0nat,
{
    match t.kind {
        TermKind::Variable(var) => visit_index(var, v.mark_used(var.name@)),
        TermKind::Expr(e) => visit_expr(*e, v),
        TermKind::Unary { op, term } => visit_term(*term, v),
        TermKind::FnCall(f) => visit_call(f, v),
        TermKind::Const(_) => v,
    }
}

/// An expression: its terms are visited.
pub open spec fn visit_expr(e: Expr, v: VisitorView) -> VisitorView
    decreases e, 0nat,
{
    let a = visit_term(*e.lhs, v);
    match e.rhs {
        Some(b) => visit_term(b.1, a),
        None => a,
    }
}

/// The arguments of a call from the `i`-th on are visited.
pub open spec fn visit_args(args: Seq<Expr>, i: nat, v: VisitorView) -> VisitorView
    decreases args, args.len() - i,
{
    if i >= args.len() {
        v
    } else {
        visit_args(args, i + 1, visit_expr(args[i as int], v))
    }
}

/// A call: its receiver is used; its arguments are visited.
pub open spec fn visit_call(f: FnCall, v: VisitorView) -> VisitorView
    decreases f, 0nat,
{
    let a = match f.receiver {
        Some(r) => v.mark_used(r@),
        None => v,
    };
    visit_args(f.args@, 0, a)
}

/// A statement: what it reads is visited. The variable that a `let` writes
/// is not used by that; the index that it is written at is read.
pub open spec fn visit_stmt(s: Stmt, v: VisitorView) -> VisitorView
    decreases s, 0nat,
{
    match s.kind {
        StmtKind::Let { lhs, rhs } => visit_expr(rhs, visit_index(lhs, v)),
        StmtKind::If { cond, then_branch, else_branch } => {
            let a = visit_stmts(then_branch@, 0, visit_expr(cond, v));
            match else_branch {
                Some(b) => visit_stmts(b@, 0, a),
                None => a,
            }
        },
        StmtKind::While { cond, body } => visit_stmts(body@, 0, visit_expr(cond, v)),
        StmtKind::Do(f) => visit_call(f, v),
        StmtKind::Return(value) => match value {
            Some(e) => visit_expr(e, v),
            None => v,
        },
    }
}

/// The statements of a list from the `i`-th on are visited.
pub open spec fn visit_stmts(stmts: Seq<Stmt>, i: nat, v: VisitorView) -> VisitorView
    decreases stmts, stmts.len() - i,
{
    if i >= stmts.len() {
        v
    } else {
        visit_stmts(stmts, i + 1, visit_stmt(stmts[i as int], v))
    }
}

/// The parameters from the `i`-th on are declared in the class `unit`.
pub open spec fn note_params(params: Seq<Parameter>, i: nat, unit: usize, m: MarksView) -> MarksView
    decreases params.len() - i,
{
    if i >= params.len() {
        m
    } else {
        note_params(
            params,
            i + 1,
            unit,
            m.declare(params[i as int].name@, unit, params[i as int].span),
        )
    }
}

/// The variables from the `i`-th on are declared in the class `unit`.
pub open spec fn note_vars(vars: Seq<VariableDef>, i: nat, unit: usize, m: MarksView) -> MarksView
    decreases vars.len() - i,
{
    if i >= vars.len() {
        m
    } else {
        note_vars(vars, i + 1, unit, m.declare(vars[i as int].name@, unit, vars[i as int].span))
    }
}

/// A function: its parameters and variables are noted in a scope of its own,
/// its statements are visited, and the scope is merged into the notes of the
/// classes.
pub open spec fn visit_fn(f: FnDef, unit: usize, used: MarksView) -> MarksView {
    let current = note_vars(
        f.body.variables@,
        0,
        unit,
        note_params(f.params@, 0, unit, MarksView::empty()),
    );
    let v = visit_stmts(f.body.statements@, 0, VisitorView { used, current });
    v.used.merge(v.current, 0)
}

/// The functions from the `i`-th on of the class number `unit` are visited.
pub open spec fn visit_fns(fns: Seq<FnDef>, i: nat, unit: usize, used: MarksView) -> MarksView
    decreases fns.len() - i,
{
    if i >= fns.len() {
        used
    } else {
        visit_fns(fns, i + 1, unit, visit_fn(fns[i as int], unit, used))
    }
}

/// The class number `unit`: its variables are noted, its functions are
/// visited.
pub open spec fn visit_class(c: Class, unit: usize, used: MarksView) -> MarksView {
    visit_fns(c.functions@, 0, unit, note_vars(c.variables@, 0, unit, used))
}

/// The classes from the `i`-th on are visited; each has its number.
pub open spec fn visit_classes(classes: Seq<Class>, i: nat, used: MarksView) -> MarksView
    decreases classes.len() - i,
{
    if i >= classes.len() {
        used
    } else {
        visit_classes(classes, i + 1, visit_class(classes[i as int], i as usize, used))
    }
}

/// The warnings for the variables of `classes` that nothing uses.
pub open spec fn unused_variables(classes: Seq<Class>) -> Seq<(nat, SemanticErrorView)> {
    visit_classes(classes, 0, MarksView::empty()).unused(0, Seq::empty())
}

/// The check for variables that nothing uses.
pub struct UnusedVariableVisitor {
    used: Marks,
    current: Marks,
}

impl View for UnusedVariableVisitor {
    type V = VisitorView;

    closed spec fn view(&self) -> VisitorView {
        VisitorView { used: self.used@, current: self.current@ }
    }
}

impl UnusedVariableVisitor {
    /// The check is in order: its notes are.
    pub closed spec fn wf(&self) -> bool {
        self.used.wf() && self.current.wf()
    }

    /// A check that has seen nothing.
    pub fn new() -> (v: UnusedVariableVisitor)
        ensures
            v.wf(),
            v@ == (VisitorView { used: MarksView::empty(), current: MarksView::empty() }),
    {
        UnusedVariableVisitor { used: Marks::new(), current: Marks::new() }
    }

    /// Checks `classes`, and returns the warnings for the variables that
    /// nothing uses, in the order in which their names were first declared.
    pub fn check(&mut self, classes: &Vec<Class>) -> (r: Vec<Finding>)
        requires
            old(self).wf(),
        ensures
            final(self).wf(),
            findings_view(r@) == visit_classes(
                classes@,
                0,
                old(self)@.used,
            ).unused(0, Seq::empty()),
    {
        self.walk(classes);
        self.emit()
    }

    /// Visits `classes`, one after the other.
    pub fn walk(&mut self, classes: &Vec<Class>)
        requires
            old(self).wf(),
        ensures
            final(self).wf(),
            final(self)@.used == visit_classes(classes@, 0, old(self)@.used),
    {
        let mut i: usize = 0;
        while i < classes.len()
            invariant
                self.wf(),
                i <= classes@.len(),
                visit_classes(classes@, i as nat, self@.used) == visit_classes(
                    classes@,
                    0,
                    old(self)@.used,
                ),
            decreases classes@.len() - i,
        {
            self.check_class(&classes[i], i);
            i = i + 1;
        }
    }

    /// The warnings for what was never used.
    pub fn emit(&self) -> (r: Vec<Finding>)
        requires
            self.wf(),
        ensures
            findings_view(r@) == self@.used.unused(0, Seq::empty()),
    {
        self.used.report()
    }

    /// Visits the class number `unit`.
    pub fn check_class(&mut self, class: &Class, unit: usize)
        requires
            old(self).wf(),
        ensures
            final(self).wf(),
            final(self)@.used == visit_class(*class, unit, old(self)@.used),
    {
        let mut i: usize = 0;
        while i < class.variables.len()
            invariant
                self.wf(),
                i <= class.variables@.len(),
                note_vars(class.variables@, i as nat, unit, self@.used) == note_vars(
                    class.variables@,
                    0,
                    unit,
                    old(self)@.used,
                ),
            decreases class.variables@.len() - i,
        {
            self.used.declare(class.variables[i].name.as_slice(), unit, class.variables[i].span);
            i = i + 1;
        }
        let mut k: usize = 0;
        let ghost noted = self@.used;
        while k < class.functions.len()
            invariant
                self.wf(),
                k <= class.functions@.len(),
                visit_fns(class.functions@, k as nat, unit, self@.used) == visit_fns(
                    class.functions@,
                    0,
                    unit,
                    noted,
                ),
            decreases class.functions@.len() - k,
        {
            self.check_fn(&class.functions[k], unit);
            k = k + 1;
        }
    }

    /// Visits a function of the class number `unit`.
    pub fn check_fn(&mut self, f: &FnDef, unit: usize)
        requires
            old(self).wf(),
        ensures
            final(self).wf(),
            final(self)@.used == visit_fn(*f, unit, old(self)@.used),
    {
        self.current = Marks::new();
        let mut i: usize = 0;
        while i < f.params.len()
            invariant
                self.wf(),
                self@.used == old(self)@.used,
                i <= f.params@.len(),
                note_params(f.params@, i as nat, unit, self@.current) == note_params(
                    f.params@,
                    0,
                    unit,
                    MarksView::empty(),
                ),
            decreases f.params@.len() - i,
        {
            self.current.declare(f.params[i].name.as_slice(), unit, f.params[i].span);
            i = i + 1;
        }
        let ghost params = self@.current;
        let mut k: usize = 0;
        while k < f.body.variables.len()
            invariant
                self.wf(),
                self@.used == old(self)@.used,
                k <= f.body.variables@.len(),
                note_vars(f.body.variables@, k as nat, unit, self@.current) == note_vars(
                    f.body.variables@,
                    0,
                    unit,
                    params,
                ),
            decreases f.body.variables@.len() - k,
        {
            self.current.declare(
                f.body.variables[k].name.as_slice(),
                unit,
                f.body.variables[k].span,
            );
            k = k + 1;
        }
        self.check_stmts(&f.body.statements, 0);
        self.used.merge(&self.current);
    }

    /// Visits the statements of a list from the `i`-th on.
    pub fn check_stmts(&mut self, stmts: &Vec<Stmt>, i: usize)
        requires
            old(self).wf(),
        ensures
            final(self).wf(),
            final(self)@ == visit_stmts(stmts@, i as nat, old(self)@),
        decreases stmts@, stmts@.len() - i,
    {
        if i >= stmts.len() {
            return ;
        }
        self.check_stmt(&stmts[i]);
        self.check_stmts(stmts, i + 1);
    }

    /// Visits a statement.
    pub fn check_stmt(&mut self, stmt: &Stmt)
        requires
            old(self).wf(),
        ensures
            final(self).wf(),
            final(self)@ == visit_stmt(*stmt, old(self)@),
        decreases stmt, 0nat,
    {
        match &stmt.kind {
            StmtKind::Let { lhs, rhs } => {
                self.check_index(lhs);
                self.check_expr(rhs);
            },
            StmtKind::If { cond, then_branch, else_branch } => {
                self.check_expr(cond);
                self.check_stmts(then_branch, 0);
                match else_branch {
                    Some(b) => {
                        self.check_stmts(b, 0);
                    },
                    None => {},
                }
            },
            StmtKind::While { cond, body } => {
                self.check_expr(cond);
                self.check_stmts(body, 0);
            },
            StmtKind::Do(f) => {
                self.check_fncall(f);
            },
            StmtKind::Return(value) => {
                match value {
                    Some(e) => {
                        self.check_expr(e);
                    },
                    None => {},
                }
            },
        }
    }

    /// Visits an expression.
    pub fn check_expr(&mut self, expr: &Expr)
        requires
            old(self).wf(),
        ensures
            final(self).wf(),
            final(self)@ == visit_expr(*expr, old(self)@),
        decreases expr, 0nat,
    {
        self.check_term(&expr.lhs);
        match &expr.rhs {
            Some(b) => {
                self.check_term(&b.1);
            },
            None => {},
        }
    }

    /// Visits a term.
    pub fn check_term(&mut self, term: &Term)
        requires
            old(self).wf(),
        ensures
            final(self).wf(),
            final(self)@ == visit_term(*term, old(self)@),
        decreases term, 0nat,
    {
        match &term.kind {
            TermKind::Variable(v) => {
                self.mark_used(v.name.as_slice());
                self.check_index(v);
            },
            TermKind::Expr(e) => {
                self.check_expr(e);
            },
            TermKind::Unary { op, term } => {
                self.check_term(term);
            },
            TermKind::FnCall(f) => {
                self.check_fncall(f);
            },
            TermKind::Const(_) => {},
        }
    }

    /// Visits the index of a variable, if it has one.
    pub fn check_index(&mut self, var: &Variable)
        requires
            old(self).wf(),
        ensures
            final(self).wf(),
            final(self)@ == visit_index(*var, old(self)@),
        decreases var, 0nat,
    {
        match &var.index_accessor {
            Some(e) => {
                self.check_expr(e);
            },
            None => {},
        }
    }

    /// Visits the arguments of a call from the `i`-th on.
    pub fn check_args(&mut self, args: &Vec<Expr>, i: usize)
        requires
            old(self).wf(),
        ensures
            final(self).wf(),
            final(self)@ == visit_args(args@, i as nat, old(self)@),
        decreases args@, args@.len() - i,
    {
        if i >= args.len() {
            return ;
        }
        self.check_expr(&args[i]);
        self.check_args(args, i + 1);
    }

    /// Visits a call.
    pub fn check_fncall(&mut self, call: &FnCall)
        requires
            old(self).wf(),
        ensures
            final(self).wf(),
            final(self)@ == visit_call(*call, old(self)@),
        decreases call, 0nat,
    {
        match &call.receiver {
            Some(receiver) => {
                self.mark_used(receiver.as_slice());
            },
            None => {},
        }
        self.check_args(&call.args, 0);
    }

    /// Ticks `ident` wherever it is noted.
    pub fn mark_used(&mut self, ident: &[u8])
        requires
            old(self).wf(),
        ensures
            final(self).wf(),
            final(self)@ == old(self)@.mark_used(ident@),
    {
        self.current.mark(ident);
        self.used.mark(ident);
    }
}

} // verus!
