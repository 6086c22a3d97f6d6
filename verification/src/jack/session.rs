//! One run of the compiler over the classes of a program: every class is
//! parsed, the functions of all classes are filed, and then each class is
//! lowered on its own.
use vstd::prelude::*;

use crate::ast::Class;
use crate::jack::compiler::{diags_view, Codegen};
use crate::jack::compiler::class::register_class;
use crate::jack::diagnosis::unused_variable::{
    findings_view, unused_variables, Finding, UnusedVariableVisitor,
};
use crate::jack::emit::{declare_class, emit_class, file_class, Declared, Emitted};
use crate::jack::error::{parse_failure, JackError, JackErrorView, SemanticError, SemanticErrorView};
use crate::jack::parser::{parse, parse_source};
use crate::jack::stdlib::stdlib_fns;
use crate::jack::symbol::{error_view, SymbolTable, TableView};
use crate::text::lit;

verus! {

/// What lowering one class gave: its code, the warnings, and the error that
/// ended it, if one did. The code of a class that ended with an error is
/// what was written up to the error.
#[derive(Debug, PartialEq)]
pub struct Compiled {
    pub code: Vec<u8>,
    pub warnings: Vec<SemanticError>,
    pub error: Option<JackError>,
}

/// `Compiled` as contracts see it: its text is a sequence of bytes.
pub struct CompiledView {
    pub code: Seq<u8>,
    pub warnings: Seq<SemanticErrorView>,
    pub error: Option<JackErrorView>,
}

impl View for Compiled {
    type V = CompiledView;

    open spec fn view(&self) -> CompiledView {
        CompiledView {
            code: self.code@,
            warnings: diags_view(self.warnings@),
            error: match self.error {
                Some(e) => Some(e@),
                None => None,
            },
        }
    }
}

/// The state in which a class is lowered: nothing written, no warning, and
/// `labels` labels handed out before.
pub open spec fn blank(labels: nat) -> Emitted {
    Emitted { text: Seq::empty(), warnings: Seq::empty(), labels }
}

/// What lowering `class` gives, in the table `env` and behind `labels`
/// labels.
pub open spec fn compiled(class: Class, env: TableView, labels: nat) -> CompiledView {
    let g = emit_class(class, env, blank(labels));
    CompiledView {
        code: g.st.text,
        warnings: g.st.warnings,
        error: match g.res {
            Ok(_) => None,
            Err(e) => Some(e),
        },
    }
}

/// What lowering the classes from the `i`-th on gives, behind the outcomes
/// `acc`. Each class starts a session of its own; the labels are numbered
/// through.
pub open spec fn compiled_from(
    classes: Seq<Class>,
    i: nat,
    env: TableView,
    labels: nat,
    acc: Seq<CompiledView>,
) -> Seq<CompiledView>
    decreases classes.len() - i,
{
    if i >= classes.len() {
        acc
    } else {
        compiled_from(
            classes,
            i + 1,
            declare_class(classes[i as int], env).env,
            emit_class(classes[i as int], env, blank(labels)).st.labels,
            acc.push(compiled(classes[i as int], env, labels)),
        )
    }
}

/// The functions of the classes from the `i`-th on are filed, up to the
/// first that cannot be.
pub open spec fn filed_from(classes: Seq<Class>, i: nat, env: TableView) -> Declared
    decreases classes.len() - i,
{
    if i >= classes.len() {
        Declared { res: Ok(()), env }
    } else {
        let d = file_class(classes[i as int], env);
        if d.res is Err {
            d
        } else {
            filed_from(classes, i + 1, d.env)
        }
    }
}

/// The number of the first class from the `i`-th on whose functions cannot
/// all be filed; the number of classes if there is none.
pub open spec fn first_unfiled(classes: Seq<Class>, i: nat, env: TableView) -> nat
    decreases classes.len() - i,
{
    if i >= classes.len() {
        classes.len()
    } else {
        let d = file_class(classes[i as int], env);
        if d.res is Err {
            i
        } else {
            first_unfiled(classes, i + 1, d.env)
        }
    }
}

/// What filing gave, as the session returns it: an error comes with the
/// number of its class.
pub open spec fn filing_view(r: Result<(), (usize, JackError)>) -> Result<(), (nat, JackErrorView)> {
    match r {
        Ok(_) => Ok(()),
        Err(e) => Err((e.0 as nat, e.1@)),
    }
}

/// The elements of `v` as contracts see them.
pub open spec fn units_view(v: Seq<Compiled>) -> Seq<CompiledView> {
    Seq::new(v.len(), |i: int| v[i]@)
}

/// Whether one of the classes that were lowered ended with an error.
pub open spec fn any_failed(v: Seq<Compiled>) -> bool {
    exists|k: int| 0 <= k < v.len() && (#[trigger] v[k]).error is Some
}

/// Lowers one class.
pub fn compile_class(class: &Class, table: &mut SymbolTable) -> (r: Compiled)
    requires
        old(table).wf(),
    ensures
        final(table).wf(),
        final(table)@ == declare_class(*class, old(table)@).env,
        final(table).label_count() == emit_class(
            *class,
            old(table)@,
            blank(old(table).label_count()),
        ).st.labels,
        r@ == compiled(*class, old(table)@, old(table).label_count()),
{
    let mut generator = Codegen::new();
    assert(diags_view(generator.diagnostics@) =~= Seq::<SemanticErrorView>::empty());
    let error = match generator.class(class, table) {
        Ok(_) => None,
        Err(e) => Some(e),
    };
    Compiled { code: generator.out, warnings: generator.diagnostics, error }
}

/// The classes of a program, the table that they are compiled in, and
/// whether an error has occurred.
pub struct CompilerSession {
    pub classes: Vec<Class>,
    pub table: SymbolTable,
    pub has_error: bool,
}

impl CompilerSession {
    /// A session without classes, whose table knows the standard library.
    pub fn new() -> (s: CompilerSession)
        ensures
            s.table.wf(),
            s.classes@ == Seq::<Class>::empty(),
            s.table@.fns == stdlib_fns(Map::empty()),
            s.table.label_count() == 0,
            !s.has_error,
    {
        CompilerSession { classes: Vec::new(), table: SymbolTable::new(), has_error: false }
    }

    /// Parses the source of one class and adds the class to the session.
    pub fn add_source(&mut self, source: &str) -> (r: Result<(), JackError>)
        ensures
            final(self).table == old(self).table,
            final(self).has_error == old(self).has_error,
            match r {
                Ok(_) => parse_source(lit(source)) is Ok && final(self).classes@.len()
                    == old(self).classes@.len() + 1 && final(self).classes@.last()@
                    == parse_source(lit(source))->Ok_0 && final(self).classes@.drop_last() == old(self).classes@,
                Err(e) => parse_source(lit(source)) matches Err(p) && e@
                    == parse_failure(p) && final(self).classes == old(self).classes,
            },
    {
        match parse(source) {
            Ok(class) => {
                let ghost before = self.classes@;
                self.classes.push(class);
                assert(self.classes@.drop_last() =~= before);
                Ok(())
            },
            Err(e) => Err(JackError::from_parse(e)),
        }
    }

    /// Files the functions of all classes in the registry. This comes before
    /// the classes are lowered. The first function that cannot be filed ends
    /// it: the error comes with the number of its class.
    pub fn register(&mut self) -> (r: Result<(), (usize, JackError)>)
        requires
            old(self).table.wf(),
        ensures
            final(self).table.wf(),
            final(self).classes == old(self).classes,
            final(self).table.label_count() == old(self).table.label_count(),
            final(self).table@ == filed_from(old(self).classes@, 0, old(self).table@).env,
            filing_view(r) == match filed_from(old(self).classes@, 0, old(self).table@).res {
                Ok(_) => Ok(()),
                Err(e) => Err((first_unfiled(old(self).classes@, 0, old(self).table@), e)),
            },
            final(self).has_error == (old(self).has_error || r is Err),
    {
        let mut i: usize = 0;
        while i < self.classes.len()
            invariant
                self.table.wf(),
                self.classes == old(self).classes,
                self.has_error == old(self).has_error,
                self.table.label_count() == old(self).table.label_count(),
                i <= self.classes@.len(),
                filed_from(self.classes@, i as nat, self.table@) == filed_from(
                    old(self).classes@,
                    0,
                    old(self).table@,
                ),
                first_unfiled(self.classes@, i as nat, self.table@) == first_unfiled(
                    old(self).classes@,
                    0,
                    old(self).table@,
                ),
            decreases self.classes@.len() - i,
        {
            match register_class(&self.classes[i], &mut self.table) {
                Ok(_) => {},
                Err(e) => {
                    self.has_error = true;
                    return Err((i, e));
                },
            }
            i = i + 1;
        }
        Ok(())
    }

    /// The warnings for the variables that nothing uses, each with the
    /// number of the class that declares the variable.
    pub fn lint(&self) -> (r: Vec<Finding>)
        ensures
            findings_view(r@) == unused_variables(self.classes@),
    {
        let mut visitor = UnusedVariableVisitor::new();
        visitor.check(&self.classes)
    }

    /// Lowers every class, one after the other. An error ends the class in
    /// which it occurs, and the next class is lowered all the same; the
    /// session remembers that there was an error.
    pub fn codegen(&mut self) -> (r: Vec<Compiled>)
        requires
            old(self).table.wf(),
        ensures
            final(self).table.wf(),
            final(self).classes == old(self).classes,
            units_view(r@) == compiled_from(
                old(self).classes@,
                0,
                old(self).table@,
                old(self).table.label_count(),
                Seq::empty(),
            ),
            final(self).has_error == (old(self).has_error || any_failed(r@)),
    {
        let mut out: Vec<Compiled> = Vec::new();
        let mut i: usize = 0;
        assert(units_view(out@) =~= Seq::<CompiledView>::empty());
        while i < self.classes.len()
            invariant
                self.table.wf(),
                self.classes == old(self).classes,
                self.has_error == (old(self).has_error || any_failed(out@)),
                i <= self.classes@.len(),
                compiled_from(
                    self.classes@,
                    i as nat,
                    self.table@,
                    self.table.label_count(),
                    units_view(out@),
                ) == compiled_from(
                    old(self).classes@,
                    0,
                    old(self).table@,
                    old(self).table.label_count(),
                    Seq::empty(),
                ),
            decreases self.classes@.len() - i,
        {
            let unit = compile_class(&self.classes[i], &mut self.table);
            if unit.error.is_some() {
                self.has_error = true;
            }
            let ghost before = units_view(out@);
            let ghost uv = unit@;
            let ghost failed = unit.error is Some;
            let ghost units = out@;
            out.push(unit);
            assert(units_view(out@) =~= before.push(uv));
            assert(any_failed(out@) == (any_failed(units) || failed)) by {
                if any_failed(units) {
                    let k = choose|k: int| 0 <= k < units.len() && units[k].error is Some;
                    assert(out@[k].error is Some);
                }
                if failed {
                    assert(out@[out@.len() - 1].error is Some);
                }
                if any_failed(out@) {
                    let k = choose|k: int| 0 <= k < out@.len() && out@[k].error is Some;
                    if k < units.len() {
                        assert(units[k].error is Some);
                    }
                }
            }
            i = i + 1;
        }
        out
    }
}

} // verus!
