//! Lowering of functions and classes.
use vstd::prelude::*;

use crate::ast::{copy_ident, Class, FnDef, FnKind, Parameter, Type, VariableDef, VariableDefKind};
use crate::jack::compiler::Codegen;
use crate::jack::emit::{
    count_fields, declare_class, declare_fn, declare_params, declare_this, declare_vars, def_ctxt,
    emit_class, emit_fn, emit_fn_head, emit_fns, file_class, file_fns, param_ctxt, sig_of,
};
use crate::jack::error::JackError;
use crate::jack::symbol::{error_view, SymbolTable, TableView, VariableCtxt};
use crate::text::{push_all, push_dec, push_lit};
use crate::vm::segment::Segment;

verus! {

/// Counts the fields among the first `n` variables of a class.
pub fn fields(vars: &Vec<VariableDef>) -> (r: usize)
    ensures
        r == count_fields(vars@, vars@.len()),
{
    let mut i: usize = 0;
    let mut count: usize = 0;
    while i < vars.len()
        invariant
            i <= vars@.len(),
            count <= i,
            count == count_fields(vars@, i as nat),
        decreases vars@.len() - i,
    {
        match vars[i].kind {
            VariableDefKind::Field => {
                count = count + 1;
            },
            _ => {},
        }
        i = i + 1;
    }
    count
}

/// Registers the variables of `defs` from the `i`-th on.
pub fn register_vars(defs: &Vec<VariableDef>, i: usize, table: &mut SymbolTable) -> (r: Result<
    (),
    JackError,
>)
    requires
        old(table).wf(),
    ensures
        final(table).wf(),
        final(table).label_count() == old(table).label_count(),
        final(table)@ == declare_vars(defs@, i as nat, old(table)@).env,
        error_view(r) == declare_vars(defs@, i as nat, old(table)@).res,
    decreases defs@.len() - i,
{
    if i >= defs.len() {
        return Ok(());
    }
    match table.register_variable(VariableCtxt::from_def(&defs[i])) {
        Ok(_) => {},
        Err(e) => {
            return Err(e);
        },
    }
    register_vars(defs, i + 1, table)
}

/// Registers the parameters from the `i`-th on as arguments.
pub fn register_params(params: &Vec<Parameter>, i: usize, table: &mut SymbolTable) -> (r: Result<
    (),
    JackError,
>)
    requires
        old(table).wf(),
    ensures
        final(table).wf(),
        final(table).label_count() == old(table).label_count(),
        final(table)@ == declare_params(params@, i as nat, old(table)@).env,
        error_view(r) == declare_params(params@, i as nat, old(table)@).res,
    decreases params@.len() - i,
{
    if i >= params.len() {
        return Ok(());
    }
    match table.register_variable(VariableCtxt::from_param(&params[i])) {
        Ok(_) => {},
        Err(e) => {
            return Err(e);
        },
    }
    register_params(params, i + 1, table)
}

/// Enters the function `def` of `class` and registers its receiver, its
/// parameters and its local variables.
pub fn enter_function(class: &Class, def: &FnDef, table: &mut SymbolTable) -> (r: Result<
    (),
    JackError,
>)
    requires
        old(table).wf(),
    ensures
        final(table).wf(),
        final(table).label_count() == old(table).label_count(),
        final(table)@ == declare_fn(*class, *def, old(table)@).env,
        error_view(r) == declare_fn(*class, *def, old(table)@).res,
{
    table.scoped(def);
    match def.kind {
        FnKind::Method => {
            let this = VariableCtxt::this(Type::Class(copy_ident(&class.name)), def.span);
            match table.register_variable(this) {
                Ok(_) => {},
                Err(e) => {
                    return Err(e);
                },
            }
        },
        _ => {},
    }
    match register_params(&def.params, 0, table) {
        Ok(_) => {},
        Err(e) => {
            return Err(e);
        },
    }
    register_vars(&def.body.variables, 0, table)
}

/// Files the functions of `class` from the `i`-th on in the registry.
pub fn register_fns(class: &Class, i: usize, table: &mut SymbolTable) -> (r: Result<(), JackError>)
    requires
        old(table).wf(),
    ensures
        final(table).wf(),
        final(table).label_count() == old(table).label_count(),
        final(table)@ == file_fns(*class, i as nat, old(table)@).env,
        error_view(r) == file_fns(*class, i as nat, old(table)@).res,
    decreases class.functions@.len() - i,
{
    if i >= class.functions.len() {
        return Ok(());
    }
    let f = &class.functions[i];
    match table.register_fn(copy_ident(&class.name), copy_ident(&f.name), f.ret.duplicate(), f.span) {
        Ok(_) => {},
        Err(e) => {
            return Err(e);
        },
    }
    register_fns(class, i + 1, table)
}

/// Files the functions of `class` in the registry. All classes are filed
/// before the first is lowered, so that calls across classes resolve.
pub fn register_class(class: &Class, table: &mut SymbolTable) -> (r: Result<(), JackError>)
    requires
        old(table).wf(),
    ensures
        final(table).wf(),
        final(table).label_count() == old(table).label_count(),
        final(table)@ == file_class(*class, old(table)@).env,
        error_view(r) == file_class(*class, old(table)@).res,
{
    table.sess(copy_ident(&class.name));
    register_fns(class, 0, table)
}

impl Codegen {
    /// Writes the head of a function.
    pub fn fn_def(&mut self, class: &Class, def: &FnDef)
        ensures
            forall|n: nat| #[trigger]
                final(self).state(n) == emit_fn_head(*class, *def, old(self).state(n)),
    {
        push_lit(&mut self.out, "function ");
        push_all(&mut self.out, class.name.as_slice());
        push_lit(&mut self.out, ".");
        push_all(&mut self.out, def.name.as_slice());
        push_lit(&mut self.out, " ");
        push_dec(&mut self.out, def.body.variables.len() as u64);
        push_lit(&mut self.out, "\n");
        match def.kind {
            FnKind::Ctor => {
                self.push(Segment::Constant, fields(&class.variables) as u64);
                self.write_lit("call Memory.alloc 1");
                self.pop(Segment::Pointer, 0);
            },
            FnKind::Method => {
                self.push(Segment::Argument, 0);
                self.pop(Segment::Pointer, 0);
            },
            FnKind::Function => {},
        }
    }

    /// Lowers one function of `class`. The table is left as it was found.
    pub fn function(&mut self, class: &Class, def: &FnDef, table: &mut SymbolTable) -> (r: Result<
        (),
        JackError,
    >)
        requires
            old(table).wf(),
            old(table)@.fn_scope.is_none(),
            old(table)@.current_fn.is_none(),
        ensures
            final(table).wf(),
            final(table)@ == old(table)@,
            final(self).state(final(table).label_count()) == emit_fn(
                *class,
                *def,
                old(table)@,
                old(self).state(old(table).label_count()),
            ).st,
            error_view(r) == emit_fn(
                *class,
                *def,
                old(table)@,
                old(self).state(old(table).label_count()),
            ).res,
    {
        self.fn_def(class, def);
        let r = match enter_function(class, def, table) {
            Ok(_) => self.statements(&def.body.statements, 0, table),
            Err(e) => Err(e),
        };
        table.leave_fn();
        proof {
            lemma_leave(*class, *def, old(table)@);
        }
        r
    }

    /// Lowers the functions of `class` from the `i`-th on.
    pub fn functions(&mut self, class: &Class, i: usize, table: &mut SymbolTable) -> (r: Result<
        (),
        JackError,
    >)
        requires
            old(table).wf(),
            old(table)@.fn_scope.is_none(),
            old(table)@.current_fn.is_none(),
        ensures
            final(table).wf(),
            final(table)@ == old(table)@,
            final(self).state(final(table).label_count()) == emit_fns(
                *class,
                i as nat,
                old(table)@,
                old(self).state(old(table).label_count()),
            ).st,
            error_view(r) == emit_fns(
                *class,
                i as nat,
                old(table)@,
                old(self).state(old(table).label_count()),
            ).res,
        decreases class.functions@.len() - i,
    {
        if i >= class.functions.len() {
            return Ok(());
        }
        match self.function(class, &class.functions[i], table) {
            Ok(_) => {},
            Err(e) => {
                return Err(e);
            },
        }
        self.functions(class, i + 1, table)
    }

    /// Lowers a class: a session is started for it, its variables are
    /// registered, and its functions are lowered one after the other. The
    /// first error ends the class.
    pub fn class(&mut self, class: &Class, table: &mut SymbolTable) -> (r: Result<(), JackError>)
        requires
            old(table).wf(),
        ensures
            final(table).wf(),
            final(table)@ == declare_class(*class, old(table)@).env,
            final(self).state(final(table).label_count()) == emit_class(
                *class,
                old(table)@,
                old(self).state(old(table).label_count()),
            ).st,
            error_view(r) == emit_class(
                *class,
                old(table)@,
                old(self).state(old(table).label_count()),
            ).res,
    {
        table.sess(copy_ident(&class.name));
        match register_vars(&class.variables, 0, table) {
            Ok(_) => {},
            Err(e) => {
                return Err(e);
            },
        }
        proof {
            lemma_class_scope(class.variables@, 0, old(table)@.sess(class.name@));
        }
        self.functions(class, 0, table)
    }
}

/// Registering the variables of a class leaves the table outside of any
/// function.
pub proof fn lemma_class_scope(
    defs: Seq<VariableDef>,
    i: nat,
    env: TableView,
)
    requires
        env.fn_scope.is_none(),
        env.current_fn.is_none(),
    ensures
        declare_vars(defs, i, env).env.fn_scope.is_none(),
        declare_vars(defs, i, env).env.current_fn.is_none(),
    decreases defs.len() - i,
{
    if i < defs.len() {
        let r = env.register_variable(def_ctxt(defs[i as int]));
        if r.0 is Ok {
            lemma_class_scope(defs, i + 1, r.1);
        }
    }
}

/// What a function declares touches the scope of the function only: behind
/// the function the table is what it was before.
pub proof fn lemma_leave(class: Class, def: FnDef, env: TableView)
    requires
        env.fn_scope.is_none(),
        env.current_fn.is_none(),
    ensures
        declare_fn(class, def, env).env.leave() == env,
{
    let e0 = env.enter(sig_of(def));
    let t = declare_this(class, def, e0);
    if t.res is Ok {
        let p = declare_params(def.params@, 0, t.env);
        lemma_params_inner(def.params@, 0, t.env, env);
        if p.res is Ok {
            lemma_vars_inner(def.body.variables@, 0, p.env, env);
        }
    }
}

/// Whether `inner` is the table `outer` inside some function.
pub open spec fn inside(inner: TableView, outer: TableView) -> bool {
    inner.fn_scope.is_some() && inner.leave() == outer
}

/// Registering parameters stays inside the function: the table outside of it
/// is not touched.
pub proof fn lemma_params_inner(
    params: Seq<Parameter>,
    i: nat,
    inner: TableView,
    outer: TableView,
)
    requires
        inside(inner, outer),
    ensures
        inside(declare_params(params, i, inner).env, outer),
    decreases params.len() - i,
{
    if i < params.len() {
        let r = inner.register_variable(param_ctxt(params[i as int]));
        if r.0 is Ok {
            lemma_params_inner(params, i + 1, r.1, outer);
        }
    }
}

/// Registering variables inside a function stays inside the function: the
/// table outside of it is not touched.
pub proof fn lemma_vars_inner(
    defs: Seq<VariableDef>,
    i: nat,
    inner: TableView,
    outer: TableView,
)
    requires
        inside(inner, outer),
    ensures
        inside(declare_vars(defs, i, inner).env, outer),
    decreases defs.len() - i,
{
    if i < defs.len() {
        let r = inner.register_variable(def_ctxt(defs[i as int]));
        if r.0 is Ok {
            lemma_vars_inner(defs, i + 1, r.1, outer);
        }
    }
}

} // verus!
