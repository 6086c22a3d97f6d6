//! What it means for a syntax tree to lie within a source: every range in it
//! ends at or before the end of the source, the terms of an expression stand
//! in their order, every number is one that a constant can be, and no
//! variable or parameter is of the type `void`.
use vstd::prelude::*;

use crate::ast::{
    Class, Constant, Expr, FnBody, FnCall, FnDef, Parameter, Span, Stmt, StmtKind, Term, TermKind,
    Variable, VariableDef, MAX_INTEGER,
};

verus! {

/// Whether `span` ends within the first `n` bytes. A span starts where it
/// starts and is never shorter than nothing: its start is not behind its
/// end.
pub open spec fn span_within(span: Span, n: nat) -> bool {
    span.low() <= span.high() <= n
}

/// Whether the constant `c` is one that can stand in a program: a number is
/// at most `MAX_INTEGER`.
pub open spec fn constant_within(c: Constant) -> bool {
    match c {
        Constant::Integer(v) => v <= MAX_INTEGER,
        _ => true,
    }
}

/// Whether every range in the expression `e` ends within the first `n`
/// bytes, its first term does not start behind the end of its second, and
/// every number in it is at most `MAX_INTEGER`.
pub open spec fn expr_within(e: Expr, n: nat) -> bool
    decreases e,
{
    &&& term_within(*e.lhs, n)
    &&& match e.rhs {
        Some(b) => term_within(b.1, n) && e.lhs.span.low() <= b.1.span.high(),
        None => true,
    }
}

/// The range of the expression `e`: from the start of its first term to the
/// end of its last.
pub open spec fn expr_span(e: Expr) -> Span {
    match e.rhs {
        Some(b) => Span::between(e.lhs.span.low(), b.1.span.high()),
        None => e.lhs.span,
    }
}

/// The range of an expression that lies within a source can be taken, and
/// lies within the source.
pub proof fn lemma_expr_span_within(e: Expr, n: nat)
    requires
        expr_within(e, n),
        n <= usize::MAX,
    ensures
        e.lhs.span.valid(),
        e.rhs matches Some(b) ==> b.1.span.valid() && e.lhs.span.low() <= b.1.span.high(),
        span_within(expr_span(e), n),
{
}

/// Whether every range in the term `t` ends within the first `n` bytes, and
/// every number in it is at most `MAX_INTEGER`.
pub open spec fn term_within(t: Term, n: nat) -> bool
    decreases t,
{
    &&& span_within(t.span, n)
    &&& match t.kind {
        TermKind::Const(c) => constant_within(c),
        TermKind::Variable(v) => variable_within(v, n),
        TermKind::FnCall(f) => call_within(f, n),
        TermKind::Expr(e) => expr_within(*e, n),
        TermKind::Unary { op, term } => term_within(*term, n),
    }
}

/// Whether every range in the variable `v` ends within the first `n` bytes.
pub open spec fn variable_within(v: Variable, n: nat) -> bool
    decreases v,
{
    &&& span_within(v.span, n)
    &&& match v.index_accessor {
        Some(e) => expr_within(e, n),
        None => true,
    }
}

/// Whether every range in the call `f` ends within the first `n` bytes.
pub open spec fn call_within(f: FnCall, n: nat) -> bool
    decreases f,
{
    exprs_within(f.args@, n)
}

/// Whether every range in the expressions `v` ends within the first `n`
/// bytes.
pub open spec fn exprs_within(v: Seq<Expr>, n: nat) -> bool
    decreases v,
{
    forall|k: int| 0 <= k < v.len() ==> expr_within(#[trigger] v[k], n)
}

/// Whether every range in the statement `s` ends within the first `n` bytes.
pub open spec fn stmt_within(s: Stmt, n: nat) -> bool
    decreases s,
{
    &&& span_within(s.span, n)
    &&& match s.kind {
        StmtKind::Let { lhs, rhs } => variable_within(lhs, n) && expr_within(rhs, n),
        StmtKind::If { cond, then_branch, else_branch } => expr_within(cond, n) && stmts_within(
            then_branch@,
            n,
        ) && match else_branch {
            Some(b) => stmts_within(b@, n),
            None => true,
        },
        StmtKind::While { cond, body } => expr_within(cond, n) && stmts_within(body@, n),
        StmtKind::Do(f) => call_within(f, n),
        StmtKind::Return(value) => match value {
            Some(e) => expr_within(e, n),
            None => true,
        },
    }
}

/// Whether every range in the statements `v` ends within the first `n`
/// bytes.
pub open spec fn stmts_within(v: Seq<Stmt>, n: nat) -> bool
    decreases v,
{
    forall|k: int| 0 <= k < v.len() ==> stmt_within(#[trigger] v[k], n)
}

/// Whether the range of the declaration `d` ends within the first `n` bytes,
/// and its type is one that a variable can have: any but `void`.
pub open spec fn def_within(d: VariableDef, n: nat) -> bool {
    span_within(d.span, n) && !(d.ty is Void)
}

/// Whether the range of the parameter `p` ends within the first `n` bytes,
/// and its type is one that a parameter can have: any but `void`.
pub open spec fn param_within(p: Parameter, n: nat) -> bool {
    span_within(p.span, n) && !(p.ty is Void)
}

/// Whether every declaration in `v` lies within the first `n` bytes.
pub open spec fn defs_within(v: Seq<VariableDef>, n: nat) -> bool {
    forall|k: int| 0 <= k < v.len() ==> def_within(#[trigger] v[k], n)
}

/// Whether every parameter in `v` lies within the first `n` bytes.
pub open spec fn params_within(v: Seq<Parameter>, n: nat) -> bool {
    forall|k: int| 0 <= k < v.len() ==> param_within(#[trigger] v[k], n)
}

/// Whether every range in the body `b` ends within the first `n` bytes.
pub open spec fn body_within(b: FnBody, n: nat) -> bool {
    defs_within(b.variables@, n) && stmts_within(b.statements@, n)
}

/// Whether every range in the function `f` ends within the first `n` bytes.
pub open spec fn fn_within(f: FnDef, n: nat) -> bool {
    span_within(f.span, n) && params_within(f.params@, n) && body_within(f.body, n)
}

/// Whether every range in the functions `v` ends within the first `n` bytes.
pub open spec fn fns_within(v: Seq<FnDef>, n: nat) -> bool {
    forall|k: int| 0 <= k < v.len() ==> fn_within(#[trigger] v[k], n)
}

/// Whether the class `c` lies within the first `n` bytes: every range in it
/// does, the terms of every expression stand in their order, every number
/// is at most `MAX_INTEGER`, and `void` is the type of no variable and of no
/// parameter.
pub open spec fn class_within(c: Class, n: nat) -> bool {
    span_within(c.span, n) && defs_within(c.variables@, n) && fns_within(c.functions@, n)
}

} // verus!
