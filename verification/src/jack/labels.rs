//! Why no label is written twice: lowering hands labels out by a counter
//! that only grows, and the text of a label tells its number.
use vstd::prelude::*;

use crate::ast::{
    Constant, Expr, FnCall, Span, Stmt, StmtKind, Term, TermKind, TypeView, Variable,
};
use crate::jack::emit::{
    check_assign, check_return, emit_args, emit_bytes, emit_call, emit_expr, emit_receiver,
    emit_stmt, emit_stmts, emit_term, emit_variable, fine, two_labels, Emitted,
};
use crate::jack::error::SemanticErrorKindView;
use crate::jack::symbol::{label_text, opt_view, TableView};
use crate::text::lit;
use crate::vm::segment::Segment;

verus! {

/// The bytes of a string take no label.
pub proof fn lemma_bytes_keep_labels(s: Seq<u8>, i: nat, st: Emitted)
    ensures
        emit_bytes(s, i, st).labels == st.labels,
    decreases s.len() - i,
{
    if i < s.len() {
        lemma_bytes_keep_labels(
            s,
            i + 1,
            st.push(Segment::Constant, s[i as int] as nat).line(
                lit("call String.appendChar 2"),
            ),
        );
    }
}

/// An expression takes no label.
pub proof fn lemma_expr_keeps_labels(e: Expr, env: TableView, st: Emitted)
    ensures
        emit_expr(e, env, st).st.labels == st.labels,
    decreases e, 0nat,
{
    lemma_term_keeps_labels(*e.lhs, env, st);
    match e.rhs {
        Some(b) => {
            lemma_term_keeps_labels(b.1, env, emit_term(*e.lhs, env, st).st);
        },
        None => {},
    }
}

/// A term takes no label.
pub proof fn lemma_term_keeps_labels(t: Term, env: TableView, st: Emitted)
    ensures
        emit_term(t, env, st).st.labels == st.labels,
    decreases t, 0nat,
{
    match t.kind {
        TermKind::Const(c) => {
            match c {
                Constant::Str(s) => {
                    lemma_bytes_keep_labels(
                        s@,
                        0,
                        st.push(Segment::Constant, s@.len()).line(
                            lit("call String.new 1"),
                        ),
                    );
                },
                _ => {},
            }
        },
        TermKind::Variable(v) => {
            lemma_variable_keeps_labels(v, env, st);
        },
        TermKind::FnCall(f) => {
            lemma_call_keeps_labels(f, t.span, env, st);
        },
        TermKind::Expr(e) => {
            lemma_expr_keeps_labels(*e, env, st);
        },
        TermKind::Unary { op, term } => {
            lemma_term_keeps_labels(*term, env, st);
        },
    }
}

/// The read of a variable takes no label.
pub proof fn lemma_variable_keeps_labels(v: Variable, env: TableView, st: Emitted)
    ensures
        emit_variable(v, env, st).st.labels == st.labels,
    decreases v, 0nat,
{
    match v.index_accessor {
        Some(offset) => {
            lemma_expr_keeps_labels(offset, env, st);
        },
        None => {},
    }
}

/// The arguments of a call take no label.
pub proof fn lemma_args_keep_labels(args: Seq<Expr>, i: nat, env: TableView, st: Emitted)
    ensures
        emit_args(args, i, env, st).st.labels == st.labels,
    decreases args, args.len() - i,
{
    if i < args.len() {
        lemma_expr_keeps_labels(args[i as int], env, st);
        lemma_args_keep_labels(args, i + 1, env, emit_expr(args[i as int], env, st).st);
    }
}

/// A call takes no label.
pub proof fn lemma_call_keeps_labels(f: FnCall, at: Span, env: TableView, st: Emitted)
    ensures
        emit_call(f, at, env, st).st.labels == st.labels,
    decreases f, 0nat,
{
    let r = emit_receiver(f, env, st);
    lemma_args_keep_labels(f.args@, 0, env, r.0.st);
}

/// The counter of labels only grows through a statement: the labels of a
/// statement are those between the counter before it and the counter behind
/// it, and no other statement has them.
pub proof fn lemma_stmt_labels_grow(stmt: Stmt, env: TableView, st: Emitted)
    ensures
        emit_stmt(stmt, env, st).st.labels >= st.labels,
    decreases stmt, 0nat,
{
    match stmt.kind {
        StmtKind::Let { lhs, rhs } => {
            match env.lookup_variable(lhs.name@) {
                Some(e) => {
                    let c = check_assign(stmt, lhs, rhs, e.0.ty, env, st);
                    lemma_expr_keeps_labels(rhs, env, c.st);
                    match lhs.index_accessor {
                        Some(offset) => {
                            lemma_expr_keeps_labels(offset, env, emit_expr(rhs, env, c.st).st);
                        },
                        None => {},
                    }
                },
                None => {},
            }
        },
        StmtKind::Do(f) => {
            match env.lookup_fn(opt_view(f.receiver), f.fn_name@) {
                Some(fc) => {
                    lemma_call_keeps_labels(f, stmt.span, env, st);
                    lemma_call_keeps_labels(
                        f,
                        stmt.span,
                        env,
                        st.warn(
                            SemanticErrorKindView::TypeMismatch {
                                expected: TypeView::Void,
                                actual: fc.ty,
                            },
                            stmt.span,
                        ),
                    );
                },
                None => {},
            }
        },
        StmtKind::Return(value) => {
            match (env.current_fn, value) {
                (Some(f), Some(v)) => {
                    let c = check_return(v, f.kind, f.ret, env, st);
                    lemma_expr_keeps_labels(v, env, c.st);
                },
                _ => {},
            }
        },
        StmtKind::If { cond, then_branch, else_branch } => {
            let l = two_labels(st);
            if l.res is Ok {
                let then_label = label_text(st.labels + 1);
                let end_label = label_text(st.labels + 2);
                lemma_expr_keeps_labels(cond, env, l.st);
                let c = emit_expr(cond, env, l.st);
                if c.res is Ok {
                    let e = match else_branch {
                        Some(b) => {
                            lemma_stmts_labels_grow(b@, 0, env, c.st.named("if-goto ", then_label));
                            emit_stmts(b@, 0, env, c.st.named("if-goto ", then_label))
                        },
                        None => fine(c.st.named("if-goto ", then_label)),
                    };
                    if e.res is Ok {
                        lemma_stmts_labels_grow(
                            then_branch@,
                            0,
                            env,
                            e.st.named("goto ", end_label).named("label ", then_label),
                        );
                    }
                }
            }
        },
        StmtKind::While { cond, body } => {
            let l = two_labels(st);
            if l.res is Ok {
                let loop_label = label_text(st.labels + 1);
                let quit_label = label_text(st.labels + 2);
                lemma_expr_keeps_labels(cond, env, l.st.named("label ", loop_label));
                let c = emit_expr(cond, env, l.st.named("label ", loop_label));
                if c.res is Ok {
                    lemma_stmts_labels_grow(
                        body@,
                        0,
                        env,
                        c.st.line(lit("not")).named("if-goto ", quit_label),
                    );
                }
            }
        },
    }
}

/// The counter of labels only grows through a list of statements.
pub proof fn lemma_stmts_labels_grow(stmts: Seq<Stmt>, i: nat, env: TableView, st: Emitted)
    ensures
        emit_stmts(stmts, i, env, st).st.labels >= st.labels,
    decreases stmts, stmts.len() - i,
{
    if i < stmts.len() {
        lemma_stmt_labels_grow(stmts[i as int], env, st);
        lemma_stmts_labels_grow(stmts, i + 1, env, emit_stmt(stmts[i as int], env, st).st);
    }
}

} // verus!
