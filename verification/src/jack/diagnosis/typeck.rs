//! A light check of types. What it finds are warnings: the values of Jack are
//! all machine words, and the compiler accepts what it warns about.
use vstd::prelude::*;

use crate::ast::{copy_ident, Constant, Expr, Term, TermKind, Type, TypeView, Variable};
use crate::ast::render::with_expr;
use crate::jack::error::{JackError, JackErrorView};
use crate::jack::symbol::{opt_view, SymbolTable, TableView};
use crate::text::{lit, lit_vec, push_lit};

verus! {

/// The type of a constant; `null` has none. A string of one byte is a
/// `char`.
pub open spec fn constant_type(c: Constant, env: TableView) -> Option<TypeView> {
    match c {
        Constant::Integer(_) => Some(TypeView::Int),
        Constant::Str(s) => if s@.len() == 1 {
            Some(TypeView::Char)
        } else {
            Some(TypeView::Class(lit("String")))
        },
        Constant::True => Some(TypeView::Boolean),
        Constant::False => Some(TypeView::Boolean),
        Constant::This => match env.current {
            Some(class) => Some(TypeView::Class(class)),
            None => None,
        },
        Constant::Null => None,
    }
}

/// The type of a term, where one can be found: that of a constant, of a
/// variable that is declared, of a function that is known.
pub open spec fn term_type(t: Term, env: TableView) -> Option<TypeView>
    decreases t,
{
    match t.kind {
        TermKind::Const(c) => constant_type(c, env),
        TermKind::Variable(v) => match env.lookup_variable(v.name@) {
            Some(e) => Some(e.0.ty),
            None => None,
        },
        TermKind::FnCall(f) => match env.lookup_fn(opt_view(f.receiver), f.fn_name@) {
            Some(fc) => Some(fc.ty),
            None => None,
        },
        TermKind::Expr(e) => expr_type(*e, env),
        TermKind::Unary { op, term } => term_type(*term, env),
    }
}

/// The type of an expression: that of its first term, or that of its second
/// where the first has none.
pub open spec fn expr_type(e: Expr, env: TableView) -> Option<TypeView>
    decreases e,
{
    match term_type(*e.lhs, env) {
        Some(ty) => Some(ty),
        None => match e.rhs {
            Some(b) => term_type(b.1, env),
            None => None,
        },
    }
}

/// Whether a value of type `from` can be assigned to a place of type `to`
/// without a warning: anything to a `boolean`, a `boolean` or a `char` to an
/// `int`, a `String` to a `char`, and every type to itself.
pub open spec fn coerces(to: TypeView, from: TypeView) -> bool {
    ||| to is Boolean
    ||| (to is Int && (from is Boolean || from is Char))
    ||| (to is Char && from == TypeView::Class(lit("String")))
    ||| to == from
}

/// Whether a value of type `ty` can be assigned to `var` without a warning.
/// An element of an `Array` takes any value.
pub open spec fn assignable(var: Variable, ty: TypeView, env: TableView) -> bool {
    match env.lookup_variable(var.name@) {
        None => false,
        Some(e) => (var.index_accessor is Some && e.0.ty == TypeView::Class(lit("Array")))
            || coerces(e.0.ty, ty),
    }
}

/// The error for an expression without a type: it shows the expression.
pub open spec fn infer_failure(e: Expr) -> JackErrorView {
    JackErrorView::InternalCompilerError(
        with_expr(lit("could not infer the type of `"), e) + lit("`"),
    )
}

/// A type that may be missing, as contracts see it.
pub open spec fn type_opt_view(t: Option<Type>) -> Option<TypeView> {
    match t {
        Some(t) => Some(t@),
        None => None,
    }
}

/// Whether a value of type `ty` can be assigned to `var` without a warning.
pub fn validate_variable_ty(var: &Variable, ty: &Type, table: &SymbolTable) -> (r: bool)
    requires
        table.wf(),
    ensures
        r == assignable(*var, ty@, table@),
{
    let ctxt = match table.lookup_variable(var.name.as_slice()) {
        Some(e) => &e.0,
        None => {
            return false;
        },
    };
    if var.index_accessor.is_some() && ctxt.ty.is_class("Array") {
        return true;
    }
    match (&ctxt.ty, ty) {
        (Type::Boolean, _) => true,
        (Type::Int, Type::Boolean) => true,
        (Type::Int, Type::Char) => true,
        (Type::Char, other) => other.is_class("String") || ctxt.ty.same(ty),
        _ => ctxt.ty.same(ty),
    }
}

/// The type of an expression. An expression without a type is an error of
/// the compiler.
pub fn infer_expr_ty(expr: &Expr, table: &SymbolTable) -> (r: Result<Type, JackError>)
    requires
        table.wf(),
    ensures
        match r {
            Ok(ty) => expr_type(*expr, table@) == Some(ty@),
            Err(e) => expr_type(*expr, table@).is_none() && e@ == infer_failure(*expr),
        },
{
    match expr_ty(expr, table) {
        Some(ty) => Ok(ty),
        None => {
            let mut msg = lit_vec("could not infer the type of `");
            expr.write(&mut msg);
            push_lit(&mut msg, "`");
            Err(JackError::InternalCompilerError(msg))
        },
    }
}

/// The type of an expression, where it has one.
pub fn expr_ty(expr: &Expr, table: &SymbolTable) -> (r: Option<Type>)
    requires
        table.wf(),
    ensures
        type_opt_view(r) == expr_type(*expr, table@),
    decreases expr,
{
    match infer_term_ty(&expr.lhs, table) {
        Some(ty) => Some(ty),
        None => match &expr.rhs {
            Some(b) => infer_term_ty(&b.1, table),
            None => None,
        },
    }
}

/// The type of a term, where it has one.
pub fn infer_term_ty(term: &Term, table: &SymbolTable) -> (r: Option<Type>)
    requires
        table.wf(),
    ensures
        type_opt_view(r) == term_type(*term, table@),
    decreases term,
{
    match &term.kind {
        TermKind::Const(c) => match c {
            Constant::Integer(_) => Some(Type::Int),
            Constant::Str(s) => {
                if s.len() == 1 {
                    Some(Type::Char)
                } else {
                    Some(Type::Class(lit_vec("String")))
                }
            },
            Constant::True => Some(Type::Boolean),
            Constant::False => Some(Type::Boolean),
            Constant::This => match table.current_class() {
                Ok(class) => Some(Type::Class(copy_ident(class))),
                Err(_) => None,
            },
            Constant::Null => None,
        },
        TermKind::Variable(v) => match table.lookup_variable(v.name.as_slice()) {
            Some(e) => Some(e.0.ty.duplicate()),
            None => None,
        },
        TermKind::FnCall(f) => {
            let receiver = match &f.receiver {
                Some(r) => Some(r.as_slice()),
                None => None,
            };
            match table.lookup_fn(receiver, f.fn_name.as_slice()) {
                Some(fc) => Some(fc.ty.duplicate()),
                None => None,
            }
        },
        TermKind::Expr(e) => expr_ty(e, table),
        TermKind::Unary { op, term } => infer_term_ty(term, table),
    }
}

} // verus!
