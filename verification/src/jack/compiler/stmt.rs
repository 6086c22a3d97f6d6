//! Lowering of statements.
use vstd::prelude::*;

use crate::ast::{copy_ident, Expr, FnCall, FnKind, Stmt, StmtKind, Type, Variable};
use crate::jack::compiler::Codegen;
use crate::jack::diagnosis::typeck::{infer_expr_ty, validate_variable_ty};
use crate::jack::emit::{
    check_assign, check_return, emit_do, emit_let, emit_return, emit_stmt, emit_stmts,
    two_labels,
};
use crate::jack::error::{JackError, JackErrorView, SemanticErrorKind};
use crate::jack::symbol::{error_view, label_text, SymbolTable};
use crate::text::lit_vec;
use crate::vm::segment::Segment;

verus! {

impl Codegen {
    /// Checks an assignment, and warns where the type of the value does not
    /// fit the variable, whose type is `expected`.
    pub fn check_assign(
        &mut self,
        stmt: &Stmt,
        lhs: &Variable,
        rhs: &Expr,
        expected: &Type,
        table: &SymbolTable,
    ) -> (r: Result<(), JackError>)
        requires
            table.wf(),
        ensures
            final(self).state(table.label_count()) == check_assign(
                *stmt,
                *lhs,
                *rhs,
                expected@,
                table@,
                old(self).state(table.label_count()),
            ).st,
            error_view(r) == check_assign(
                *stmt,
                *lhs,
                *rhs,
                expected@,
                table@,
                old(self).state(table.label_count()),
            ).res,
    {
        if rhs.is_null() {
            return Ok(());
        }
        let rhs_ty = match infer_expr_ty(rhs, table) {
            Ok(ty) => ty,
            Err(e) => {
                return Err(e);
            },
        };
        if !validate_variable_ty(lhs, &rhs_ty, table) {
            self.warning(
                SemanticErrorKind::TypeMismatch { expected: expected.duplicate(), actual: rhs_ty },
                stmt.span,
            );
        }
        Ok(())
    }

    /// Lowers a `let` statement.
    pub fn let_stmt(&mut self, stmt: &Stmt, lhs: &Variable, rhs: &Expr, table: &SymbolTable) -> (r:
        Result<(), JackError>)
        requires
            table.wf(),
        ensures
            final(self).state(table.label_count()) == emit_let(
                *stmt,
                *lhs,
                *rhs,
                table@,
                old(self).state(table.label_count()),
            ).st,
            error_view(r) == emit_let(
                *stmt,
                *lhs,
                *rhs,
                table@,
                old(self).state(table.label_count()),
            ).res,
    {
        let (kind, register, ty) = match table.lookup_variable(lhs.name.as_slice()) {
            Some(e) => (e.0.kind, e.1, &e.0.ty),
            None => {
                return Err(
                    self.error(
                        SemanticErrorKind::UndefinedVariable(copy_ident(&lhs.name)),
                        lhs.span,
                    ),
                );
            },
        };
        match self.check_assign(stmt, lhs, rhs, ty, table) {
            Ok(_) => {},
            Err(e) => {
                return Err(e);
            },
        }
        match self.expr(rhs, table) {
            Ok(_) => {},
            Err(e) => {
                return Err(e);
            },
        }
        match &lhs.index_accessor {
            None => {
                self.pop(kind.segment(), register as u64);
                Ok(())
            },
            Some(offset) => {
                match self.expr(offset, table) {
                    Ok(_) => {},
                    Err(e) => {
                        return Err(e);
                    },
                }
                self.element(kind, register, table);
                self.pop(Segment::That, 0);
                Ok(())
            },
        }
    }

    /// Lowers a `do` statement.
    pub fn do_stmt(&mut self, stmt: &Stmt, call: &FnCall, table: &SymbolTable) -> (r: Result<
        (),
        JackError,
    >)
        requires
            table.wf(),
        ensures
            final(self).state(table.label_count()) == emit_do(
                *stmt,
                *call,
                table@,
                old(self).state(table.label_count()),
            ).st,
            error_view(r) == emit_do(
                *stmt,
                *call,
                table@,
                old(self).state(table.label_count()),
            ).res,
    {
        let receiver = match &call.receiver {
            Some(r) => Some(r.as_slice()),
            None => None,
        };
        let ty = match table.lookup_fn(receiver, call.fn_name.as_slice()) {
            Some(fc) => &fc.ty,
            None => {
                return Err(
                    self.error(
                        SemanticErrorKind::InvalidSyntax(lit_vec("called function is not defined")),
                        stmt.span,
                    ),
                );
            },
        };
        match ty {
            Type::Void => {},
            _ => {
                self.warning(
                    SemanticErrorKind::TypeMismatch {
                        expected: Type::Void,
                        actual: ty.duplicate(),
                    },
                    stmt.span,
                );
            },
        }
        match self.fncall(call, stmt.span, table) {
            Ok(_) => {},
            Err(e) => {
                return Err(e);
            },
        }
        self.pop(Segment::Temp, 0);
        Ok(())
    }

    /// Checks a returned value, and warns where its type is not `ret`, the
    /// type that the function returns.
    pub fn check_return(&mut self, value: &Expr, kind: FnKind, ret: &Type, table: &SymbolTable) -> (r:
        Result<(), JackError>)
        requires
            table.wf(),
        ensures
            final(self).state(table.label_count()) == check_return(
                *value,
                kind,
                ret@,
                table@,
                old(self).state(table.label_count()),
            ).st,
            error_view(r) == check_return(
                *value,
                kind,
                ret@,
                table@,
                old(self).state(table.label_count()),
            ).res,
    {
        match kind {
            FnKind::Ctor => {
                return Ok(());
            },
            _ => {},
        }
        let ty = match infer_expr_ty(value, table) {
            Ok(ty) => ty,
            Err(e) => {
                return Err(e);
            },
        };
        if !ty.same(ret) {
            self.warning(
                SemanticErrorKind::TypeMismatch { expected: ret.duplicate(), actual: ty },
                value.range(),
            );
        }
        Ok(())
    }

    /// Lowers a `return` statement.
    pub fn return_stmt(&mut self, stmt: &Stmt, value: &Option<Expr>, table: &SymbolTable) -> (r:
        Result<(), JackError>)
        requires
            table.wf(),
        ensures
            final(self).state(table.label_count()) == emit_return(
                *stmt,
                *value,
                table@,
                old(self).state(table.label_count()),
            ).st,
            error_view(r) == emit_return(
                *stmt,
                *value,
                table@,
                old(self).state(table.label_count()),
            ).res,
    {
        let current = match table.current_fn() {
            Some(f) => f,
            None => {
                return Err(
                    self.error(
                        SemanticErrorKind::InvalidSyntax(
                            lit_vec("statements can't be declared outside functions"),
                        ),
                        stmt.span,
                    ),
                );
            },
        };
        match value {
            Some(v) => {
                match self.check_return(v, current.kind, &current.ret, table) {
                    Ok(_) => {},
                    Err(e) => {
                        return Err(e);
                    },
                }
                match self.expr(v, table) {
                    Ok(_) => {},
                    Err(e) => {
                        return Err(e);
                    },
                }
                self.ret();
                Ok(())
            },
            None => match &current.ret {
                Type::Void => {
                    self.push(Segment::Constant, 0);
                    self.ret();
                    Ok(())
                },
                other => Err(
                    self.error(
                        SemanticErrorKind::TypeMismatch {
                            expected: other.duplicate(),
                            actual: Type::Void,
                        },
                        stmt.span,
                    ),
                ),
            },
        }
    }

    /// Takes two fresh labels from `table`.
    pub fn two_labels(&self, table: &mut SymbolTable) -> (r: Result<(Vec<u8>, Vec<u8>), JackError>)
        requires
            old(table).wf(),
        ensures
            final(table).wf(),
            final(table)@ == old(table)@,
            self.state(final(table).label_count()) == two_labels(
                self.state(old(table).label_count()),
            ).st,
            match r {
                Ok(l) => two_labels(self.state(old(table).label_count())).res is Ok && l.0@
                    == label_text(old(table).label_count() + 1) && l.1@ == label_text(
                    old(table).label_count() + 2,
                ),
                Err(e) => two_labels(self.state(old(table).label_count())).res == Err::<
                    (),
                    JackErrorView,
                >(e@),
            },
    {
        let first = match table.label() {
            Some(l) => l,
            None => {
                return Err(
                    JackError::InternalCompilerError(lit_vec("the counter of labels is exhausted")),
                );
            },
        };
        let second = match table.label() {
            Some(l) => l,
            None => {
                return Err(
                    JackError::InternalCompilerError(lit_vec("the counter of labels is exhausted")),
                );
            },
        };
        Ok((first, second))
    }

    /// Lowers an `if` statement: the condition, a jump to the `then` branch,
    /// the `else` branch, a jump to the end, the `then` branch.
    pub fn if_stmt(
        &mut self,
        stmt: &Stmt,
        cond: &Expr,
        then_branch: &Vec<Stmt>,
        else_branch: &Option<Vec<Stmt>>,
        table: &mut SymbolTable,
    ) -> (r: Result<(), JackError>)
        requires
            old(table).wf(),
            stmt.kind == (StmtKind::If {
                cond: *cond,
                then_branch: *then_branch,
                else_branch: *else_branch,
            }),
        ensures
            final(table).wf(),
            final(table)@ == old(table)@,
            final(self).state(final(table).label_count()) == emit_stmt(
                *stmt,
                old(table)@,
                old(self).state(old(table).label_count()),
            ).st,
            error_view(r) == emit_stmt(
                *stmt,
                old(table)@,
                old(self).state(old(table).label_count()),
            ).res,
        decreases stmt, 0nat,
    {
        let (then_label, end_label) = match self.two_labels(table) {
            Ok(l) => l,
            Err(e) => {
                return Err(e);
            },
        };
        match self.expr(cond, &*table) {
            Ok(_) => {},
            Err(e) => {
                return Err(e);
            },
        }
        self.if_goto(then_label.as_slice());
        match else_branch {
            Some(b) => {
                match self.statements(b, 0, table) {
                    Ok(_) => {},
                    Err(e) => {
                        return Err(e);
                    },
                }
            },
            None => {},
        }
        self.goto(end_label.as_slice());
        self.label(then_label.as_slice());
        match self.statements(then_branch, 0, table) {
            Ok(_) => {},
            Err(e) => {
                return Err(e);
            },
        }
        self.label(end_label.as_slice());
        Ok(())
    }

    /// Lowers a `while` statement: the condition, a jump behind the loop if
    /// it does not hold, the body, a jump back.
    pub fn while_stmt(&mut self, stmt: &Stmt, cond: &Expr, body: &Vec<Stmt>, table: &mut SymbolTable) -> (r:
        Result<(), JackError>)
        requires
            old(table).wf(),
            stmt.kind == (StmtKind::While { cond: *cond, body: *body }),
        ensures
            final(table).wf(),
            final(table)@ == old(table)@,
            final(self).state(final(table).label_count()) == emit_stmt(
                *stmt,
                old(table)@,
                old(self).state(old(table).label_count()),
            ).st,
            error_view(r) == emit_stmt(
                *stmt,
                old(table)@,
                old(self).state(old(table).label_count()),
            ).res,
        decreases stmt, 0nat,
    {
        let (loop_label, quit_label) = match self.two_labels(table) {
            Ok(l) => l,
            Err(e) => {
                return Err(e);
            },
        };
        self.label(loop_label.as_slice());
        match self.expr(cond, &*table) {
            Ok(_) => {},
            Err(e) => {
                return Err(e);
            },
        }
        self.write_lit("not");
        self.if_goto(quit_label.as_slice());
        match self.statements(body, 0, table) {
            Ok(_) => {},
            Err(e) => {
                return Err(e);
            },
        }
        self.goto(loop_label.as_slice());
        self.label(quit_label.as_slice());
        Ok(())
    }

    /// Lowers a statement.
    pub fn statement(&mut self, stmt: &Stmt, table: &mut SymbolTable) -> (r: Result<(), JackError>)
        requires
            old(table).wf(),
        ensures
            final(table).wf(),
            final(table)@ == old(table)@,
            final(self).state(final(table).label_count()) == emit_stmt(
                *stmt,
                old(table)@,
                old(self).state(old(table).label_count()),
            ).st,
            error_view(r) == emit_stmt(
                *stmt,
                old(table)@,
                old(self).state(old(table).label_count()),
            ).res,
        decreases stmt, 1nat,
    {
        match &stmt.kind {
            StmtKind::Let { lhs, rhs } => self.let_stmt(stmt, lhs, rhs, &*table),
            StmtKind::If { cond, then_branch, else_branch } => self.if_stmt(
                stmt,
                cond,
                then_branch,
                else_branch,
                table,
            ),
            StmtKind::While { cond, body } => self.while_stmt(stmt, cond, body, table),
            StmtKind::Do(call) => self.do_stmt(stmt, call, &*table),
            StmtKind::Return(value) => self.return_stmt(stmt, value, &*table),
        }
    }

    /// Lowers the statements of a list from the `i`-th on.
    pub fn statements(&mut self, stmts: &Vec<Stmt>, i: usize, table: &mut SymbolTable) -> (r:
        Result<(), JackError>)
        requires
            old(table).wf(),
        ensures
            final(table).wf(),
            final(table)@ == old(table)@,
            final(self).state(final(table).label_count()) == emit_stmts(
                stmts@,
                i as nat,
                old(table)@,
                old(self).state(old(table).label_count()),
            ).st,
            error_view(r) == emit_stmts(
                stmts@,
                i as nat,
                old(table)@,
                old(self).state(old(table).label_count()),
            ).res,
        decreases stmts@, stmts@.len() - i,
    {
        if i >= stmts.len() {
            return Ok(());
        }
        match self.statement(&stmts[i], table) {
            Ok(_) => {},
            Err(e) => {
                return Err(e);
            },
        }
        self.statements(stmts, i + 1, table)
    }
}

} // verus!
