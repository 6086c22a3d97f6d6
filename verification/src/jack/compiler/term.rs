//! Lowering of expressions, terms and calls.
use vstd::prelude::*;

use crate::ast::{
    copy_ident, BinOp, Constant, Expr, FnCall, Span, Term, TermKind, Type, UnaryOp, Variable,
};
use crate::jack::compiler::Codegen;
use crate::jack::emit::{
    element_address, emit_args, emit_bytes, emit_call, emit_constant, emit_expr, emit_receiver,
    emit_term, emit_variable,
};
use crate::jack::error::{JackError, JackErrorView, SemanticErrorKind};
use crate::jack::symbol::{error_view, SymbolTable, VarKind};
use crate::text::{lit_vec, push_all, push_dec_wide, push_lit};
use crate::vm::segment::Segment;

verus! {

impl Codegen {
    /// Appends each byte of `s` from the `i`-th on to the string on the
    /// stack.
    pub fn string_bytes(&mut self, s: &[u8], table: &SymbolTable)
        ensures
            final(self).state(table.label_count()) == emit_bytes(s@, 0, old(self).state(table.label_count())),
    {
        let mut i: usize = 0;
        while i < s.len()
            invariant
                i <= s@.len(),
                emit_bytes(s@, i as nat, self.state(table.label_count())) == emit_bytes(
                    s@,
                    0,
                    old(self).state(table.label_count()),
                ),
            decreases s@.len() - i,
        {
            self.push(Segment::Constant, s[i] as u64);
            self.write_lit("call String.appendChar 2");
            i = i + 1;
        }
    }

    /// Lowers a constant.
    pub fn constant(&mut self, c: &Constant, table: &SymbolTable)
        ensures
            final(self).state(table.label_count()) == emit_constant(*c, old(self).state(table.label_count())),
    {
        match c {
            Constant::This => self.push(Segment::Pointer, 0),
            Constant::Integer(n) => self.push(Segment::Constant, *n as u64),
            Constant::Null => self.push(Segment::Constant, 0),
            Constant::False => self.push(Segment::Constant, 0),
            Constant::True => {
                self.push(Segment::Constant, 1);
                self.write_lit("neg");
            },
            Constant::Str(s) => {
                self.push(Segment::Constant, s.len() as u64);
                self.write_lit("call String.new 1");
                self.string_bytes(s.as_slice(), table);
            },
        }
    }

    /// Puts the address of an element into the second pointer; the index is
    /// on the stack.
    pub fn element(&mut self, kind: VarKind, register: usize, table: &SymbolTable)
        ensures
            final(self).state(table.label_count()) == element_address(
                old(self).state(table.label_count()),
                kind,
                register as nat,
            ),
    {
        self.push(kind.segment(), register as u64);
        self.write_lit("add");
        self.pop(Segment::Pointer, 1);
    }

    /// Lowers an expression.
    pub fn expr(&mut self, expr: &Expr, table: &SymbolTable) -> (r: Result<(), JackError>)
        requires
            table.wf(),
        ensures
            final(self).state(table.label_count()) == emit_expr(*expr, table@, old(self).state(table.label_count())).st,
            error_view(r) == emit_expr(*expr, table@, old(self).state(table.label_count())).res,
        decreases expr, 0nat,
    {
        match self.term(&expr.lhs, table) {
            Ok(_) => {},
            Err(e) => {
                return Err(e);
            },
        }
        match &expr.rhs {
            None => Ok(()),
            Some(b) => {
                match self.term(&b.1, table) {
                    Ok(_) => {},
                    Err(e) => {
                        return Err(e);
                    },
                }
                let operator = match b.0 {
                    BinOp::Plus => "add",
                    BinOp::Minus => "sub",
                    BinOp::Mul => "call Math.multiply 2",
                    BinOp::Div => "call Math.divide 2",
                    BinOp::And => "and",
                    BinOp::Or => "or",
                    BinOp::Equal => "eq",
                    BinOp::Lt => "lt",
                    BinOp::Gt => "gt",
                };
                self.write_lit(operator);
                Ok(())
            },
        }
    }

    /// Lowers a term.
    pub fn term(&mut self, term: &Term, table: &SymbolTable) -> (r: Result<(), JackError>)
        requires
            table.wf(),
        ensures
            final(self).state(table.label_count()) == emit_term(*term, table@, old(self).state(table.label_count())).st,
            error_view(r) == emit_term(*term, table@, old(self).state(table.label_count())).res,
        decreases term, 0nat,
    {
        match &term.kind {
            TermKind::Const(c) => {
                self.constant(c, table);
                Ok(())
            },
            TermKind::Variable(v) => self.variable(v, table),
            TermKind::FnCall(f) => self.fncall(f, term.span, table),
            TermKind::Expr(e) => self.expr(e, table),
            TermKind::Unary { op, term } => {
                match self.term(term, table) {
                    Ok(_) => {},
                    Err(e) => {
                        return Err(e);
                    },
                }
                let op = match op {
                    UnaryOp::Not => "not",
                    UnaryOp::Minus => "neg",
                };
                self.write_lit(op);
                Ok(())
            },
        }
    }

    /// Lowers the read of a variable or of one of its elements.
    pub fn variable(&mut self, variable: &Variable, table: &SymbolTable) -> (r: Result<
        (),
        JackError,
    >)
        requires
            table.wf(),
        ensures
            final(self).state(table.label_count()) == emit_variable(
                *variable,
                table@,
                old(self).state(table.label_count()),
            ).st,
            error_view(r) == emit_variable(*variable, table@, old(self).state(table.label_count())).res,
        decreases variable, 0nat,
    {
        let (kind, register) = match table.lookup_variable(variable.name.as_slice()) {
            Some(e) => (e.0.kind, e.1),
            None => {
                return Err(
                    self.error(
                        SemanticErrorKind::UndefinedVariable(copy_ident(&variable.name)),
                        variable.span,
                    ),
                );
            },
        };
        match &variable.index_accessor {
            None => {
                self.push(kind.segment(), register as u64);
                Ok(())
            },
            Some(offset) => {
                match self.expr(offset, table) {
                    Ok(_) => {},
                    Err(e) => {
                        return Err(e);
                    },
                }
                self.element(kind, register, table);
                self.push(Segment::That, 0);
                Ok(())
            },
        }
    }

    /// Lowers the arguments of a call from the `i`-th on.
    pub fn args(&mut self, args: &Vec<Expr>, i: usize, table: &SymbolTable) -> (r: Result<
        (),
        JackError,
    >)
        requires
            table.wf(),
        ensures
            final(self).state(table.label_count()) == emit_args(
                args@,
                i as nat,
                table@,
                old(self).state(table.label_count()),
            ).st,
            error_view(r) == emit_args(args@, i as nat, table@, old(self).state(table.label_count())).res,
        decreases args@, args@.len() - i,
    {
        if i >= args.len() {
            return Ok(());
        }
        match self.expr(&args[i], table) {
            Ok(_) => {},
            Err(e) => {
                return Err(e);
            },
        }
        self.args(args, i + 1, table)
    }

    /// Pushes what a call passes before its arguments, and returns how many
    /// arguments that makes.
    pub fn receiver(&mut self, call: &FnCall, table: &SymbolTable) -> (r: Result<u8, JackError>)
        requires
            table.wf(),
        ensures
            final(self).state(table.label_count()) == emit_receiver(*call, table@, old(self).state(table.label_count())).0.st,
            match r {
                Ok(n) => emit_receiver(*call, table@, old(self).state(table.label_count())).0.res is Ok && n
                    == emit_receiver(*call, table@, old(self).state(table.label_count())).1,
                Err(e) => emit_receiver(*call, table@, old(self).state(table.label_count())).0.res == Err::<
                    (),
                    JackErrorView,
                >(e@),
            },
    {
        match &call.receiver {
            None => {
                self.push(Segment::Pointer, 0);
                Ok(1)
            },
            Some(receiver) => match table.lookup_variable(receiver.as_slice()) {
                None => Ok(0),
                Some(e) => match &e.0.ty {
                    Type::Class(_) => {
                        self.push(e.0.kind.segment(), e.1 as u64);
                        Ok(1)
                    },
                    _ => Err(
                        self.error(
                            SemanticErrorKind::InvalidSyntax(
                                lit_vec("could not call methods of builtin types"),
                            ),
                            e.0.span,
                        ),
                    ),
                },
            },
        }
    }

    /// Lowers a call that stands at `at`.
    pub fn fncall(&mut self, call: &FnCall, at: Span, table: &SymbolTable) -> (r: Result<
        (),
        JackError,
    >)
        requires
            table.wf(),
        ensures
            final(self).state(table.label_count()) == emit_call(
                *call,
                at,
                table@,
                old(self).state(table.label_count()),
            ).st,
            error_view(r) == emit_call(
                *call,
                at,
                table@,
                old(self).state(table.label_count()),
            ).res,
        decreases call, 0nat,
    {
        let receiver = match &call.receiver {
            Some(r) => Some(r.as_slice()),
            None => None,
        };
        let class = match table.lookup_fn(receiver, call.fn_name.as_slice()) {
            Some(fc) => &fc.class,
            None => {
                return Err(
                    self.error(
                        SemanticErrorKind::UndefinedVariable(copy_ident(&call.fn_name)),
                        at,
                    ),
                );
            },
        };
        let hidden = match self.receiver(call, table) {
            Ok(n) => n,
            Err(e) => {
                return Err(e);
            },
        };
        match self.args(&call.args, 0, table) {
            Ok(_) => {},
            Err(e) => {
                return Err(e);
            },
        }
        let count: u128 = call.args.len() as u128 + hidden as u128;
        push_lit(&mut self.out, "call ");
        push_all(&mut self.out, class.as_slice());
        push_lit(&mut self.out, ".");
        push_all(&mut self.out, call.fn_name.as_slice());
        push_lit(&mut self.out, " ");
        push_dec_wide(&mut self.out, count);
        push_lit(&mut self.out, "\n");
        Ok(())
    }
}

} // verus!
