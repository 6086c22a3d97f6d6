//! The syntax tree as text, for diagnostics: an expression as it would be
//! written, a statement in brief.
use vstd::prelude::*;

use crate::ast::{
    BinOp, Constant, Expr, FnCall, Stmt, StmtKind, Term, TermKind, Type, TypeView, UnaryOp,
    Variable, VariableDefKind,
};
use crate::text::{dec, lit, lit_vec, push_all, push_dec, push_lit};

verus! {

/// The name of a type: that of a class is `class(Name)`.
pub open spec fn type_text(ty: TypeView) -> Seq<u8> {
    match ty {
        TypeView::Int => lit("int"),
        TypeView::Char => lit("char"),
        TypeView::Boolean => lit("boolean"),
        TypeView::Void => lit("void"),
        TypeView::Class(name) => lit("class(") + name + lit(")"),
    }
}

/// The keyword of a kind of declaration.
pub open spec fn def_kind_text(kind: VariableDefKind) -> Seq<u8> {
    match kind {
        VariableDefKind::Static => lit("static"),
        VariableDefKind::Field => lit("field"),
        VariableDefKind::Var => lit("var"),
    }
}

/// The sign of a binary operator.
pub open spec fn bin_op_text(op: BinOp) -> Seq<u8> {
    match op {
        BinOp::Plus => lit("+"),
        BinOp::Minus => lit("-"),
        BinOp::Mul => lit("*"),
        BinOp::Div => lit("/"),
        BinOp::And => lit("&"),
        BinOp::Or => lit("|"),
        BinOp::Equal => lit("="),
        BinOp::Lt => lit("<"),
        BinOp::Gt => lit(">"),
    }
}

/// The sign of a unary operator.
pub open spec fn unary_op_text(op: UnaryOp) -> Seq<u8> {
    match op {
        UnaryOp::Minus => lit("-"),
        UnaryOp::Not => lit("~"),
    }
}

/// A constant: a string stands without its quotes.
pub open spec fn constant_text(c: Constant) -> Seq<u8> {
    match c {
        Constant::Integer(v) => dec(v as nat),
        Constant::Str(s) => s@,
        Constant::True => lit("true"),
        Constant::False => lit("false"),
        Constant::Null => lit("null"),
        Constant::This => lit("this"),
    }
}

/// `out` with the expression `e` behind it: `lhs`, or `lhs op rhs`.
pub open spec fn with_expr(out: Seq<u8>, e: Expr) -> Seq<u8>
    decreases e, 0nat,
{
    match e.rhs {
        Some(b) => with_term(with_term(out, *e.lhs) + lit(" ") + bin_op_text(b.0) + lit(" "), b.1),
        None => with_term(out, *e.lhs),
    }
}

/// `out` with the term `t` behind it. An expression in parentheses stands
/// without them.
pub open spec fn with_term(out: Seq<u8>, t: Term) -> Seq<u8>
    decreases t, 0nat,
{
    match t.kind {
        TermKind::Const(c) => out + constant_text(c),
        TermKind::Variable(v) => with_variable(out, v),
        TermKind::FnCall(f) => with_call(out, f),
        TermKind::Expr(e) => with_expr(out, *e),
        TermKind::Unary { op, term } => with_term(out + unary_op_text(op), *term),
    }
}

/// `out` with the variable `v` behind it: `name` or `name[index]`.
pub open spec fn with_variable(out: Seq<u8>, v: Variable) -> Seq<u8>
    decreases v, 0nat,
{
    match v.index_accessor {
        Some(e) => with_expr(out + v.name@ + lit("["), e) + lit("]"),
        None => out + v.name@,
    }
}

/// `out` with the arguments from the `i`-th on behind it, `, ` between them.
pub open spec fn with_args(out: Seq<u8>, args: Seq<Expr>, i: nat) -> Seq<u8>
    decreases args, args.len() - i,
{
    if i >= args.len() {
        out
    } else if i == 0 {
        with_args(with_expr(out, args[i as int]), args, i + 1)
    } else {
        with_args(with_expr(out + lit(", "), args[i as int]), args, i + 1)
    }
}

/// `out` with the call `f` behind it: `name(args)` or `receiver.name(args)`.
pub open spec fn with_call(out: Seq<u8>, f: FnCall) -> Seq<u8>
    decreases f, 0nat,
{
    match f.receiver {
        Some(r) => with_args(out + r@ + lit(".") + f.fn_name@ + lit("("), f.args@, 0) + lit(")"),
        None => with_args(out + f.fn_name@ + lit("("), f.args@, 0) + lit(")"),
    }
}

/// The expression `e` as text.
pub open spec fn expr_text(e: Expr) -> Seq<u8> {
    with_expr(Seq::empty(), e)
}

/// `out` with a block in brief behind it: the number of its statements.
pub open spec fn with_block(out: Seq<u8>, n: nat) -> Seq<u8> {
    out + lit("{ (") + dec(n) + lit(" statements...) }")
}

/// `out` with the statement `s` in brief behind it: its expressions as they
/// are written, its blocks by the number of their statements.
pub open spec fn with_stmt(out: Seq<u8>, s: Stmt) -> Seq<u8> {
    match s.kind {
        StmtKind::Let { lhs, rhs } => with_expr(
            with_variable(out + lit("let "), lhs) + lit(" = "),
            rhs,
        ),
        StmtKind::If { cond, then_branch, else_branch } => {
            let head = with_block(with_expr(out + lit("if ("), cond) + lit(") "), then_branch@.len());
            match else_branch {
                Some(b) => with_block(head + lit(" else "), b@.len()),
                None => head,
            }
        },
        StmtKind::While { cond, body } => with_block(
            with_expr(out + lit("while ("), cond) + lit(") "),
            body@.len(),
        ),
        StmtKind::Do(f) => with_call(out, f),
        StmtKind::Return(value) => match value {
            Some(v) => with_expr(out + lit("return "), v),
            None => out + lit("return"),
        },
    }
}

impl Type {
    /// The name of the type.
    pub fn to_text(&self) -> (r: Vec<u8>)
        ensures
            r@ == type_text(self@),
    {
        match self {
            Type::Int => lit_vec("int"),
            Type::Char => lit_vec("char"),
            Type::Boolean => lit_vec("boolean"),
            Type::Void => lit_vec("void"),
            Type::Class(name) => {
                let mut out = lit_vec("class(");
                push_all(&mut out, name.as_slice());
                push_lit(&mut out, ")");
                out
            },
        }
    }
}

impl VariableDefKind {
    /// The keyword of the kind.
    pub fn name(&self) -> (r: &'static str)
        ensures
            lit(r) == def_kind_text(*self),
    {
        match self {
            VariableDefKind::Static => "static",
            VariableDefKind::Field => "field",
            VariableDefKind::Var => "var",
        }
    }
}

impl BinOp {
    /// The sign of the operator.
    pub fn name(&self) -> (r: &'static str)
        ensures
            lit(r) == bin_op_text(*self),
    {
        match self {
            BinOp::Plus => "+",
            BinOp::Minus => "-",
            BinOp::Mul => "*",
            BinOp::Div => "/",
            BinOp::And => "&",
            BinOp::Or => "|",
            BinOp::Equal => "=",
            BinOp::Lt => "<",
            BinOp::Gt => ">",
        }
    }
}

impl UnaryOp {
    /// The sign of the operator.
    pub fn name(&self) -> (r: &'static str)
        ensures
            lit(r) == unary_op_text(*self),
    {
        match self {
            UnaryOp::Minus => "-",
            UnaryOp::Not => "~",
        }
    }
}

impl Constant {
    /// Appends the constant to `out`.
    pub fn write(&self, out: &mut Vec<u8>)
        ensures
            final(out)@ == old(out)@ + constant_text(*self),
    {
        match self {
            Constant::Integer(v) => push_dec(out, *v as u64),
            Constant::Str(s) => push_all(out, s.as_slice()),
            Constant::True => push_lit(out, "true"),
            Constant::False => push_lit(out, "false"),
            Constant::Null => push_lit(out, "null"),
            Constant::This => push_lit(out, "this"),
        }
    }
}

impl Expr {
    /// Appends the expression to `out`.
    pub fn write(&self, out: &mut Vec<u8>)
        ensures
            final(out)@ == with_expr(old(out)@, *self),
        decreases self, 0nat,
    {
        self.lhs.write(out);
        match &self.rhs {
            Some(b) => {
                push_lit(out, " ");
                push_lit(out, b.0.name());
                push_lit(out, " ");
                b.1.write(out);
            },
            None => {},
        }
    }

    /// The expression as text.
    pub fn to_text(&self) -> (r: Vec<u8>)
        ensures
            r@ == expr_text(*self),
    {
        let mut out: Vec<u8> = Vec::new();
        self.write(&mut out);
        out
    }
}

impl Term {
    /// Appends the term to `out`.
    pub fn write(&self, out: &mut Vec<u8>)
        ensures
            final(out)@ == with_term(old(out)@, *self),
        decreases self, 0nat,
    {
        match &self.kind {
            TermKind::Const(c) => c.write(out),
            TermKind::Variable(v) => v.write(out),
            TermKind::FnCall(f) => f.write(out),
            TermKind::Expr(e) => e.write(out),
            TermKind::Unary { op, term } => {
                push_lit(out, op.name());
                term.write(out);
            },
        }
    }
}

impl Variable {
    /// Appends the variable to `out`.
    pub fn write(&self, out: &mut Vec<u8>)
        ensures
            final(out)@ == with_variable(old(out)@, *self),
        decreases self, 0nat,
    {
        push_all(out, self.name.as_slice());
        match &self.index_accessor {
            Some(e) => {
                push_lit(out, "[");
                e.write(out);
                push_lit(out, "]");
            },
            None => {},
        }
    }
}

/// Appends the arguments from the `i`-th on to `out`.
pub fn write_args(out: &mut Vec<u8>, args: &Vec<Expr>, i: usize)
    ensures
        final(out)@ == with_args(old(out)@, args@, i as nat),
    decreases args@, args@.len() - i,
{
    if i >= args.len() {
        return ;
    }
    if i > 0 {
        push_lit(out, ", ");
    }
    args[i].write(out);
    write_args(out, args, i + 1);
}

impl FnCall {
    /// Appends the call to `out`.
    pub fn write(&self, out: &mut Vec<u8>)
        ensures
            final(out)@ == with_call(old(out)@, *self),
        decreases self, 0nat,
    {
        match &self.receiver {
            Some(r) => {
                push_all(out, r.as_slice());
                push_lit(out, ".");
            },
            None => {},
        }
        push_all(out, self.fn_name.as_slice());
        push_lit(out, "(");
        write_args(out, &self.args, 0);
        push_lit(out, ")");
    }
}

/// Appends a block in brief to `out`.
fn write_block(out: &mut Vec<u8>, n: usize)
    ensures
        final(out)@ == with_block(old(out)@, n as nat),
{
    push_lit(out, "{ (");
    push_dec(out, n as u64);
    push_lit(out, " statements...) }");
}

impl Stmt {
    /// Appends the statement in brief to `out`.
    pub fn write(&self, out: &mut Vec<u8>)
        ensures
            final(out)@ == with_stmt(old(out)@, *self),
    {
        match &self.kind {
            StmtKind::Let { lhs, rhs } => {
                push_lit(out, "let ");
                lhs.write(out);
                push_lit(out, " = ");
                rhs.write(out);
            },
            StmtKind::If { cond, then_branch, else_branch } => {
                push_lit(out, "if (");
                cond.write(out);
                push_lit(out, ") ");
                write_block(out, then_branch.len());
                match else_branch {
                    Some(b) => {
                        push_lit(out, " else ");
                        write_block(out, b.len());
                    },
                    None => {},
                }
            },
            StmtKind::While { cond, body } => {
                push_lit(out, "while (");
                cond.write(out);
                push_lit(out, ") ");
                write_block(out, body.len());
            },
            StmtKind::Do(f) => f.write(out),
            StmtKind::Return(value) => match value {
                Some(v) => {
                    push_lit(out, "return ");
                    v.write(out);
                },
                None => {
                    push_lit(out, "return");
                },
            },
        }
    }

    /// The statement in brief, as text.
    pub fn to_text(&self) -> (r: Vec<u8>)
        ensures
            r@ == with_stmt(Seq::empty(), *self),
    {
        let mut out: Vec<u8> = Vec::new();
        self.write(&mut out);
        out
    }
}

} // verus!
