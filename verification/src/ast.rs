//! The syntax tree of a Jack class.
//!
//! Every type that holds text comes in two forms: the value that the
//! compiler works on, whose text is owned bytes, and its view, whose text is a
//! sequence. Contracts that build trees speak of views.
use vstd::prelude::*;

pub mod render;
pub mod span;
pub mod within;

pub use span::{BytePos, Span};

use crate::text::{bytes_eq, is_lit, lit};

verus! {

/// A name, as bytes.
pub type Ident = Vec<u8>;

/// A copy of `name`.
pub fn copy_ident(name: &Ident) -> (r: Ident)
    ensures
        r@ == name@,
{
    name.clone()
}

/// A type of Jack.
#[derive(Debug, Clone, Eq, PartialEq, Hash)]
pub enum Type {
    Int,
    Char,
    Boolean,
    Class(Ident),
    /// Only the return type of a function can be `Void`.
    Void,
}

/// `Type` as contracts see it: its text is a sequence of bytes.
pub enum TypeView {
    Int,
    Char,
    Boolean,
    Class(Seq<u8>),
    Void,
}

impl View for Type {
    type V = TypeView;

    open spec fn view(&self) -> TypeView {
        match *self {
            Type::Int => TypeView::Int,
            Type::Char => TypeView::Char,
            Type::Boolean => TypeView::Boolean,
            Type::Class(name) => TypeView::Class(name@),
            Type::Void => TypeView::Void,
        }
    }
}

impl Type {
    /// A copy of this type.
    pub fn duplicate(&self) -> (r: Type)
        ensures
            r@ == self@,
    {
        match self {
            Type::Int => Type::Int,
            Type::Char => Type::Char,
            Type::Boolean => Type::Boolean,
            Type::Class(name) => Type::Class(copy_ident(name)),
            Type::Void => Type::Void,
        }
    }

    /// Whether two types are the same type.
    pub fn same(&self, other: &Type) -> (r: bool)
        ensures
            r == (self@ == other@),
    {
        match (self, other) {
            (Type::Int, Type::Int) => true,
            (Type::Char, Type::Char) => true,
            (Type::Boolean, Type::Boolean) => true,
            (Type::Void, Type::Void) => true,
            (Type::Class(a), Type::Class(b)) => bytes_eq(a.as_slice(), b.as_slice()),
            _ => false,
        }
    }

    /// Whether this is the class type called `name`.
    pub fn is_class(&self, name: &str) -> (r: bool)
        ensures
            r == (self@ == TypeView::Class(lit(name))),
    {
        match self {
            Type::Class(a) => is_lit(a.as_slice(), name),
            _ => false,
        }
    }
}

/// The kinds of functions: constructors, functions of a class, and methods of
/// an object.
#[derive(Debug, Clone, Copy, PartialEq, Eq, Structural)]
pub enum FnKind {
    Ctor,
    Function,
    Method,
}

/// The kinds of declarations of variables.
#[derive(Debug, Clone, Copy, PartialEq, Eq, Structural)]
pub enum VariableDefKind {
    Static,
    Field,
    /// Only a function declares a `Var`.
    Var,
}

/// The binary operators.
#[derive(Debug, Clone, Copy, PartialEq, Eq, Structural)]
pub enum BinOp {
    Plus,
    Minus,
    Mul,
    Div,
    And,
    Or,
    Equal,
    Lt,
    Gt,
}

/// The unary operators.
#[derive(Debug, Clone, Copy, PartialEq, Eq, Structural)]
pub enum UnaryOp {
    Minus,
    Not,
}

/// The largest number that a constant can be.
pub const MAX_INTEGER: u32 = 32767;

/// A constant. A string holds what stands between its quotes, and a number
/// is at most `MAX_INTEGER` where a parser made it.
#[derive(Debug, PartialEq)]
pub enum Constant {
    Integer(u32),
    Str(Vec<u8>),
    True,
    False,
    Null,
    This,
}

/// `Constant` as contracts see it: its text is a sequence of bytes.
pub enum ConstantView {
    Integer(u32),
    Str(Seq<u8>),
    True,
    False,
    Null,
    This,
}

impl View for Constant {
    type V = ConstantView;

    open spec fn view(&self) -> ConstantView {
        match *self {
            Constant::Integer(n) => ConstantView::Integer(n),
            Constant::Str(s) => ConstantView::Str(s@),
            Constant::True => ConstantView::True,
            Constant::False => ConstantView::False,
            Constant::Null => ConstantView::Null,
            Constant::This => ConstantView::This,
        }
    }
}

/// The declaration of one variable. Its range is that of its name.
#[derive(Debug, PartialEq)]
pub struct VariableDef {
    pub name: Ident,
    pub kind: VariableDefKind,
    pub ty: Type,
    pub span: Span,
}

/// `VariableDef` as contracts see it: its text is a sequence of bytes.
pub struct VariableDefView {
    pub name: Seq<u8>,
    pub kind: VariableDefKind,
    pub ty: TypeView,
    pub span: Span,
}

impl View for VariableDef {
    type V = VariableDefView;

    open spec fn view(&self) -> VariableDefView {
        VariableDefView { name: self.name@, kind: self.kind, ty: self.ty@, span: self.span }
    }
}

/// A parameter of a function. Its range runs from its type to its name.
#[derive(Debug, PartialEq)]
pub struct Parameter {
    pub name: Ident,
    pub ty: Type,
    pub span: Span,
}

/// `Parameter` as contracts see it: its text is a sequence of bytes.
pub struct ParameterView {
    pub name: Seq<u8>,
    pub ty: TypeView,
    pub span: Span,
}

impl View for Parameter {
    type V = ParameterView;

    open spec fn view(&self) -> ParameterView {
        ParameterView { name: self.name@, ty: self.ty@, span: self.span }
    }
}

/// An expression: a term, and at most one operator with a second term. There
/// is no precedence: operators apply in the order in which they are written.
#[derive(Debug, PartialEq)]
pub struct Expr {
    pub lhs: Box<Term>,
    pub rhs: Option<Box<(BinOp, Term)>>,
}

/// A term, and the range of the source that it was read from.
#[derive(Debug, PartialEq)]
pub struct Term {
    pub kind: TermKind,
    pub span: Span,
}

/// What a term is.
#[derive(Debug, PartialEq)]
pub enum TermKind {
    Const(Constant),
    /// `name` or `name[index]`
    Variable(Variable),
    /// `name(args)` or `receiver.name(args)`
    FnCall(FnCall),
    /// `(expr)`
    Expr(Box<Expr>),
    Unary { op: UnaryOp, term: Box<Term> },
}

/// A call: `fn_name(args)`, or `receiver.fn_name(args)`.
#[derive(Debug, PartialEq)]
pub struct FnCall {
    pub receiver: Option<Ident>,
    pub fn_name: Ident,
    pub args: Vec<Expr>,
}

/// A variable, with or without an index. Its range includes the index.
#[derive(Debug, PartialEq)]
pub struct Variable {
    pub name: Ident,
    pub index_accessor: Option<Expr>,
    pub span: Span,
}

/// `Expr` as contracts see it: its text is a sequence of bytes.
pub struct ExprView {
    pub lhs: Box<TermView>,
    pub rhs: Option<Box<(BinOp, TermView)>>,
}

/// `Term` as contracts see it: its text is a sequence of bytes.
pub struct TermView {
    pub kind: TermKindView,
    pub span: Span,
}

/// `TermKind` as contracts see it: its text is a sequence of bytes.
pub enum TermKindView {
    Const(ConstantView),
    Variable(VariableView),
    FnCall(FnCallView),
    Expr(Box<ExprView>),
    Unary { op: UnaryOp, term: Box<TermView> },
}

/// `FnCall` as contracts see it: its text is a sequence of bytes.
pub struct FnCallView {
    pub receiver: Option<Seq<u8>>,
    pub fn_name: Seq<u8>,
    pub args: Seq<ExprView>,
}

/// `Variable` as contracts see it: its text is a sequence of bytes.
pub struct VariableView {
    pub name: Seq<u8>,
    pub index_accessor: Option<Box<ExprView>>,
    pub span: Span,
}

/// The bytes of a name that may be missing.
pub open spec fn ident_opt_view(name: Option<Ident>) -> Option<Seq<u8>> {
    match name {
        Some(n) => Some(n@),
        None => None,
    }
}

/// The expression `e` as contracts see it.
pub open spec fn expr_view(e: Expr) -> ExprView
    decreases e,
{
    ExprView {
        lhs: Box::new(term_view(*e.lhs)),
        rhs: match e.rhs {
            Some(b) => Some(Box::new((b.0, term_view(b.1)))),
            None => None,
        },
    }
}

/// The term `t` as contracts see it.
pub open spec fn term_view(t: Term) -> TermView
    decreases t,
{
    TermView {
        kind: match t.kind {
            TermKind::Const(c) => TermKindView::Const(c@),
            TermKind::Variable(v) => TermKindView::Variable(variable_view(v)),
            TermKind::FnCall(f) => TermKindView::FnCall(fn_call_view(f)),
            TermKind::Expr(e) => TermKindView::Expr(Box::new(expr_view(*e))),
            TermKind::Unary { op, term } => TermKindView::Unary {
                op,
                term: Box::new(term_view(*term)),
            },
        },
        span: t.span,
    }
}

/// The variable `v` as contracts see it.
pub open spec fn variable_view(v: Variable) -> VariableView
    decreases v,
{
    VariableView {
        name: v.name@,
        index_accessor: match v.index_accessor {
            Some(e) => Some(Box::new(expr_view(e))),
            None => None,
        },
        span: v.span,
    }
}

/// The call `f` as contracts see it.
pub open spec fn fn_call_view(f: FnCall) -> FnCallView
    decreases f,
{
    FnCallView {
        receiver: ident_opt_view(f.receiver),
        fn_name: f.fn_name@,
        args: exprs_view(f.args@),
    }
}

/// The elements of `v` as contracts see them.
pub open spec fn exprs_view(v: Seq<Expr>) -> Seq<ExprView>
    decreases v,
{
    if v.len() == 0 {
        Seq::empty()
    } else {
        exprs_view(v.drop_last()).push(expr_view(v.last()))
    }
}

impl View for Expr {
    type V = ExprView;

    open spec fn view(&self) -> ExprView {
        expr_view(*self)
    }
}

impl View for Term {
    type V = TermView;

    open spec fn view(&self) -> TermView {
        term_view(*self)
    }
}

impl View for Variable {
    type V = VariableView;

    open spec fn view(&self) -> VariableView {
        variable_view(*self)
    }
}

impl View for FnCall {
    type V = FnCallView;

    open spec fn view(&self) -> FnCallView {
        fn_call_view(*self)
    }
}

impl Expr {
    /// The source range of the expression, from the start of its first term
    /// to the end of its last.
    pub fn span(&self) -> (s: Span)
        requires
            self.lhs.span.valid(),
            self.rhs matches Some(b) ==> b.1.span.valid() && self.lhs.span.low()
                <= b.1.span.high(),
        ensures
            s == match self.rhs {
                Some(b) => Span::between(self.lhs.span.low(), b.1.span.high()),
                None => self.lhs.span,
            },
    {
        match &self.rhs {
            Some(b) => self.lhs.span.with_hi(b.1.span.hi()),
            None => self.lhs.span,
        }
    }

    /// The source range of the expression. Where its terms are out of order,
    /// it is the range of the first.
    pub fn range(&self) -> (s: Span)
        ensures
            s == match self.rhs {
                Some(b) => if b.1.span.valid() && self.lhs.span.low() <= b.1.span.high() {
                    Span::between(self.lhs.span.low(), b.1.span.high())
                } else {
                    self.lhs.span
                },
                None => self.lhs.span,
            },
    {
        match &self.rhs {
            Some(b) => {
                let last = b.1.span;
                if last.len <= usize::MAX - last.base && self.lhs.span.base <= last.base
                    + last.len {
                    self.lhs.span.with_hi(last.hi())
                } else {
                    self.lhs.span
                }
            },
            None => self.lhs.span,
        }
    }

    /// Whether the expression starts with the constant `null`.
    pub fn is_null(&self) -> (r: bool)
        ensures
            r == (self.lhs.kind matches TermKind::Const(Constant::Null)),
    {
        match &self.lhs.kind {
            TermKind::Const(Constant::Null) => true,
            _ => false,
        }
    }
}

/// A statement, and the range of the source that it was read from.
#[derive(Debug, PartialEq)]
pub struct Stmt {
    pub kind: StmtKind,
    pub span: Span,
}

/// What a statement is.
#[derive(Debug, PartialEq)]
pub enum StmtKind {
    /// `let name = expr;` or `let name[index] = expr;`
    Let { lhs: Variable, rhs: Expr },
    /// `if (cond) { then_branch }`, with or without `else { else_branch }`
    If { cond: Expr, then_branch: Vec<Stmt>, else_branch: Option<Vec<Stmt>> },
    /// `while (cond) { body }`
    While { cond: Expr, body: Vec<Stmt> },
    Do(FnCall),
    Return(Option<Expr>),
}

/// `Stmt` as contracts see it: its text is a sequence of bytes.
pub struct StmtView {
    pub kind: StmtKindView,
    pub span: Span,
}

/// `StmtKind` as contracts see it: its text is a sequence of bytes.
pub enum StmtKindView {
    Let { lhs: VariableView, rhs: ExprView },
    If { cond: ExprView, then_branch: Seq<StmtView>, else_branch: Option<Seq<StmtView>> },
    While { cond: ExprView, body: Seq<StmtView> },
    Do(FnCallView),
    Return(Option<ExprView>),
}

/// The statement `s` as contracts see it.
pub open spec fn stmt_view(s: Stmt) -> StmtView
    decreases s,
{
    StmtView {
        kind: match s.kind {
            StmtKind::Let { lhs, rhs } => StmtKindView::Let {
                lhs: variable_view(lhs),
                rhs: expr_view(rhs),
            },
            StmtKind::If { cond, then_branch, else_branch } => StmtKindView::If {
                cond: expr_view(cond),
                then_branch: stmts_view(then_branch@),
                else_branch: match else_branch {
                    Some(b) => Some(stmts_view(b@)),
                    None => None,
                },
            },
            StmtKind::While { cond, body } => StmtKindView::While {
                cond: expr_view(cond),
                body: stmts_view(body@),
            },
            StmtKind::Do(f) => StmtKindView::Do(fn_call_view(f)),
            StmtKind::Return(e) => StmtKindView::Return(
                match e {
                    Some(e) => Some(expr_view(e)),
                    None => None,
                },
            ),
        },
        span: s.span,
    }
}

/// The elements of `v` as contracts see them.
pub open spec fn stmts_view(v: Seq<Stmt>) -> Seq<StmtView>
    decreases v,
{
    if v.len() == 0 {
        Seq::empty()
    } else {
        stmts_view(v.drop_last()).push(stmt_view(v.last()))
    }
}

impl View for Stmt {
    type V = StmtView;

    open spec fn view(&self) -> StmtView {
        stmt_view(*self)
    }
}

/// The elements of `v` as contracts see them.
pub open spec fn variable_defs_view(v: Seq<VariableDef>) -> Seq<VariableDefView> {
    Seq::new(v.len(), |i: int| v[i]@)
}

/// The elements of `v` as contracts see them.
pub open spec fn parameters_view(v: Seq<Parameter>) -> Seq<ParameterView> {
    Seq::new(v.len(), |i: int| v[i]@)
}

/// The body of a function: its local variables and its statements.
#[derive(Debug, PartialEq)]
pub struct FnBody {
    pub variables: Vec<VariableDef>,
    pub statements: Vec<Stmt>,
}

/// `FnBody` as contracts see it: its text is a sequence of bytes.
pub struct FnBodyView {
    pub variables: Seq<VariableDefView>,
    pub statements: Seq<StmtView>,
}

impl View for FnBody {
    type V = FnBodyView;

    open spec fn view(&self) -> FnBodyView {
        FnBodyView {
            variables: variable_defs_view(self.variables@),
            statements: stmts_view(self.statements@),
        }
    }
}

/// The definition of a function.
#[derive(Debug, PartialEq)]
pub struct FnDef {
    pub name: Ident,
    /// The range of the function's name.
    pub span: Span,
    pub kind: FnKind,
    pub ret: Type,
    pub params: Vec<Parameter>,
    pub body: FnBody,
}

/// `FnDef` as contracts see it: its text is a sequence of bytes.
pub struct FnDefView {
    pub name: Seq<u8>,
    pub span: Span,
    pub kind: FnKind,
    pub ret: TypeView,
    pub params: Seq<ParameterView>,
    pub body: FnBodyView,
}

impl View for FnDef {
    type V = FnDefView;

    open spec fn view(&self) -> FnDefView {
        FnDefView {
            name: self.name@,
            span: self.span,
            kind: self.kind,
            ret: self.ret@,
            params: parameters_view(self.params@),
            body: self.body@,
        }
    }
}

/// The elements of `v` as contracts see them.
pub open spec fn fn_defs_view(v: Seq<FnDef>) -> Seq<FnDefView> {
    Seq::new(v.len(), |i: int| v[i]@)
}

/// One class: a source file holds exactly one.
#[derive(Debug, PartialEq)]
pub struct Class {
    pub name: Ident,
    /// The range of the class's name.
    pub span: Span,
    pub variables: Vec<VariableDef>,
    pub functions: Vec<FnDef>,
}

/// `Class` as contracts see it: its text is a sequence of bytes.
pub struct ClassView {
    pub name: Seq<u8>,
    pub span: Span,
    pub variables: Seq<VariableDefView>,
    pub functions: Seq<FnDefView>,
}

impl View for Class {
    type V = ClassView;

    open spec fn view(&self) -> ClassView {
        ClassView {
            name: self.name@,
            span: self.span,
            variables: variable_defs_view(self.variables@),
            functions: fn_defs_view(self.functions@),
        }
    }
}

} // verus!
