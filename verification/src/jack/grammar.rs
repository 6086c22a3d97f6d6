//! The grammar of Jack, as functions from a stream of tokens to syntax trees.
//!
//! ```text
//! class     = "class" IDENT "{" class_var* fn_def* "}"
//! class_var = ("static" | "field") type IDENT ("," IDENT)* ";"
//! fn_def    = ("constructor" | "function" | "method") type IDENT
//!             "(" params? ")" "{" var_decl* stmt* "}"
//! var_decl  = "var" type IDENT ("," IDENT)* ";"
//! stmt      = let | if | while | do | return
//! expr      = term (bin_op term)?
//! term      = const | variable | fn_call | "(" expr ")" | unary_op term
//! fn_call   = IDENT ("." IDENT)? "(" (expr ("," expr)*)? ")"
//! ```
//!
//! A rule starts at a position of the stream and says what it built or why it
//! failed, how many items of the stream it consumed, and the range of the last
//! token consumed. A rule that fails may have consumed items: there is no
//! backtracking. An item of the stream is a token or a lexical error; a rule
//! that meets a lexical error fails with it, and where a rule steps in for a
//! rule that failed, it does not step in for a lexical error.
use vstd::prelude::*;

use crate::ast::{
    BinOp, ClassView, ConstantView, ExprView, FnBodyView, FnCallView, FnDefView, FnKind,
    ParameterView, Span, StmtKindView, StmtView, TermKindView, TermView, TypeView, UnaryOp,
    VariableDefKind, VariableDefView, VariableView, MAX_INTEGER,
};
use crate::jack::error::{
    lex_failure, LexError, LexErrorKind, ParseErrorKindView, ParseErrorView,
};
use crate::jack::token::{kind_text, kw_text, KwKind, TokenKindView, TokenView};
use crate::text::lit;

verus! {

/// The items of a source: tokens and lexical errors, in the order of the
/// text.
pub type Items = Seq<Result<TokenView, LexError>>;

/// The outcome of a rule.
pub struct Parsed<T> {
    pub res: Result<T, ParseErrorView>,
    /// How many items the rule consumed.
    pub used: nat,
    /// The range of the last token consumed, by this rule or before it.
    pub cur: Span,
}

impl<T> Parsed<T> {
    /// The same outcome, for a rule that had consumed `n` items before.
    pub open spec fn after(self, n: nat) -> Parsed<T> {
        Parsed { res: self.res, used: self.used + n, cur: self.cur }
    }
}

/// The outcome of a rule that built `v`.
pub open spec fn done<T>(v: T, used: nat, cur: Span) -> Parsed<T> {
    Parsed { res: Ok(v), used, cur }
}

/// The outcome of a rule that failed with `e`.
pub open spec fn failed<T>(e: ParseErrorView, used: nat, cur: Span) -> Parsed<T> {
    Parsed { res: Err(e), used, cur }
}

/// How many items are left from position `i` on.
pub open spec fn left(ts: Items, i: nat) -> nat {
    if i < ts.len() {
        (ts.len() - i) as nat
    } else {
        0
    }
}

/// The range that the stream starts with: that of its first item, if it is a
/// token.
pub open spec fn initial_span(ts: Items) -> Span {
    if ts.len() > 0 && ts[0] is Ok {
        ts[0]->Ok_0.span
    } else {
        Span { base: 0, len: 0 }
    }
}

/// The error for a source that ends too early, at the range `cur`.
pub open spec fn eof_error(cur: Span) -> ParseErrorView {
    ParseErrorView { kind: ParseErrorKindView::UnexpectedEOF, span: cur, help: None }
}

/// The error for a token that no rule expects.
pub open spec fn unexpected(t: TokenView) -> ParseErrorView {
    ParseErrorView { kind: ParseErrorKindView::UnexpectedToken(t), span: t.span, help: None }
}

/// The next token, without consuming it.
pub open spec fn peek_at(ts: Items, i: nat, cur: Span) -> Result<TokenView, ParseErrorView> {
    if i < ts.len() {
        match ts[i as int] {
            Ok(t) => Ok(t),
            Err(e) => Err(lex_failure(e)),
        }
    } else {
        Err(eof_error(cur))
    }
}

/// Consumes the next item.
pub open spec fn eat_at(ts: Items, i: nat, cur: Span) -> Parsed<TokenView> {
    if i < ts.len() {
        match ts[i as int] {
            Ok(t) => done(t, 1, t.span),
            Err(e) => failed(lex_failure(e), 1, cur),
        }
    } else {
        failed(eof_error(cur), 0, cur)
    }
}

/// Consumes the next token if it is of kind `want`; if not, nothing is
/// consumed.
pub open spec fn eat_if_at(ts: Items, i: nat, cur: Span, want: TokenKindView) -> Parsed<Span> {
    match peek_at(ts, i, cur) {
        Err(e) => failed(e, 0, cur),
        Ok(t) => if t.kind == want {
            done(t.span, 1, t.span)
        } else {
            failed(unexpected(t), 0, cur)
        },
    }
}

/// What the error says when a token of one kind stands where another is
/// required.
pub open spec fn mismatch_message(expected: TokenKindView, actual: TokenKindView) -> Seq<u8> {
    lit("unexpected kind of token given: eat_by(expected: ") + kind_text(expected) + lit(
        "), actual: ",
    ) + kind_text(actual) + lit(")")
}

/// Consumes the next item, which must be a token of kind `expected`.
pub open spec fn eat_by_at(ts: Items, i: nat, cur: Span, expected: TokenKindView) -> Parsed<Span> {
    let a = eat_at(ts, i, cur);
    match a.res {
        Err(e) => failed(e, a.used, a.cur),
        Ok(t) => if t.kind == expected {
            done(t.span, 1, t.span)
        } else {
            failed(
                ParseErrorView {
                    kind: ParseErrorKindView::InternalCompilerError(
                        mismatch_message(expected, t.kind),
                    ),
                    span: cur,
                    help: None,
                },
                1,
                t.span,
            )
        },
    }
}

/// The range from the start of `span` to `hi`.
pub open spec fn up_to(span: Span, hi: int) -> Span {
    Span::between(span.low(), hi)
}

/// `IDENT`. A keyword in its place is an error of its own.
pub open spec fn p_ident(ts: Items, i: nat, cur: Span) -> Parsed<Seq<u8>> {
    match peek_at(ts, i, cur) {
        Err(e) => failed(e, 0, cur),
        Ok(t) => match t.kind {
            TokenKindView::Ident(name) => done(name, 1, t.span),
            TokenKindView::Keyword(k) => failed(
                ParseErrorView {
                    kind: ParseErrorKindView::ReservedKeyword(k),
                    span: t.span,
                    help: None,
                },
                0,
                cur,
            ),
            _ => failed(unexpected(t), 0, cur),
        },
    }
}

/// The kind of declaration that a token starts.
pub open spec fn var_kind_of(kind: TokenKindView) -> Option<VariableDefKind> {
    match kind {
        TokenKindView::Keyword(KwKind::Static) => Some(VariableDefKind::Static),
        TokenKindView::Keyword(KwKind::Field) => Some(VariableDefKind::Field),
        TokenKindView::Keyword(KwKind::Var) => Some(VariableDefKind::Var),
        _ => None,
    }
}

/// The type that a token names.
pub open spec fn type_of(kind: TokenKindView) -> Option<TypeView> {
    match kind {
        TokenKindView::Keyword(KwKind::Int) => Some(TypeView::Int),
        TokenKindView::Keyword(KwKind::Char) => Some(TypeView::Char),
        TokenKindView::Keyword(KwKind::Boolean) => Some(TypeView::Boolean),
        TokenKindView::Keyword(KwKind::Void) => Some(TypeView::Void),
        TokenKindView::Ident(name) => Some(TypeView::Class(name)),
        _ => None,
    }
}

/// The type that a token names for a variable or a parameter: any type but
/// `void`, which only a function can return.
pub open spec fn value_type_of(kind: TokenKindView) -> Option<TypeView> {
    match type_of(kind) {
        Some(TypeView::Void) => None,
        t => t,
    }
}

/// The kind of function that a token starts.
pub open spec fn fn_kind_of(kind: TokenKindView) -> Option<FnKind> {
    match kind {
        TokenKindView::Keyword(KwKind::Ctor) => Some(FnKind::Ctor),
        TokenKindView::Keyword(KwKind::Function) => Some(FnKind::Function),
        TokenKindView::Keyword(KwKind::Method) => Some(FnKind::Method),
        _ => None,
    }
}

/// The binary operator that a token is.
pub open spec fn bin_op_of(kind: TokenKindView) -> Option<BinOp> {
    match kind {
        TokenKindView::Plus => Some(BinOp::Plus),
        TokenKindView::Minus => Some(BinOp::Minus),
        TokenKindView::Mul => Some(BinOp::Mul),
        TokenKindView::Slash => Some(BinOp::Div),
        TokenKindView::And => Some(BinOp::And),
        TokenKindView::Or => Some(BinOp::Or),
        TokenKindView::Equal => Some(BinOp::Equal),
        TokenKindView::Lt => Some(BinOp::Lt),
        TokenKindView::Gt => Some(BinOp::Gt),
        _ => None,
    }
}

/// The unary operator that a token is.
pub open spec fn unary_op_of(kind: TokenKindView) -> Option<UnaryOp> {
    match kind {
        TokenKindView::Minus => Some(UnaryOp::Minus),
        TokenKindView::Tilde => Some(UnaryOp::Not),
        _ => None,
    }
}

/// The constant that a token is.
pub open spec fn constant_of(kind: TokenKindView) -> Option<ConstantView> {
    match kind {
        TokenKindView::Integer(n) => Some(ConstantView::Integer(n)),
        TokenKindView::Str(s) => Some(ConstantView::Str(s)),
        TokenKindView::Keyword(KwKind::True) => Some(ConstantView::True),
        TokenKindView::Keyword(KwKind::False) => Some(ConstantView::False),
        TokenKindView::Keyword(KwKind::Null) => Some(ConstantView::Null),
        TokenKindView::Keyword(KwKind::This) => Some(ConstantView::This),
        _ => None,
    }
}

/// A rule of one token: the token is consumed if `pick` knows its kind.
pub open spec fn one_token<T>(
    ts: Items,
    i: nat,
    cur: Span,
    pick: spec_fn(TokenKindView) -> Option<T>,
) -> Parsed<T> {
    match peek_at(ts, i, cur) {
        Err(e) => failed(e, 0, cur),
        Ok(t) => match pick(t.kind) {
            Some(v) => done(v, 1, t.span),
            None => failed(unexpected(t), 0, cur),
        },
    }
}

/// `"static" | "field" | "var"`
pub open spec fn p_var_kind(ts: Items, i: nat, cur: Span) -> Parsed<VariableDefKind> {
    one_token(ts, i, cur, |k: TokenKindView| var_kind_of(k))
}

/// `"int" | "char" | "boolean" | "void" | IDENT`
pub open spec fn p_type(ts: Items, i: nat, cur: Span) -> Parsed<TypeView> {
    one_token(ts, i, cur, |k: TokenKindView| type_of(k))
}

/// `"constructor" | "function" | "method"`
pub open spec fn p_fn_kind(ts: Items, i: nat, cur: Span) -> Parsed<FnKind> {
    one_token(ts, i, cur, |k: TokenKindView| fn_kind_of(k))
}

/// `"+" | "-" | "*" | "/" | "&" | "|" | "=" | "<" | ">"`
pub open spec fn p_bin_op(ts: Items, i: nat, cur: Span) -> Parsed<BinOp> {
    one_token(ts, i, cur, |k: TokenKindView| bin_op_of(k))
}

/// `"int" | "char" | "boolean" | IDENT`: the type of a variable or of a
/// parameter.
pub open spec fn p_value_type(ts: Items, i: nat, cur: Span) -> Parsed<TypeView> {
    one_token(ts, i, cur, |k: TokenKindView| value_type_of(k))
}

/// `"-" | "~"`
pub open spec fn p_unary_op(ts: Items, i: nat, cur: Span) -> Parsed<UnaryOp> {
    one_token(ts, i, cur, |k: TokenKindView| unary_op_of(k))
}

/// Whether a token is a number that is larger than a constant can be.
pub open spec fn too_large(kind: TokenKindView) -> bool {
    kind matches TokenKindView::Integer(n) && n > MAX_INTEGER
}

/// The error for a number that is larger than a constant can be: the number
/// is not well formed.
pub open spec fn out_of_range(t: TokenView) -> ParseErrorView {
    lex_failure(LexError { span: t.span, kind: LexErrorKind::InvalidNumberFormat })
}

/// A number up to `MAX_INTEGER`, a string, `true`, `false`, `null` or `this`.
/// A larger number is a lexical error at the number.
pub open spec fn p_constant(ts: Items, i: nat, cur: Span) -> Parsed<ConstantView> {
    match peek_at(ts, i, cur) {
        Err(e) => failed(e, 0, cur),
        Ok(t) => if too_large(t.kind) {
            failed(out_of_range(t), 0, cur)
        } else {
            one_token(ts, i, cur, |k: TokenKindView| constant_of(k))
        },
    }
}

/// `("," IDENT)*`: one more definition of the same kind and type for each
/// name.
pub open spec fn p_var_names(
    ts: Items,
    i: nat,
    cur: Span,
    kind: VariableDefKind,
    ty: TypeView,
    acc: Seq<VariableDefView>,
) -> Parsed<Seq<VariableDefView>>
    decreases left(ts, i),
{
    let c = eat_if_at(ts, i, cur, TokenKindView::Comma);
    match c.res {
        Err(_) => done(acc, 0, cur),
        Ok(_) => {
            let n = p_ident(ts, i + 1, c.cur);
            match n.res {
                Err(e) => failed(e, 1 + n.used, n.cur),
                Ok(name) => p_var_names(
                    ts,
                    i + 1 + n.used,
                    n.cur,
                    kind,
                    ty,
                    acc.push(VariableDefView { name, kind, ty, span: n.cur }),
                ).after(1 + n.used),
            }
        },
    }
}

/// `("static" | "field" | "var") type IDENT ("," IDENT)* ";"`
pub open spec fn p_var_defs(ts: Items, i: nat, cur: Span) -> Parsed<Seq<VariableDefView>> {
    let k = p_var_kind(ts, i, cur);
    match k.res {
        Err(e) => failed(e, k.used, k.cur),
        Ok(kind) => {
            let t = p_value_type(ts, i + 1, k.cur);
            match t.res {
                Err(e) => failed(e, 1 + t.used, t.cur),
                Ok(ty) => {
                    let n = p_ident(ts, i + 2, t.cur);
                    match n.res {
                        Err(e) => failed(e, 2 + n.used, n.cur),
                        Ok(name) => {
                            let first = VariableDefView { name, kind, ty, span: n.cur };
                            let r = p_var_names(ts, i + 3, n.cur, kind, ty, seq![first]);
                            match r.res {
                                Err(e) => failed(e, 3 + r.used, r.cur),
                                Ok(vars) => {
                                    let s = eat_by_at(
                                        ts,
                                        i + 3 + r.used,
                                        r.cur,
                                        TokenKindView::Semicolon,
                                    );
                                    match s.res {
                                        Err(e) => failed(e, 3 + r.used + s.used, s.cur),
                                        Ok(_) => done(vars, 3 + r.used + s.used, s.cur),
                                    }
                                },
                            }
                        },
                    }
                },
            }
        },
    }
}

/// `type IDENT`
pub open spec fn p_param(ts: Items, i: nat, cur: Span) -> Parsed<ParameterView> {
    let t = p_value_type(ts, i, cur);
    match t.res {
        Err(e) => failed(e, t.used, t.cur),
        Ok(ty) => {
            let n = p_ident(ts, i + 1, t.cur);
            match n.res {
                Err(e) => failed(e, 1 + n.used, n.cur),
                Ok(name) => done(
                    ParameterView { name, ty, span: up_to(t.cur, n.cur.high()) },
                    2,
                    n.cur,
                ),
            }
        },
    }
}

/// `("," type IDENT)*`; `acc` holds the parameters read before.
pub open spec fn p_params_rest(ts: Items, i: nat, cur: Span, acc: Seq<ParameterView>) -> Parsed<
    Seq<ParameterView>,
>
    decreases left(ts, i),
{
    let c = eat_if_at(ts, i, cur, TokenKindView::Comma);
    match c.res {
        Err(_) => done(acc, 0, cur),
        Ok(_) => {
            let p = p_param(ts, i + 1, c.cur);
            match p.res {
                Err(e) => failed(e, 1 + p.used, p.cur),
                Ok(x) => p_params_rest(ts, i + 1 + p.used, p.cur, acc.push(x)).after(1 + p.used),
            }
        },
    }
}

/// `(type IDENT ("," type IDENT)*)?`: where no first parameter can be read,
/// the list is empty.
pub open spec fn p_params(ts: Items, i: nat, cur: Span) -> Parsed<Seq<ParameterView>> {
    let a = p_param(ts, i, cur);
    match a.res {
        Err(_) => done(Seq::empty(), a.used, a.cur),
        Ok(first) => p_params_rest(ts, i + a.used, a.cur, seq![first]).after(a.used),
    }
}

/// The keywords that start a statement.
#[derive(Debug, Clone, Copy, PartialEq, Eq, Structural)]
pub enum StmtKw {
    Let,
    If,
    While,
    Do,
    Return,
}

/// The keyword of a statement that a token is.
pub open spec fn stmt_kw_of(kind: TokenKindView) -> Option<StmtKw> {
    match kind {
        TokenKindView::Keyword(KwKind::Let) => Some(StmtKw::Let),
        TokenKindView::Keyword(KwKind::If) => Some(StmtKw::If),
        TokenKindView::Keyword(KwKind::While) => Some(StmtKw::While),
        TokenKindView::Keyword(KwKind::Do) => Some(StmtKw::Do),
        TokenKindView::Keyword(KwKind::Return) => Some(StmtKw::Return),
        _ => None,
    }
}

/// Whether a list of statements goes on at `i`: a token comes next, and it is
/// not `}`.
pub open spec fn goes_on(ts: Items, i: nat) -> bool {
    i < ts.len() && ts[i as int] is Ok && ts[i as int]->Ok_0.kind != TokenKindView::RBrace
}

/// `term (bin_op term)?`
pub open spec fn p_expr(ts: Items, i: nat, cur: Span) -> Parsed<ExprView>
    decreases left(ts, i), 1nat,
{
    let a = p_term(ts, i, cur);
    match a.res {
        Err(e) => failed(e, a.used, a.cur),
        Ok(lhs) => {
            let i1 = i + a.used;
            let o = p_bin_op(ts, i1, a.cur);
            match o.res {
                Err(_) => done(ExprView { lhs: Box::new(lhs), rhs: None }, a.used, a.cur),
                Ok(op) => {
                    let b = p_term(ts, i1 + 1, o.cur);
                    match b.res {
                        Err(e) => failed(e, a.used + 1 + b.used, b.cur),
                        Ok(rhs) => done(
                            ExprView { lhs: Box::new(lhs), rhs: Some(Box::new((op, rhs))) },
                            a.used + 1 + b.used,
                            b.cur,
                        ),
                    }
                },
            }
        },
    }
}

/// `"(" args ")"` behind the name of a function: the call, and the end of
/// its range.
pub open spec fn p_call_args(
    ts: Items,
    i: nat,
    cur: Span,
    receiver: Option<Seq<u8>>,
    fn_name: Seq<u8>,
) -> Parsed<(FnCallView, int)>
    decreases left(ts, i), 4nat,
{
    let l = eat_by_at(ts, i, cur, TokenKindView::LParen);
    match l.res {
        Err(e) => failed(e, l.used, l.cur),
        Ok(_) => {
            let a = p_exprs(ts, i + 1, l.cur);
            match a.res {
                Err(e) => failed(e, 1 + a.used, a.cur),
                Ok(args) => {
                    let r = eat_by_at(ts, i + 1 + a.used, a.cur, TokenKindView::RParen);
                    match r.res {
                        Err(e) => failed(e, 1 + a.used + r.used, r.cur),
                        Ok(close) => done(
                            (FnCallView { receiver, fn_name, args }, close.high()),
                            1 + a.used + r.used,
                            r.cur,
                        ),
                    }
                },
            }
        },
    }
}

/// `("[" expr "]")?` behind the name of a variable, whose range is `span`.
pub open spec fn p_index(ts: Items, i: nat, span: Span, name: Seq<u8>) -> Parsed<VariableView>
    decreases left(ts, i), 4nat,
{
    let l = eat_if_at(ts, i, span, TokenKindView::LBracket);
    match l.res {
        Err(_) => done(VariableView { name, index_accessor: None, span }, 0, span),
        Ok(_) => {
            let e = p_expr(ts, i + 1, l.cur);
            match e.res {
                Err(x) => failed(x, 1 + e.used, e.cur),
                Ok(index) => {
                    let r = eat_by_at(ts, i + 1 + e.used, e.cur, TokenKindView::RBracket);
                    match r.res {
                        Err(x) => failed(x, 1 + e.used + r.used, r.cur),
                        Ok(close) => done(
                            VariableView {
                                name,
                                index_accessor: Some(Box::new(index)),
                                span: up_to(span, close.high()),
                            },
                            1 + e.used + r.used,
                            r.cur,
                        ),
                    }
                },
            }
        },
    }
}

/// A call as a term: its arguments behind the name `fn_name`. The term starts
/// where `span` starts.
pub open spec fn p_call_term(
    ts: Items,
    i: nat,
    cur: Span,
    span: Span,
    receiver: Option<Seq<u8>>,
    fn_name: Seq<u8>,
) -> Parsed<TermView>
    decreases left(ts, i), 5nat,
{
    let c = p_call_args(ts, i, cur, receiver, fn_name);
    match c.res {
        Err(e) => failed(e, c.used, c.cur),
        Ok(call) => done(
            TermView { kind: TermKindView::FnCall(call.0), span: up_to(span, call.1) },
            c.used,
            c.cur,
        ),
    }
}

/// A call with a receiver as a term: the name of the function and its
/// arguments, behind the receiver `name` and the dot.
pub open spec fn p_method_term(ts: Items, i: nat, cur: Span, span: Span, name: Seq<u8>) -> Parsed<
    TermView,
>
    decreases left(ts, i), 6nat,
{
    let n = p_ident(ts, i, cur);
    match n.res {
        Err(e) => failed(e, n.used, n.cur),
        Ok(fn_name) => p_call_term(ts, i + 1, n.cur, span, Some(name), fn_name).after(1),
    }
}

/// A variable as a term: its index, if it has one, behind its name.
pub open spec fn p_variable_term(ts: Items, i: nat, span: Span, name: Seq<u8>) -> Parsed<TermView>
    decreases left(ts, i), 5nat,
{
    let v = p_index(ts, i, span, name);
    match v.res {
        Err(e) => failed(e, v.used, v.cur),
        Ok(variable) => done(
            TermView { kind: TermKindView::Variable(variable), span: variable.span },
            v.used,
            v.cur,
        ),
    }
}

/// What follows a name at the start of a term: `(` makes it a call, `.` a
/// call with a receiver, `[` an indexed variable, anything else a variable.
pub open spec fn p_named_term(ts: Items, i: nat, span: Span, name: Seq<u8>) -> Parsed<TermView>
    decreases left(ts, i), 7nat,
{
    let dot = eat_if_at(ts, i, span, TokenKindView::Dot);
    if eat_if_at(ts, i, span, TokenKindView::LParen).res is Ok {
        p_call_term(ts, i, span, span, None, name)
    } else if dot.res is Ok {
        p_method_term(ts, i + 1, dot.cur, span, name).after(1)
    } else {
        p_variable_term(ts, i, span, name)
    }
}

/// `const | unary_op term | "(" expr ")" | fn_call | variable`
pub open spec fn p_term(ts: Items, i: nat, cur: Span) -> Parsed<TermView>
    decreases left(ts, i), 0nat,
{
    let c = p_constant(ts, i, cur);
    let u = p_unary_op(ts, i, cur);
    let l = eat_if_at(ts, i, cur, TokenKindView::LParen);
    let n = p_ident(ts, i, cur);
    if c.res is Ok {
        done(TermView { kind: TermKindView::Const(c.res->Ok_0), span: c.cur }, 1, c.cur)
    } else if c.res->Err_0.kind is LexError {
        failed(c.res->Err_0, 0, cur)
    } else if u.res is Ok {
        let t = p_term(ts, i + 1, u.cur);
        match t.res {
            Err(e) => failed(e, 1 + t.used, t.cur),
            Ok(term) => done(
                TermView {
                    kind: TermKindView::Unary { op: u.res->Ok_0, term: Box::new(term) },
                    span: up_to(u.cur, term.span.high()),
                },
                1 + t.used,
                t.cur,
            ),
        }
    } else if l.res is Ok {
        let e = p_expr(ts, i + 1, l.cur);
        match e.res {
            Err(x) => failed(x, 1 + e.used, e.cur),
            Ok(expr) => {
                let r = eat_by_at(ts, i + 1 + e.used, e.cur, TokenKindView::RParen);
                match r.res {
                    Err(x) => failed(x, 1 + e.used + r.used, r.cur),
                    Ok(close) => done(
                        TermView {
                            kind: TermKindView::Expr(Box::new(expr)),
                            span: up_to(l.cur, close.high()),
                        },
                        1 + e.used + r.used,
                        r.cur,
                    ),
                }
            },
        }
    } else if n.res is Ok {
        p_named_term(ts, i + 1, n.cur, n.res->Ok_0).after(1)
    } else {
        match peek_at(ts, i, cur) {
            Err(e) => failed(e, 0, cur),
            Ok(t) => failed(unexpected(t), 0, cur),
        }
    }
}

/// `("," expr)*`; `acc` holds the expressions read before.
pub open spec fn p_exprs_rest(ts: Items, i: nat, cur: Span, acc: Seq<ExprView>) -> Parsed<
    Seq<ExprView>,
>
    decreases left(ts, i), 2nat,
{
    let c = eat_if_at(ts, i, cur, TokenKindView::Comma);
    match c.res {
        Err(_) => done(acc, 0, cur),
        Ok(_) => {
            let e = p_expr(ts, i + 1, c.cur);
            match e.res {
                Err(x) => failed(x, 1 + e.used, e.cur),
                Ok(v) => p_exprs_rest(ts, i + 1 + e.used, e.cur, acc.push(v)).after(1 + e.used),
            }
        },
    }
}

/// `(expr ("," expr)*)?`: where no first expression can be read, the list is
/// empty, unless a lexical error is in the way.
pub open spec fn p_exprs(ts: Items, i: nat, cur: Span) -> Parsed<Seq<ExprView>>
    decreases left(ts, i), 3nat,
{
    let a = p_expr(ts, i, cur);
    match a.res {
        Err(e) => if e.kind is LexError {
            failed(e, a.used, a.cur)
        } else {
            done(Seq::empty(), a.used, a.cur)
        },
        Ok(first) => p_exprs_rest(ts, i + a.used, a.cur, seq![first]).after(a.used),
    }
}

/// `IDENT ("[" expr "]")?`
pub open spec fn p_variable(ts: Items, i: nat, cur: Span) -> Parsed<VariableView>
    decreases left(ts, i), 5nat,
{
    let n = p_ident(ts, i, cur);
    match n.res {
        Err(e) => failed(e, n.used, n.cur),
        Ok(name) => p_index(ts, i + 1, n.cur, name).after(1),
    }
}

/// The arguments of a call behind the name `fn_name`.
pub open spec fn p_call(
    ts: Items,
    i: nat,
    cur: Span,
    receiver: Option<Seq<u8>>,
    fn_name: Seq<u8>,
) -> Parsed<FnCallView>
    decreases left(ts, i), 5nat,
{
    let c = p_call_args(ts, i, cur, receiver, fn_name);
    match c.res {
        Err(e) => failed(e, c.used, c.cur),
        Ok(call) => done(call.0, c.used, c.cur),
    }
}

/// The name of a method and its arguments, behind `receiver` and the dot.
pub open spec fn p_method_call(ts: Items, i: nat, cur: Span, receiver: Seq<u8>) -> Parsed<
    FnCallView,
>
    decreases left(ts, i), 6nat,
{
    let n = p_ident(ts, i, cur);
    match n.res {
        Err(e) => failed(e, n.used, n.cur),
        Ok(name) => p_call(ts, i + 1, n.cur, Some(receiver), name).after(1),
    }
}

/// `IDENT ("." IDENT)? "(" args ")"`
pub open spec fn p_fn_call(ts: Items, i: nat, cur: Span) -> Parsed<FnCallView>
    decreases left(ts, i), 7nat,
{
    let n = p_ident(ts, i, cur);
    match n.res {
        Err(e) => failed(e, n.used, n.cur),
        Ok(first) => {
            let d = eat_if_at(ts, i + 1, n.cur, TokenKindView::Dot);
            match d.res {
                Err(_) => p_call(ts, i + 1, n.cur, None, first).after(1),
                Ok(_) => p_method_call(ts, i + 2, d.cur, first).after(2),
            }
        },
    }
}

/// `"{" stmt* "}"`
pub open spec fn p_block(ts: Items, i: nat, cur: Span) -> Parsed<Seq<StmtView>>
    decreases left(ts, i), 3nat,
{
    let l = eat_by_at(ts, i, cur, TokenKindView::LBrace);
    match l.res {
        Err(e) => failed(e, l.used, l.cur),
        Ok(_) => {
            let b = p_stmts(ts, i + 1, l.cur, Seq::empty());
            match b.res {
                Err(e) => failed(e, 1 + b.used, b.cur),
                Ok(body) => {
                    let r = eat_by_at(ts, i + 1 + b.used, b.cur, TokenKindView::RBrace);
                    match r.res {
                        Err(e) => failed(e, 1 + b.used + r.used, r.cur),
                        Ok(_) => done(body, 1 + b.used + r.used, r.cur),
                    }
                },
            }
        },
    }
}

/// `"(" expr ")" "{" stmt* "}"`: the condition and the body of an `if` or a
/// `while`.
pub open spec fn p_cond_block(ts: Items, i: nat, cur: Span) -> Parsed<(ExprView, Seq<StmtView>)>
    decreases left(ts, i), 4nat,
{
    let l = eat_by_at(ts, i, cur, TokenKindView::LParen);
    match l.res {
        Err(e) => failed(e, l.used, l.cur),
        Ok(_) => {
            let c = p_expr(ts, i + 1, l.cur);
            match c.res {
                Err(e) => failed(e, 1 + c.used, c.cur),
                Ok(cond) => {
                    let r = eat_by_at(ts, i + 1 + c.used, c.cur, TokenKindView::RParen);
                    match r.res {
                        Err(e) => failed(e, 1 + c.used + r.used, r.cur),
                        Ok(_) => {
                            let b = p_block(ts, i + 2 + c.used, r.cur);
                            match b.res {
                                Err(e) => failed(e, 2 + c.used + b.used, b.cur),
                                Ok(body) => done((cond, body), 2 + c.used + b.used, b.cur),
                            }
                        },
                    }
                },
            }
        },
    }
}

/// `IDENT ("[" expr "]")? "=" expr ";"` behind `let`, whose range is `span`.
pub open spec fn p_let(ts: Items, i: nat, span: Span) -> Parsed<StmtView>
    decreases left(ts, i), 8nat,
{
    let v = p_variable(ts, i, span);
    match v.res {
        Err(e) => failed(e, v.used, v.cur),
        Ok(lhs) => {
            let q = eat_by_at(ts, i + v.used, v.cur, TokenKindView::Equal);
            match q.res {
                Err(e) => failed(e, v.used + q.used, q.cur),
                Ok(_) => {
                    let r = p_expr(ts, i + v.used + 1, q.cur);
                    match r.res {
                        Err(e) => failed(e, v.used + 1 + r.used, r.cur),
                        Ok(rhs) => {
                            let s = eat_by_at(
                                ts,
                                i + v.used + 1 + r.used,
                                r.cur,
                                TokenKindView::Semicolon,
                            );
                            match s.res {
                                Err(e) => failed(e, v.used + 1 + r.used + s.used, s.cur),
                                Ok(_) => done(
                                    StmtView {
                                        kind: StmtKindView::Let { lhs, rhs },
                                        span: up_to(span, s.cur.high()),
                                    },
                                    v.used + 1 + r.used + s.used,
                                    s.cur,
                                ),
                            }
                        },
                    }
                },
            }
        },
    }
}

/// `"(" expr ")" "{" stmt* "}" ("else" "{" stmt* "}")?` behind `if`.
pub open spec fn p_if(ts: Items, i: nat, span: Span) -> Parsed<StmtView>
    decreases left(ts, i), 8nat,
{
    let c = p_cond_block(ts, i, span);
    match c.res {
        Err(e) => failed(e, c.used, c.cur),
        Ok(cb) => {
            let i1 = i + c.used;
            let k = eat_if_at(ts, i1, c.cur, TokenKindView::Keyword(KwKind::Else));
            match k.res {
                Err(_) => done(
                    StmtView {
                        kind: StmtKindView::If {
                            cond: cb.0,
                            then_branch: cb.1,
                            else_branch: None,
                        },
                        span: up_to(span, c.cur.high()),
                    },
                    c.used,
                    c.cur,
                ),
                Ok(_) => {
                    let b = p_block(ts, i1 + 1, k.cur);
                    match b.res {
                        Err(e) => failed(e, c.used + 1 + b.used, b.cur),
                        Ok(els) => done(
                            StmtView {
                                kind: StmtKindView::If {
                                    cond: cb.0,
                                    then_branch: cb.1,
                                    else_branch: Some(els),
                                },
                                span: up_to(span, b.cur.high()),
                            },
                            c.used + 1 + b.used,
                            b.cur,
                        ),
                    }
                },
            }
        },
    }
}

/// `"(" expr ")" "{" stmt* "}"` behind `while`.
pub open spec fn p_while(ts: Items, i: nat, span: Span) -> Parsed<StmtView>
    decreases left(ts, i), 8nat,
{
    let c = p_cond_block(ts, i, span);
    match c.res {
        Err(e) => failed(e, c.used, c.cur),
        Ok(cb) => done(
            StmtView {
                kind: StmtKindView::While { cond: cb.0, body: cb.1 },
                span: up_to(span, c.cur.high()),
            },
            c.used,
            c.cur,
        ),
    }
}

/// `fn_call ";"` behind `do`.
pub open spec fn p_do(ts: Items, i: nat, span: Span) -> Parsed<StmtView>
    decreases left(ts, i), 8nat,
{
    let c = p_fn_call(ts, i, span);
    match c.res {
        Err(e) => failed(e, c.used, c.cur),
        Ok(call) => {
            let s = eat_by_at(ts, i + c.used, c.cur, TokenKindView::Semicolon);
            match s.res {
                Err(e) => failed(e, c.used + s.used, s.cur),
                Ok(_) => done(
                    StmtView {
                        kind: StmtKindView::Do(call),
                        span: up_to(span, s.cur.high()),
                    },
                    c.used + s.used,
                    s.cur,
                ),
            }
        },
    }
}

/// `expr? ";"` behind `return`.
pub open spec fn p_return(ts: Items, i: nat, span: Span) -> Parsed<StmtView>
    decreases left(ts, i), 8nat,
{
    match peek_at(ts, i, span) {
        Err(e) => failed(e, 0, span),
        Ok(t) => {
            if t.kind == TokenKindView::Semicolon {
                done(
                    StmtView {
                        kind: StmtKindView::Return(None),
                        span: up_to(span, t.span.high()),
                    },
                    1,
                    t.span,
                )
            } else {
                let r = p_expr(ts, i, span);
                match r.res {
                    Err(e) => failed(e, r.used, r.cur),
                    Ok(value) => {
                        let s = eat_by_at(ts, i + r.used, r.cur, TokenKindView::Semicolon);
                        match s.res {
                            Err(e) => failed(e, r.used + s.used, s.cur),
                            Ok(_) => done(
                                StmtView {
                                    kind: StmtKindView::Return(Some(value)),
                                    span: up_to(span, s.cur.high()),
                                },
                                r.used + s.used,
                                s.cur,
                            ),
                        }
                    },
                }
            }
        },
    }
}

/// A statement behind its keyword `kw`, whose range is `span`.
pub open spec fn p_stmt_body(ts: Items, i: nat, span: Span, kw: StmtKw) -> Parsed<StmtView>
    decreases left(ts, i), 9nat,
{
    match kw {
        StmtKw::Let => p_let(ts, i, span),
        StmtKw::If => p_if(ts, i, span),
        StmtKw::While => p_while(ts, i, span),
        StmtKw::Do => p_do(ts, i, span),
        StmtKw::Return => p_return(ts, i, span),
    }
}

/// `stmt*`, up to a `}`, the end of the stream or a lexical error.
pub open spec fn p_stmts(ts: Items, i: nat, cur: Span, acc: Seq<StmtView>) -> Parsed<
    Seq<StmtView>,
>
    decreases left(ts, i), 2nat,
{
    if goes_on(ts, i) {
        let t = ts[i as int]->Ok_0;
        match stmt_kw_of(t.kind) {
            None => failed(unexpected(t), 0, cur),
            Some(kw) => {
                let s = p_stmt_body(ts, i + 1, t.span, kw);
                match s.res {
                    Err(e) => failed(e, 1 + s.used, s.cur),
                    Ok(stmt) => p_stmts(ts, i + 1 + s.used, s.cur, acc.push(stmt)).after(
                        1 + s.used,
                    ),
                }
            },
        }
    } else {
        done(acc, 0, cur)
    }
}

/// `let | if | while | do | return`
pub open spec fn p_stmt(ts: Items, i: nat, cur: Span) -> Parsed<StmtView> {
    match peek_at(ts, i, cur) {
        Err(e) => failed(e, 0, cur),
        Ok(t) => match stmt_kw_of(t.kind) {
            None => failed(unexpected(t), 0, cur),
            Some(kw) => p_stmt_body(ts, i + 1, t.span, kw).after(1),
        },
    }
}

/// A list of declarations that was read is not empty.
pub proof fn lemma_var_defs_progress(ts: Items, i: nat, cur: Span)
    ensures
        p_var_defs(ts, i, cur).res is Ok ==> p_var_defs(ts, i, cur).used >= 1 && i < ts.len(),
{
}

/// A statement that was read is not empty.
pub proof fn lemma_stmt_progress(ts: Items, i: nat, cur: Span)
    ensures
        p_stmt(ts, i, cur).res is Ok ==> p_stmt(ts, i, cur).used >= 1 && i < ts.len(),
{
}

/// A function that was read is not empty.
pub proof fn lemma_fn_def_progress(ts: Items, i: nat, cur: Span)
    ensures
        p_fn_def(ts, i, cur).res is Ok ==> p_fn_def(ts, i, cur).used >= 1 && i < ts.len(),
{
}

/// `var_decl* stmt*`, in any order, up to a `}` or to what is neither: the
/// body ends there, and what follows decides whether the function is well
/// formed. A lexical error ends the function.
pub open spec fn p_fn_body(
    ts: Items,
    i: nat,
    cur: Span,
    variables: Seq<VariableDefView>,
    statements: Seq<StmtView>,
) -> Parsed<FnBodyView>
    decreases left(ts, i),
{
    if goes_on(ts, i) {
        let a = p_var_defs(ts, i, cur);
        match a.res {
            Ok(vs) => {
                proof {
                    lemma_var_defs_progress(ts, i, cur);
                }
                p_fn_body(ts, i + a.used, a.cur, variables + vs, statements).after(a.used)
            },
            Err(e) => if e.kind is LexError {
                failed(e, a.used, a.cur)
            } else {
                let b = p_stmt(ts, i + a.used, a.cur);
                match b.res {
                    Ok(stmt) => {
                        proof {
                            lemma_stmt_progress(ts, i + a.used, a.cur);
                        }
                        p_fn_body(
                            ts,
                            i + a.used + b.used,
                            b.cur,
                            variables,
                            statements.push(stmt),
                        ).after(a.used + b.used)
                    },
                    Err(e) => if e.kind is LexError {
                        failed(e, a.used + b.used, b.cur)
                    } else {
                        done(FnBodyView { variables, statements }, a.used + b.used, b.cur)
                    },
                }
            },
        }
    } else {
        done(FnBodyView { variables, statements }, 0, cur)
    }
}

/// `("constructor" | "function" | "method") type IDENT "(" params ")" "{" body "}"`
pub open spec fn p_fn_def(ts: Items, i: nat, cur: Span) -> Parsed<FnDefView> {
    let k = p_fn_kind(ts, i, cur);
    match k.res {
        Err(e) => failed(e, k.used, k.cur),
        Ok(kind) => {
            let t = p_type(ts, i + 1, k.cur);
            match t.res {
                Err(e) => failed(e, 1 + t.used, t.cur),
                Ok(ret) => {
                    let n = p_ident(ts, i + 2, t.cur);
                    match n.res {
                        Err(e) => failed(e, 2 + n.used, n.cur),
                        Ok(name) => {
                            let l = eat_by_at(ts, i + 3, n.cur, TokenKindView::LParen);
                            match l.res {
                                Err(e) => failed(e, 3 + l.used, l.cur),
                                Ok(_) => {
                                    let p = p_params(ts, i + 4, l.cur);
                                    match p.res {
                                        Err(e) => failed(e, 4 + p.used, p.cur),
                                        Ok(params) => p_fn_rest(
                                            ts,
                                            i + 4 + p.used,
                                            p.cur,
                                            FnDefView {
                                                name,
                                                span: n.cur,
                                                kind,
                                                ret,
                                                params,
                                                body: FnBodyView {
                                                    variables: Seq::empty(),
                                                    statements: Seq::empty(),
                                                },
                                            },
                                        ).after(4 + p.used),
                                    }
                                },
                            }
                        },
                    }
                },
            }
        },
    }
}

/// `")" "{" body "}"`: the rest of a function behind its parameters; `head`
/// holds what was read before.
pub open spec fn p_fn_rest(ts: Items, i: nat, cur: Span, head: FnDefView) -> Parsed<FnDefView> {
    let r = eat_by_at(ts, i, cur, TokenKindView::RParen);
    match r.res {
        Err(e) => failed(e, r.used, r.cur),
        Ok(_) => {
            let l = eat_by_at(ts, i + 1, r.cur, TokenKindView::LBrace);
            match l.res {
                Err(e) => failed(e, 1 + l.used, l.cur),
                Ok(_) => {
                    let b = p_fn_body(ts, i + 2, l.cur, Seq::empty(), Seq::empty());
                    match b.res {
                        Err(e) => failed(e, 2 + b.used, b.cur),
                        Ok(body) => {
                            let c = eat_by_at(ts, i + 2 + b.used, b.cur, TokenKindView::RBrace);
                            match c.res {
                                Err(e) => failed(e, 2 + b.used + c.used, c.cur),
                                Ok(_) => done(
                                    FnDefView {
                                        name: head.name,
                                        span: head.span,
                                        kind: head.kind,
                                        ret: head.ret,
                                        params: head.params,
                                        body,
                                    },
                                    2 + b.used + c.used,
                                    c.cur,
                                ),
                            }
                        },
                    }
                },
            }
        },
    }
}

/// `class_var*`: ends where no declaration can be read. A lexical error ends
/// the class.
pub open spec fn p_class_vars(ts: Items, i: nat, cur: Span, acc: Seq<VariableDefView>) -> Parsed<
    Seq<VariableDefView>,
>
    decreases left(ts, i),
{
    let a = p_var_defs(ts, i, cur);
    match a.res {
        Ok(vs) => {
            proof {
                lemma_var_defs_progress(ts, i, cur);
            }
            p_class_vars(ts, i + a.used, a.cur, acc + vs).after(a.used)
        },
        Err(e) => if e.kind is LexError {
            failed(e, a.used, a.cur)
        } else {
            done(acc, a.used, a.cur)
        },
    }
}

/// `fn_def*`: ends where no function can be read. A lexical error ends the
/// class.
pub open spec fn p_class_fns(ts: Items, i: nat, cur: Span, acc: Seq<FnDefView>) -> Parsed<
    Seq<FnDefView>,
>
    decreases left(ts, i),
{
    let a = p_fn_def(ts, i, cur);
    match a.res {
        Ok(f) => {
            proof {
                lemma_fn_def_progress(ts, i, cur);
            }
            p_class_fns(ts, i + a.used, a.cur, acc.push(f)).after(a.used)
        },
        Err(e) => if e.kind is LexError {
            failed(e, a.used, a.cur)
        } else {
            done(acc, a.used, a.cur)
        },
    }
}

/// The hint for a class whose name is the keyword `k`.
pub open spec fn class_name_help(k: KwKind) -> Seq<u8> {
    lit("you cannot use the keyword `") + kw_text(k) + lit("` for a class name")
}

/// The error for a class without a name: where a keyword stands in its
/// place, a hint says so.
pub open spec fn class_name_error(e: ParseErrorView) -> ParseErrorView {
    match e.kind {
        ParseErrorKindView::ReservedKeyword(k) => ParseErrorView {
            kind: e.kind,
            span: e.span,
            help: Some(class_name_help(k)),
        },
        _ => e,
    }
}

/// `"class" IDENT "{" class_var* fn_def* "}"`
pub open spec fn p_class(ts: Items, i: nat, cur: Span) -> Parsed<ClassView> {
    let k = eat_if_at(ts, i, cur, TokenKindView::Keyword(KwKind::Class));
    match k.res {
        Err(e) => failed(e, k.used, k.cur),
        Ok(_) => {
            let n = p_ident(ts, i + 1, k.cur);
            match n.res {
                Err(e) => failed(class_name_error(e), 1 + n.used, n.cur),
                Ok(name) => {
                    let l = eat_by_at(ts, i + 2, n.cur, TokenKindView::LBrace);
                    match l.res {
                        Err(e) => failed(e, 2 + l.used, l.cur),
                        Ok(_) => {
                            let v = p_class_vars(ts, i + 3, l.cur, Seq::empty());
                            match v.res {
                                Err(e) => failed(e, 3 + v.used, v.cur),
                                Ok(variables) => {
                                    let f = p_class_fns(
                                        ts,
                                        i + 3 + v.used,
                                        v.cur,
                                        Seq::empty(),
                                    );
                                    match f.res {
                                        Err(e) => failed(e, 3 + v.used + f.used, f.cur),
                                        Ok(functions) => {
                                            let r = eat_by_at(
                                                ts,
                                                i + 3 + v.used + f.used,
                                                f.cur,
                                                TokenKindView::RBrace,
                                            );
                                            match r.res {
                                                Err(e) => failed(
                                                    e,
                                                    3 + v.used + f.used + r.used,
                                                    r.cur,
                                                ),
                                                Ok(_) => done(
                                                    ClassView {
                                                        name,
                                                        span: n.cur,
                                                        variables,
                                                        functions,
                                                    },
                                                    3 + v.used + f.used + r.used,
                                                    r.cur,
                                                ),
                                            }
                                        },
                                    }
                                },
                            }
                        },
                    }
                },
            }
        },
    }
}

} // verus!
