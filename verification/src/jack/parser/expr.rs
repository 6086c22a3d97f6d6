//! The rules for expressions and terms.
use vstd::prelude::*;

use crate::ast::{
    expr_view, exprs_view, ident_opt_view, Expr, FnCall, Ident, Span, Term, TermKind, Variable,
};
use crate::ast::within::{call_within, expr_within, exprs_within, term_within, variable_within};
use crate::jack::error::{ParseError, ParseErrorKind};
use crate::jack::grammar::{
    left, p_call, p_call_args, p_call_term, p_expr, p_exprs, p_exprs_rest, p_fn_call, p_index,
    p_method_call, p_method_term, p_named_term, p_term, p_variable, p_variable_term,
};
use crate::jack::parser::{call_result, exprs_result, view_result, Parser};
use crate::jack::token::TokenKind;

verus! {

/// The list of the one expression `first`.
pub fn single(first: Expr) -> (v: Vec<Expr>)
    ensures
        v@ == seq![first],
        exprs_view(v@) == seq![expr_view(first)],
{
    let mut v: Vec<Expr> = Vec::new();
    v.push(first);
    proof {
        reveal_with_fuel(exprs_view, 2);
        assert(v@ =~= seq![first]);
        assert(v@.drop_last() =~= Seq::<Expr>::empty());
        assert(exprs_view(v@) =~= seq![expr_view(first)]);
    }
    v
}

impl Parser {
    /// Parses an expression: a term, and at most one operator with a second
    /// term.
    pub fn parse_expr(&mut self) -> (r: Result<Expr, ParseError>)
        requires
            old(self).wf(),
        ensures
            final(self).stepped(
                old(self),
                p_expr(old(self).items(), old(self).index(), old(self).span()),
            ),
            view_result(r) == p_expr(
                old(self).items(),
                old(self).index(),
                old(self).span(),
            ).res,
            r matches Ok(x) ==> expr_within(x, old(self).limit()),
        decreases left(old(self).items(), old(self).index()), 1nat,
    {
        proof {
            self.lemma_wf();
        }
        let lhs = match self.parse_term() {
            Ok(term) => term,
            Err(e) => {
                return Err(e);
            },
        };
        match self.parse_bin_op() {
            Ok(op) => {
                let rhs = match self.parse_term() {
                    Ok(term) => term,
                    Err(e) => {
                        return Err(e);
                    },
                };
                Ok(Expr { lhs: Box::new(lhs), rhs: Some(Box::new((op, rhs))) })
            },
            Err(_) => Ok(Expr { lhs: Box::new(lhs), rhs: None }),
        }
    }

    /// Parses a term: a constant, a term behind a unary operator, an
    /// expression in parentheses, a call or a variable.
    pub fn parse_term(&mut self) -> (r: Result<Term, ParseError>)
        requires
            old(self).wf(),
        ensures
            final(self).stepped(
                old(self),
                p_term(old(self).items(), old(self).index(), old(self).span()),
            ),
            view_result(r) == p_term(
                old(self).items(),
                old(self).index(),
                old(self).span(),
            ).res,
            r matches Ok(t) ==> t.span.high() == final(self).span().high(),
            r is Ok ==> old(self).index() < final(self).index(),
            r matches Ok(x) ==> term_within(x, old(self).limit()),
        decreases left(old(self).items(), old(self).index()), 0nat,
    {
        proof {
            self.lemma_wf();
        }
        proof {
            self.lemma_wf();
        }
        match self.parse_constant() {
            Ok(constant) => {
                proof {
                    self.lemma_wf();
                }
                return Ok(Term { kind: TermKind::Const(constant), span: self.current_span() });
            },
            Err(e) => match &e.kind {
                ParseErrorKind::LexError(_) => {
                    return Err(e);
                },
                _ => {},
            },
        }
        match self.parse_unary_op() {
            Ok(op) => {
                let span = self.current_span();
                let term = match self.parse_term() {
                    Ok(term) => term,
                    Err(e) => {
                        return Err(e);
                    },
                };
                proof {
                    self.lemma_wf();
                }
                let span = span.with_hi(term.span.hi());
                return Ok(Term { kind: TermKind::Unary { op, term: Box::new(term) }, span });
            },
            Err(_) => {},
        }
        match self.eat_if_matches(&TokenKind::LParen) {
            Ok(span) => {
                let expr = match self.parse_expr() {
                    Ok(expr) => expr,
                    Err(e) => {
                        return Err(e);
                    },
                };
                let close = match self.eat_by(TokenKind::RParen) {
                    Ok(close) => close,
                    Err(e) => {
                        return Err(e);
                    },
                };
                proof {
                    self.lemma_wf();
                }
                return Ok(
                    Term { kind: TermKind::Expr(Box::new(expr)), span: span.with_hi(close.hi()) },
                );
            },
            Err(_) => {},
        }
        match self.parse_ident() {
            Ok(name) => {
                let span = self.current_span();
                return self.parse_named_term(name, span);
            },
            Err(_) => {},
        }
        match self.peek_token() {
            Ok(token) => Err(self.unexpected_token(token)),
            Err(e) => Err(e),
        }
    }

    /// Parses what follows the name at the start of a term: the arguments of
    /// a call, a method's name and its arguments, or an index.
    #[verifier::rlimit(40)]
    pub fn parse_named_term(&mut self, name: Ident, span: Span) -> (r: Result<Term, ParseError>)
        requires
            old(self).wf(),
            span == old(self).span(),
        ensures
            final(self).stepped(
                old(self),
                p_named_term(old(self).items(), old(self).index(), span, name@),
            ),
            view_result(r) == p_named_term(old(self).items(), old(self).index(), span, name@).res,
            r matches Ok(t) ==> t.span.high() == final(self).span().high(),
            r matches Ok(x) ==> term_within(x, old(self).limit()),
        decreases left(old(self).items(), old(self).index()), 7nat,
    {
        proof {
            self.lemma_wf();
        }
        if self.next_is(&TokenKind::LParen) {
            self.parse_call_term(span, None, name)
        } else if self.eat_if_matches(&TokenKind::Dot).is_ok() {
            self.parse_method_term(span, name)
        } else {
            self.parse_variable_term(span, name)
        }
    }

    /// Parses the arguments of a call that is a term. The term starts where
    /// `span` starts.
    pub fn parse_call_term(&mut self, span: Span, receiver: Option<Ident>, fn_name: Ident) -> (r:
        Result<Term, ParseError>)
        requires
            old(self).wf(),
            span.low() <= old(self).span().high(),
        ensures
            final(self).stepped(
                old(self),
                p_call_term(
                    old(self).items(),
                    old(self).index(),
                    old(self).span(),
                    span,
                    ident_opt_view(receiver),
                    fn_name@,
                ),
            ),
            view_result(r) == p_call_term(
                old(self).items(),
                old(self).index(),
                old(self).span(),
                span,
                ident_opt_view(receiver),
                fn_name@,
            ).res,
            r matches Ok(t) ==> t.span.high() == final(self).span().high(),
            r matches Ok(x) ==> term_within(x, old(self).limit()),
        decreases left(old(self).items(), old(self).index()), 5nat,
    {
        proof {
            self.lemma_wf();
        }
        let (call, hi) = match self.parse_call_args(receiver, fn_name) {
            Ok(call) => call,
            Err(e) => {
                return Err(e);
            },
        };
        proof {
            self.lemma_wf();
        }
        Ok(Term { kind: TermKind::FnCall(call), span: span.with_hi(hi) })
    }

    /// Parses the name of a method and its arguments, behind the receiver
    /// `name` and the dot.
    pub fn parse_method_term(&mut self, span: Span, name: Ident) -> (r: Result<Term, ParseError>)
        requires
            old(self).wf(),
            span.low() <= old(self).span().high(),
        ensures
            final(self).stepped(
                old(self),
                p_method_term(
                    old(self).items(),
                    old(self).index(),
                    old(self).span(),
                    span,
                    name@,
                ),
            ),
            view_result(r) == p_method_term(
                old(self).items(),
                old(self).index(),
                old(self).span(),
                span,
                name@,
            ).res,
            r matches Ok(t) ==> t.span.high() == final(self).span().high(),
            r matches Ok(x) ==> term_within(x, old(self).limit()),
        decreases left(old(self).items(), old(self).index()), 6nat,
    {
        proof {
            self.lemma_wf();
        }
        let fn_name = match self.parse_ident() {
            Ok(fn_name) => fn_name,
            Err(e) => {
                return Err(e);
            },
        };
        self.parse_call_term(span, Some(name), fn_name)
    }

    /// Parses the index of a variable that is a term, if it has one.
    pub fn parse_variable_term(&mut self, span: Span, name: Ident) -> (r: Result<Term, ParseError>)
        requires
            old(self).wf(),
            span == old(self).span(),
        ensures
            final(self).stepped(
                old(self),
                p_variable_term(old(self).items(), old(self).index(), span, name@),
            ),
            view_result(r) == p_variable_term(
                old(self).items(),
                old(self).index(),
                span,
                name@,
            ).res,
            r matches Ok(t) ==> t.span.high() == final(self).span().high(),
            r matches Ok(x) ==> term_within(x, old(self).limit()),
        decreases left(old(self).items(), old(self).index()), 5nat,
    {
        proof {
            self.lemma_wf();
        }
        let variable = match self.parse_index(name, span) {
            Ok(variable) => variable,
            Err(e) => {
                return Err(e);
            },
        };
        let span = variable.span;
        Ok(Term { kind: TermKind::Variable(variable), span })
    }

    /// Parses the arguments of a call in their parentheses, and returns the
    /// call with the position behind the closing one.
    pub fn parse_call_args(&mut self, receiver: Option<Ident>, fn_name: Ident) -> (r: Result<
        (FnCall, usize),
        ParseError,
    >)
        requires
            old(self).wf(),
        ensures
            final(self).stepped(
                old(self),
                p_call_args(
                    old(self).items(),
                    old(self).index(),
                    old(self).span(),
                    ident_opt_view(receiver),
                    fn_name@,
                ),
            ),
            call_result(r) == p_call_args(
                old(self).items(),
                old(self).index(),
                old(self).span(),
                ident_opt_view(receiver),
                fn_name@,
            ).res,
            r matches Ok(c) ==> c.1 == final(self).span().high(),
            r matches Ok(x) ==> call_within(x.0, old(self).limit()),
        decreases left(old(self).items(), old(self).index()), 4nat,
    {
        proof {
            self.lemma_wf();
        }
        match self.eat_by(TokenKind::LParen) {
            Ok(_) => {},
            Err(e) => {
                return Err(e);
            },
        }
        let args = match self.parse_vec() {
            Ok(args) => args,
            Err(e) => {
                return Err(e);
            },
        };
        let close = match self.eat_by(TokenKind::RParen) {
            Ok(close) => close,
            Err(e) => {
                return Err(e);
            },
        };
        proof {
            self.lemma_wf();
        }
        Ok((FnCall { receiver, fn_name, args }, close.hi()))
    }

    /// Parses the index behind the name of a variable, if there is one.
    pub fn parse_index(&mut self, name: Ident, span: Span) -> (r: Result<Variable, ParseError>)
        requires
            old(self).wf(),
            span == old(self).span(),
        ensures
            final(self).stepped(
                old(self),
                p_index(old(self).items(), old(self).index(), span, name@),
            ),
            view_result(r) == p_index(
                old(self).items(),
                old(self).index(),
                span, name@,
            ).res,
            r matches Ok(v) ==> v.span.high() == final(self).span().high(),
            r matches Ok(x) ==> variable_within(x, old(self).limit()),
        decreases left(old(self).items(), old(self).index()), 4nat,
    {
        proof {
            self.lemma_wf();
        }
        proof {
            self.lemma_wf();
        }
        match self.eat_if_matches(&TokenKind::LBracket) {
            Ok(_) => {},
            Err(_) => {
                return Ok(Variable { name, index_accessor: None, span });
            },
        }
        let index = match self.parse_expr() {
            Ok(index) => index,
            Err(e) => {
                return Err(e);
            },
        };
        let close = match self.eat_by(TokenKind::RBracket) {
            Ok(close) => close,
            Err(e) => {
                return Err(e);
            },
        };
        proof {
            self.lemma_wf();
        }
        Ok(Variable { name, index_accessor: Some(index), span: span.with_hi(close.hi()) })
    }

    /// Parses a list of expressions with commas between them. Where no first
    /// expression can be read, the list is empty, unless a lexical error is in
    /// the way.
    pub fn parse_vec(&mut self) -> (r: Result<Vec<Expr>, ParseError>)
        requires
            old(self).wf(),
        ensures
            final(self).stepped(
                old(self),
                p_exprs(old(self).items(), old(self).index(), old(self).span()),
            ),
            exprs_result(r) == p_exprs(old(self).items(), old(self).index(), old(self).span()).res,
            r matches Ok(x) ==> exprs_within(x@, old(self).limit()),
        decreases left(old(self).items(), old(self).index()), 3nat,
    {
        proof {
            self.lemma_wf();
        }
        match self.parse_expr() {
            Ok(first) => self.parse_vec_rest(single(first)),
            Err(e) => match &e.kind {
                ParseErrorKind::LexError(_) => Err(e),
                _ => Ok(Vec::new()),
            },
        }
    }

    /// Parses the rest of a list of expressions: a comma and an expression,
    /// as often as a comma comes next. `args` holds what was read before.
    pub fn parse_vec_rest(&mut self, args: Vec<Expr>) -> (r: Result<Vec<Expr>, ParseError>)
        requires
            old(self).wf(),
            exprs_within(args@, old(self).limit()),
        ensures
            final(self).stepped(
                old(self),
                p_exprs_rest(
                    old(self).items(),
                    old(self).index(),
                    old(self).span(),
                    exprs_view(args@),
                ),
            ),
            exprs_result(r) == p_exprs_rest(
                old(self).items(),
                old(self).index(),
                old(self).span(),
                exprs_view(args@),
            ).res,
            r matches Ok(x) ==> exprs_within(x@, old(self).limit()),
        decreases left(old(self).items(), old(self).index()), 2nat,
    {
        proof {
            self.lemma_wf();
        }
        let mut args = args;
        match self.eat_if_matches(&TokenKind::Comma) {
            Ok(_) => {},
            Err(_) => {
                return Ok(args);
            },
        }
        let expr = match self.parse_expr() {
            Ok(expr) => expr,
            Err(e) => {
                return Err(e);
            },
        };
        let ghost before = args@;
        args.push(expr);
        assert(args@.drop_last() =~= before);
        self.parse_vec_rest(args)
    }

    /// Parses a variable: a name, with or without an index.
    pub fn parse_variable(&mut self) -> (r: Result<Variable, ParseError>)
        requires
            old(self).wf(),
        ensures
            final(self).stepped(
                old(self),
                p_variable(old(self).items(), old(self).index(), old(self).span()),
            ),
            view_result(r) == p_variable(
                old(self).items(),
                old(self).index(),
                old(self).span(),
            ).res,
            r matches Ok(x) ==> variable_within(x, old(self).limit()),
        decreases left(old(self).items(), old(self).index()), 5nat,
    {
        proof {
            self.lemma_wf();
        }
        let name = match self.parse_ident() {
            Ok(name) => name,
            Err(e) => {
                return Err(e);
            },
        };
        let span = self.current_span();
        self.parse_index(name, span)
    }

    /// Parses a call: a name, or a receiver and a name, then the arguments.
    #[verifier::rlimit(40)]
    pub fn parse_fn_call(&mut self) -> (r: Result<FnCall, ParseError>)
        requires
            old(self).wf(),
        ensures
            final(self).stepped(
                old(self),
                p_fn_call(old(self).items(), old(self).index(), old(self).span()),
            ),
            view_result(r) == p_fn_call(old(self).items(), old(self).index(), old(self).span()).res,
            r matches Ok(x) ==> call_within(x, old(self).limit()),
        decreases left(old(self).items(), old(self).index()), 7nat,
    {
        proof {
            self.lemma_wf();
        }
        let first = match self.parse_ident() {
            Ok(name) => name,
            Err(e) => {
                return Err(e);
            },
        };
        if self.eat_if_matches(&TokenKind::Dot).is_ok() {
            self.parse_method_call(first)
        } else {
            self.parse_call(None, first)
        }
    }

    /// Parses the name of a method and its arguments, behind `receiver` and
    /// the dot.
    pub fn parse_method_call(&mut self, receiver: Ident) -> (r: Result<FnCall, ParseError>)
        requires
            old(self).wf(),
        ensures
            final(self).stepped(
                old(self),
                p_method_call(old(self).items(), old(self).index(), old(self).span(), receiver@),
            ),
            view_result(r) == p_method_call(
                old(self).items(),
                old(self).index(),
                old(self).span(),
                receiver@,
            ).res,
            r matches Ok(x) ==> call_within(x, old(self).limit()),
        decreases left(old(self).items(), old(self).index()), 6nat,
    {
        proof {
            self.lemma_wf();
        }
        let name = match self.parse_ident() {
            Ok(name) => name,
            Err(e) => {
                return Err(e);
            },
        };
        self.parse_call(Some(receiver), name)
    }

    /// Parses the arguments of a call behind the name `fn_name`.
    pub fn parse_call(&mut self, receiver: Option<Ident>, fn_name: Ident) -> (r: Result<
        FnCall,
        ParseError,
    >)
        requires
            old(self).wf(),
        ensures
            final(self).stepped(
                old(self),
                p_call(
                    old(self).items(),
                    old(self).index(),
                    old(self).span(),
                    ident_opt_view(receiver),
                    fn_name@,
                ),
            ),
            view_result(r) == p_call(
                old(self).items(),
                old(self).index(),
                old(self).span(),
                ident_opt_view(receiver),
                fn_name@,
            ).res,
            r matches Ok(x) ==> call_within(x, old(self).limit()),
        decreases left(old(self).items(), old(self).index()), 5nat,
    {
        proof {
            self.lemma_wf();
        }
        match self.parse_call_args(receiver, fn_name) {
            Ok(call) => Ok(call.0),
            Err(e) => Err(e),
        }
    }

}

} // verus!
