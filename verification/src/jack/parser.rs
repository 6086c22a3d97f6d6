//! The parser of Jack: recursive descent over the tokens of a source, one
//! function for each rule of the grammar.
use vstd::prelude::*;

pub mod decl;
pub mod expr;
pub mod leaf;
pub mod stmt;

use crate::ast::{
    expr_view, exprs_view, fn_call_view, fn_defs_view, parameters_view, stmts_view,
    variable_defs_view, Class, ClassView, Expr, ExprView, FnCall, FnCallView, FnDef, FnDefView,
    Parameter, ParameterView, Span, Stmt, StmtView, VariableDef, VariableDefView,
};
use crate::ast::within::class_within;
use crate::jack::error::{ParseError, ParseErrorKind, ParseErrorView};
use crate::jack::grammar::{
    eat_at, eat_by_at, eat_if_at, goes_on, initial_span, p_class, peek_at, unexpected, Items,
    Parsed,
};
use crate::jack::lexer::{lex_all, Lexer};
use crate::jack::stream::TokenStream;
use crate::jack::token::{Token, TokenKind, TokenView};
use crate::text::{lit, lit_vec, push_all, push_lit};

verus! {

/// The class that the source `src` holds, or the reason why it holds none.
pub open spec fn parse_source(src: Seq<u8>) -> Result<ClassView, ParseErrorView> {
    let items = lex_all(src, 0);
    p_class(items, 0, initial_span(items)).res
}

/// The result `r` as contracts see it.
pub open spec fn view_result<T: View>(r: Result<T, ParseError>) -> Result<T::V, ParseErrorView> {
    match r {
        Ok(v) => Ok(v@),
        Err(e) => Err(e@),
    }
}

/// The result `r` as contracts see it.
pub open spec fn plain_result<T>(r: Result<T, ParseError>) -> Result<T, ParseErrorView> {
    match r {
        Ok(v) => Ok(v),
        Err(e) => Err(e@),
    }
}

/// The result `r` as contracts see it.
pub open spec fn token_result(r: Result<&Token, ParseError>) -> Result<TokenView, ParseErrorView> {
    match r {
        Ok(t) => Ok(t@),
        Err(e) => Err(e@),
    }
}

/// The result `r` as contracts see it.
pub open spec fn variable_defs_result(r: Result<Vec<VariableDef>, ParseError>) -> Result<
    Seq<VariableDefView>,
    ParseErrorView,
> {
    match r {
        Ok(v) => Ok(variable_defs_view(v@)),
        Err(e) => Err(e@),
    }
}

/// The result `r` as contracts see it.
pub open spec fn parameters_result(r: Result<Vec<Parameter>, ParseError>) -> Result<
    Seq<ParameterView>,
    ParseErrorView,
> {
    match r {
        Ok(v) => Ok(parameters_view(v@)),
        Err(e) => Err(e@),
    }
}

/// The result `r` as contracts see it.
pub open spec fn exprs_result(r: Result<Vec<Expr>, ParseError>) -> Result<
    Seq<ExprView>,
    ParseErrorView,
> {
    match r {
        Ok(v) => Ok(exprs_view(v@)),
        Err(e) => Err(e@),
    }
}

/// The result `r` as contracts see it.
pub open spec fn stmts_result(r: Result<Vec<Stmt>, ParseError>) -> Result<
    Seq<StmtView>,
    ParseErrorView,
> {
    match r {
        Ok(v) => Ok(stmts_view(v@)),
        Err(e) => Err(e@),
    }
}

/// The parser: the items of a source, and how far they have been consumed.
pub struct Parser {
    tokens: TokenStream,
}

impl Parser {
    /// All items of the source.
    pub closed spec fn items(&self) -> Items {
        self.tokens.items()
    }

    /// How many items have been consumed.
    pub closed spec fn index(&self) -> nat {
        self.tokens.index()
    }

    /// The range of the token consumed last.
    pub closed spec fn span(&self) -> Span {
        self.tokens.span()
    }

    /// The length of the source.
    pub closed spec fn limit(&self) -> nat {
        self.tokens.limit()
    }

    /// The parser is in order: its stream is.
    pub closed spec fn wf(&self) -> bool {
        self.tokens.wf()
    }

    /// What `wf` says of a parser.
    pub proof fn lemma_wf(&self)
        requires
            self.wf(),
        ensures
            self.index() <= self.items().len(),
            self.span().high() <= self.limit() <= usize::MAX,
    {
        self.tokens.lemma_bounds();
    }

    /// Whether `self` is the parser that `before` becomes when a rule with
    /// the outcome `p` runs.
    pub open spec fn stepped<T>(&self, before: &Parser, p: Parsed<T>) -> bool {
        &&& self.wf()
        &&& self.items() == before.items()
        &&& self.limit() == before.limit()
        &&& self.index() == before.index() + p.used
        &&& self.span() == p.cur
        &&& self.span().high() >= before.span().high()
    }

    /// A parser at the start of `input`.
    pub fn new(input: &str) -> (p: Parser)
        ensures
            p.wf(),
            p.items() == lex_all(lit(input), 0),
            p.index() == 0,
            p.span() == initial_span(p.items()),
            p.limit() == lit(input).len(),
    {
        let tokens = TokenStream::new(Lexer::new(input));
        Parser { tokens }
    }

    /// The error of the given kind at `span`.
    pub fn error(&self, kind: ParseErrorKind, span: Span) -> (e: ParseError)
        ensures
            e@ == (ParseErrorView { kind: kind@, span, help: None }),
    {
        ParseError::new(kind, span)
    }

    /// The error for a token that no rule expects here.
    pub fn unexpected_token(&self, token: &Token) -> (e: ParseError)
        ensures
            e@ == unexpected(token@),
    {
        let token = token.duplicate();
        let span = token.span;
        self.error(ParseErrorKind::UnexpectedToken(token), span)
    }

    /// The range of the token consumed last.
    pub fn current_span(&self) -> (s: Span)
        ensures
            s == self.span(),
    {
        self.tokens.current_span()
    }

    /// Consumes the next item, which must be a token.
    pub fn eat_token(&mut self) -> (r: Result<Token, ParseError>)
        requires
            old(self).wf(),
        ensures
            final(self).stepped(
                old(self),
                eat_at(old(self).items(), old(self).index(), old(self).span()),
            ),
            view_result(r) == eat_at(old(self).items(), old(self).index(), old(self).span()).res,
    {
        let span = self.tokens.current_span();
        match self.tokens.next() {
            Some(Ok(token)) => Ok(token),
            Some(Err(e)) => Err(ParseError::from_lex(e)),
            None => Err(self.error(ParseErrorKind::UnexpectedEOF, span)),
        }
    }

    /// The next token, without consuming it.
    pub fn peek_token(&self) -> (r: Result<&Token, ParseError>)
        requires
            self.wf(),
        ensures
            token_result(r) == peek_at(self.items(), self.index(), self.span()),
            r is Ok ==> self.index() < self.items().len(),
    {
        let span = self.current_span();
        match self.tokens.peek() {
            Some(Ok(token)) => Ok(token),
            Some(Err(e)) => Err(ParseError::from_lex(*e)),
            None => Err(self.error(ParseErrorKind::UnexpectedEOF, span)),
        }
    }

    /// Consumes the next token if it is of the kind `want`.
    pub fn eat_if_matches(&mut self, want: &TokenKind) -> (r: Result<Span, ParseError>)
        requires
            old(self).wf(),
        ensures
            final(self).stepped(
                old(self),
                eat_if_at(old(self).items(), old(self).index(), old(self).span(), want@),
            ),
            plain_result(r) == eat_if_at(
                old(self).items(),
                old(self).index(),
                old(self).span(),
                want@,
            ).res,
            r matches Ok(s) ==> s == final(self).span(),
    {
        let token = match self.peek_token() {
            Ok(token) => token,
            Err(e) => {
                return Err(e);
            },
        };
        let span = token.span;
        if token.kind.same(want) {
            let _ = self.eat_token();
            Ok(span)
        } else {
            Err(self.unexpected_token(token))
        }
    }

    /// Consumes the next item, which must be a token of the kind `expected`.
    pub fn eat_by(&mut self, expected: TokenKind) -> (r: Result<Span, ParseError>)
        requires
            old(self).wf(),
        ensures
            final(self).stepped(
                old(self),
                eat_by_at(old(self).items(), old(self).index(), old(self).span(), expected@),
            ),
            plain_result(r) == eat_by_at(
                old(self).items(),
                old(self).index(),
                old(self).span(),
                expected@,
            ).res,
            r matches Ok(s) ==> s == final(self).span(),
    {
        let span = self.current_span();
        match self.eat_token() {
            Ok(t) => {
                if t.kind.same(&expected) {
                    Ok(t.span)
                } else {
                    let mut msg = lit_vec("unexpected kind of token given: eat_by(expected: ");
                    let expected_name = expected.name();
                    push_all(&mut msg, expected_name.as_slice());
                    push_lit(&mut msg, "), actual: ");
                    let actual_name = t.name();
                    push_all(&mut msg, actual_name.as_slice());
                    push_lit(&mut msg, ")");
                    Err(self.error(ParseErrorKind::InternalCompilerError(msg), span))
                }
            },
            Err(e) => Err(e),
        }
    }

    /// Parses a class.
    pub fn parse(&mut self) -> (r: Result<Class, ParseError>)
        requires
            old(self).wf(),
        ensures
            final(self).stepped(
                old(self),
                p_class(old(self).items(), old(self).index(), old(self).span()),
            ),
            view_result(r) == p_class(old(self).items(), old(self).index(), old(self).span()).res,
            r matches Ok(c) ==> class_within(c, old(self).limit()),
    {
        self.parse_class()
    }

    /// Whether the next token is of the kind `want`.
    pub fn next_is(&self, want: &TokenKind) -> (r: bool)
        requires
            self.wf(),
        ensures
            r == (eat_if_at(self.items(), self.index(), self.span(), want@).res is Ok),
            r ==> self.index() < self.items().len(),
    {
        match self.peek_token() {
            Ok(token) => token.kind.same(want),
            Err(_) => false,
        }
    }

    /// Whether a list of statements goes on: a token comes next, and it is
    /// not `}`.
    pub fn more_statements(&self) -> (r: bool)
        requires
            self.wf(),
        ensures
            r == goes_on(self.items(), self.index()),
    {
        match self.peek_token() {
            Ok(token) => !token.kind.same(&TokenKind::RBrace),
            Err(_) => false,
        }
    }
}

/// The result `r` as contracts see it.
pub open spec fn fn_defs_result(r: Result<Vec<FnDef>, ParseError>) -> Result<
    Seq<FnDefView>,
    ParseErrorView,
> {
    match r {
        Ok(v) => Ok(fn_defs_view(v@)),
        Err(e) => Err(e@),
    }
}

/// The result `r` as contracts see it.
pub open spec fn call_result(r: Result<(FnCall, usize), ParseError>) -> Result<
    (FnCallView, int),
    ParseErrorView,
> {
    match r {
        Ok(c) => Ok((fn_call_view(c.0), c.1 as int)),
        Err(e) => Err(e@),
    }
}

/// The result `r` as contracts see it.
pub open spec fn cond_block_result(r: Result<(Expr, Vec<Stmt>), ParseError>) -> Result<
    (ExprView, Seq<StmtView>),
    ParseErrorView,
> {
    match r {
        Ok(c) => Ok((expr_view(c.0), stmts_view(c.1@))),
        Err(e) => Err(e@),
    }
}

/// Parses the source of one class. In the class that it gives, every range
/// lies within the source, the terms of every expression stand in their
/// order, and no number is larger than a constant can be: a larger one is an
/// error at the number.
pub fn parse(input: &str) -> (r: Result<Class, ParseError>)
    ensures
        view_result(r) == parse_source(lit(input)),
        r matches Ok(c) ==> class_within(c, lit(input).len()),
{
    let mut parser = Parser::new(input);
    parser.parse()
}

} // verus!
