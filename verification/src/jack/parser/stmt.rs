//! The rules for statements.
use vstd::prelude::*;

use crate::ast::{stmts_view, Expr, Span, Stmt, StmtKind};
use crate::ast::within::{expr_within, stmt_within, stmts_within};
use crate::jack::error::ParseError;
use crate::jack::grammar::{
    left, p_block, p_cond_block, p_do, p_if, p_let, p_return, p_stmt, p_stmt_body, p_stmts, p_while,
    StmtKw,
};
use crate::jack::parser::{cond_block_result, stmts_result, view_result, Parser};
use crate::jack::token::{KwKind, TokenKind};

verus! {

impl Parser {
    /// Parses a list of statements in braces.
    pub fn parse_block(&mut self) -> (r: Result<Vec<Stmt>, ParseError>)
        requires
            old(self).wf(),
        ensures
            final(self).stepped(
                old(self),
                p_block(old(self).items(), old(self).index(), old(self).span()),
            ),
            stmts_result(r) == p_block(
                old(self).items(),
                old(self).index(),
                old(self).span(),
            ).res,
            r matches Ok(x) ==> stmts_within(x@, old(self).limit()),
        decreases left(old(self).items(), old(self).index()), 10nat,
    {
        proof {
            self.lemma_wf();
        }
        match self.eat_by(TokenKind::LBrace) {
            Ok(_) => {},
            Err(e) => {
                return Err(e);
            },
        }
        let body = match self.parse_stmts() {
            Ok(body) => body,
            Err(e) => {
                return Err(e);
            },
        };
        match self.eat_by(TokenKind::RBrace) {
            Ok(_) => Ok(body),
            Err(e) => Err(e),
        }
    }

    /// Parses a condition in parentheses and a list of statements in braces.
    pub fn parse_cond_block(&mut self) -> (r: Result<(Expr, Vec<Stmt>), ParseError>)
        requires
            old(self).wf(),
        ensures
            final(self).stepped(
                old(self),
                p_cond_block(old(self).items(), old(self).index(), old(self).span()),
            ),
            cond_block_result(r) == p_cond_block(
                old(self).items(),
                old(self).index(),
                old(self).span(),
            ).res,
            r matches Ok(x) ==> expr_within(x.0, old(self).limit()) && stmts_within(x.1@, old(self).limit()),
        decreases left(old(self).items(), old(self).index()), 11nat,
    {
        proof {
            self.lemma_wf();
        }
        match self.eat_by(TokenKind::LParen) {
            Ok(_) => {},
            Err(e) => {
                return Err(e);
            },
        }
        let cond = match self.parse_expr() {
            Ok(cond) => cond,
            Err(e) => {
                return Err(e);
            },
        };
        match self.eat_by(TokenKind::RParen) {
            Ok(_) => {},
            Err(e) => {
                return Err(e);
            },
        }
        match self.parse_block() {
            Ok(body) => Ok((cond, body)),
            Err(e) => Err(e),
        }
    }

    /// Parses a `let` statement behind its keyword, whose range is `span`.
    pub fn parse_let(&mut self, span: Span) -> (r: Result<Stmt, ParseError>)
        requires
            old(self).wf(),
            span == old(self).span(),
        ensures
            final(self).stepped(old(self), p_let(old(self).items(), old(self).index(), span)),
            view_result(r) == p_let(old(self).items(), old(self).index(), span).res,
            r matches Ok(x) ==> stmt_within(x, old(self).limit()),
        decreases left(old(self).items(), old(self).index()), 12nat,
    {
        proof {
            self.lemma_wf();
        }
        proof {
            self.lemma_wf();
        }
        let lhs = match self.parse_variable() {
            Ok(lhs) => lhs,
            Err(e) => {
                return Err(e);
            },
        };
        match self.eat_by(TokenKind::Equal) {
            Ok(_) => {},
            Err(e) => {
                return Err(e);
            },
        }
        let rhs = match self.parse_expr() {
            Ok(rhs) => rhs,
            Err(e) => {
                return Err(e);
            },
        };
        match self.eat_by(TokenKind::Semicolon) {
            Ok(_) => {},
            Err(e) => {
                return Err(e);
            },
        }
        let kind = StmtKind::Let { lhs, rhs };
        proof {
            self.lemma_wf();
        }
        Ok(Stmt { kind, span: span.with_hi(self.current_span().hi()) })
    }

    /// Parses an `if` statement behind its keyword, whose range is `span`.
    pub fn parse_if(&mut self, span: Span) -> (r: Result<Stmt, ParseError>)
        requires
            old(self).wf(),
            span == old(self).span(),
        ensures
            final(self).stepped(old(self), p_if(old(self).items(), old(self).index(), span)),
            view_result(r) == p_if(old(self).items(), old(self).index(), span).res,
            r matches Ok(x) ==> stmt_within(x, old(self).limit()),
        decreases left(old(self).items(), old(self).index()), 12nat,
    {
        proof {
            self.lemma_wf();
        }
        proof {
            self.lemma_wf();
        }
        let (cond, then_branch) = match self.parse_cond_block() {
            Ok(cb) => cb,
            Err(e) => {
                return Err(e);
            },
        };
        let else_branch = if self.eat_if_matches(&TokenKind::Keyword(KwKind::Else)).is_ok() {
            match self.parse_block() {
                Ok(block) => Some(block),
                Err(e) => {
                    return Err(e);
                },
            }
        } else {
            None
        };
        let kind = StmtKind::If { cond, then_branch, else_branch };
        proof {
            self.lemma_wf();
        }
        Ok(Stmt { kind, span: span.with_hi(self.current_span().hi()) })
    }

    /// Parses a `while` statement behind its keyword, whose range is `span`.
    pub fn parse_while(&mut self, span: Span) -> (r: Result<Stmt, ParseError>)
        requires
            old(self).wf(),
            span == old(self).span(),
        ensures
            final(self).stepped(old(self), p_while(old(self).items(), old(self).index(), span)),
            view_result(r) == p_while(old(self).items(), old(self).index(), span).res,
            r matches Ok(x) ==> stmt_within(x, old(self).limit()),
        decreases left(old(self).items(), old(self).index()), 12nat,
    {
        proof {
            self.lemma_wf();
        }
        proof {
            self.lemma_wf();
        }
        let (cond, body) = match self.parse_cond_block() {
            Ok(cb) => cb,
            Err(e) => {
                return Err(e);
            },
        };
        let kind = StmtKind::While { cond, body };
        proof {
            self.lemma_wf();
        }
        Ok(Stmt { kind, span: span.with_hi(self.current_span().hi()) })
    }

    /// Parses a `do` statement behind its keyword, whose range is `span`.
    pub fn parse_do(&mut self, span: Span) -> (r: Result<Stmt, ParseError>)
        requires
            old(self).wf(),
            span == old(self).span(),
        ensures
            final(self).stepped(old(self), p_do(old(self).items(), old(self).index(), span)),
            view_result(r) == p_do(old(self).items(), old(self).index(), span).res,
            r matches Ok(x) ==> stmt_within(x, old(self).limit()),
        decreases left(old(self).items(), old(self).index()), 12nat,
    {
        proof {
            self.lemma_wf();
        }
        proof {
            self.lemma_wf();
        }
        let call = match self.parse_fn_call() {
            Ok(call) => call,
            Err(e) => {
                return Err(e);
            },
        };
        match self.eat_by(TokenKind::Semicolon) {
            Ok(_) => {},
            Err(e) => {
                return Err(e);
            },
        }
        let kind = StmtKind::Do(call);
        proof {
            self.lemma_wf();
        }
        Ok(Stmt { kind, span: span.with_hi(self.current_span().hi()) })
    }

    /// Parses a `return` statement behind its keyword, whose range is `span`.
    pub fn parse_return(&mut self, span: Span) -> (r: Result<Stmt, ParseError>)
        requires
            old(self).wf(),
            span == old(self).span(),
        ensures
            final(self).stepped(old(self), p_return(old(self).items(), old(self).index(), span)),
            view_result(r) == p_return(old(self).items(), old(self).index(), span).res,
            r matches Ok(x) ==> stmt_within(x, old(self).limit()),
        decreases left(old(self).items(), old(self).index()), 12nat,
    {
        proof {
            self.lemma_wf();
        }
        proof {
            self.lemma_wf();
        }
        let value = match self.peek_token() {
            Ok(token) => {
                if token.kind.same(&TokenKind::Semicolon) {
                    None
                } else {
                    match self.parse_expr() {
                        Ok(value) => Some(value),
                        Err(e) => {
                            return Err(e);
                        },
                    }
                }
            },
            Err(e) => {
                return Err(e);
            },
        };
        match self.eat_by(TokenKind::Semicolon) {
            Ok(_) => {},
            Err(e) => {
                return Err(e);
            },
        }
        let kind = StmtKind::Return(value);
        proof {
            self.lemma_wf();
        }
        Ok(Stmt { kind, span: span.with_hi(self.current_span().hi()) })
    }

    /// Parses a statement behind its keyword, whose range is `span`.
    pub fn parse_stmt_body(&mut self, kw: StmtKw, span: Span) -> (r: Result<Stmt, ParseError>)
        requires
            old(self).wf(),
            span == old(self).span(),
        ensures
            final(self).stepped(
                old(self),
                p_stmt_body(old(self).items(), old(self).index(), span, kw),
            ),
            view_result(r) == p_stmt_body(old(self).items(), old(self).index(), span, kw).res,
            r matches Ok(x) ==> stmt_within(x, old(self).limit()),
        decreases left(old(self).items(), old(self).index()), 13nat,
    {
        proof {
            self.lemma_wf();
        }
        match kw {
            StmtKw::Let => self.parse_let(span),
            StmtKw::If => self.parse_if(span),
            StmtKw::While => self.parse_while(span),
            StmtKw::Do => self.parse_do(span),
            StmtKw::Return => self.parse_return(span),
        }
    }

    /// Parses one statement.
    pub fn parse_stmt(&mut self) -> (r: Result<Stmt, ParseError>)
        requires
            old(self).wf(),
        ensures
            final(self).stepped(
                old(self),
                p_stmt(old(self).items(), old(self).index(), old(self).span()),
            ),
            view_result(r) == p_stmt(
                old(self).items(),
                old(self).index(),
                old(self).span(),
            ).res,
            r is Ok ==> old(self).index() < final(self).index(),
            r matches Ok(x) ==> stmt_within(x, old(self).limit()),
        decreases left(old(self).items(), old(self).index()), 14nat,
    {
        proof {
            self.lemma_wf();
        }
        let token = match self.peek_token() {
            Ok(token) => token,
            Err(e) => {
                return Err(e);
            },
        };
        let span = token.span;
        let kw = match &token.kind {
            TokenKind::Keyword(KwKind::Let) => StmtKw::Let,
            TokenKind::Keyword(KwKind::If) => StmtKw::If,
            TokenKind::Keyword(KwKind::While) => StmtKw::While,
            TokenKind::Keyword(KwKind::Do) => StmtKw::Do,
            TokenKind::Keyword(KwKind::Return) => StmtKw::Return,
            _ => {
                return Err(self.unexpected_token(token));
            },
        };
        let _ = self.eat_token();
        self.parse_stmt_body(kw, span)
    }

    /// Parses statements up to a `}`, the end of the source or a lexical
    /// error.
    pub fn parse_stmts(&mut self) -> (r: Result<Vec<Stmt>, ParseError>)
        requires
            old(self).wf(),
        ensures
            final(self).stepped(
                old(self),
                p_stmts(old(self).items(), old(self).index(), old(self).span(), Seq::empty()),
            ),
            stmts_result(r) == p_stmts(
                old(self).items(),
                old(self).index(),
                old(self).span(),
                Seq::empty(),
            ).res,
            r matches Ok(x) ==> stmts_within(x@, old(self).limit()),
        decreases left(old(self).items(), old(self).index()), 16nat,
    {
        proof {
            self.lemma_wf();
        }
        self.parse_stmts_from(Vec::new())
    }

    /// Parses statements as `parse_stmts` does; `statements` holds what was
    /// read before.
    pub fn parse_stmts_from(&mut self, statements: Vec<Stmt>) -> (r: Result<Vec<Stmt>, ParseError>)
        requires
            old(self).wf(),
            stmts_within(statements@, old(self).limit()),
        ensures
            final(self).stepped(
                old(self),
                p_stmts(
                    old(self).items(),
                    old(self).index(),
                    old(self).span(),
                    stmts_view(statements@),
                ),
            ),
            stmts_result(r) == p_stmts(
                old(self).items(),
                old(self).index(),
                old(self).span(),
                stmts_view(statements@),
            ).res,
            r matches Ok(x) ==> stmts_within(x@, old(self).limit()),
        decreases left(old(self).items(), old(self).index()), 15nat,
    {
        proof {
            self.lemma_wf();
        }
        let mut statements = statements;
        if !self.more_statements() {
            return Ok(statements);
        }
        let stmt = match self.parse_stmt() {
            Ok(stmt) => stmt,
            Err(e) => {
                return Err(e);
            },
        };
        proof {
            self.lemma_wf();
        }
        let ghost before = statements@;
        statements.push(stmt);
        assert(statements@.drop_last() =~= before);
        self.parse_stmts_from(statements)
    }
}

} // verus!
