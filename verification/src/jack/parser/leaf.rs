//! The rules of one token.
use vstd::prelude::*;

use crate::ast::within::constant_within;
use crate::ast::{
    copy_ident, BinOp, Class, Constant, FnKind, Ident, Type, UnaryOp, VariableDefKind, MAX_INTEGER,
};
use crate::jack::error::{LexError, LexErrorKind, ParseError, ParseErrorKind};
use crate::jack::grammar::{
    p_bin_op, p_constant, p_fn_kind, p_ident, p_type, p_unary_op, p_value_type, p_var_kind,
};
use crate::jack::parser::{plain_result, view_result, Parser};
use crate::jack::token::{KwKind, TokenKind};

verus! {

impl Parser {
    /// Parses an identifier. A keyword in its place is an error of its own.
    pub fn parse_ident(&mut self) -> (r: Result<Ident, ParseError>)
        requires
            old(self).wf(),
        ensures
            final(self).stepped(
                old(self),
                p_ident(old(self).items(), old(self).index(), old(self).span()),
            ),
            view_result(r) == p_ident(old(self).items(), old(self).index(), old(self).span()).res,
            r is Ok ==> old(self).index() < old(self).items().len(),
    {
        let token = match self.peek_token() {
            Ok(token) => token,
            Err(e) => {
                return Err(e);
            },
        };
        match &token.kind {
            TokenKind::Ident(ident) => {
                let ident = copy_ident(ident);
                let _ = self.eat_token();
                Ok(ident)
            },
            TokenKind::Keyword(kind) => Err(
                self.error(ParseErrorKind::ReservedKeyword(*kind), token.span),
            ),
            _ => Err(self.unexpected_token(token)),
        }
    }

    /// Parses `static`, `field` or `var`.
    pub fn parse_variable_kind(&mut self) -> (r: Result<VariableDefKind, ParseError>)
        requires
            old(self).wf(),
        ensures
            final(self).stepped(
                old(self),
                p_var_kind(old(self).items(), old(self).index(), old(self).span()),
            ),
            plain_result(r) == p_var_kind(
                old(self).items(),
                old(self).index(),
                old(self).span(),
            ).res,
            r is Ok ==> old(self).index() < old(self).items().len(),
    {
        let token = match self.peek_token() {
            Ok(token) => token,
            Err(e) => {
                return Err(e);
            },
        };
        let kind = match &token.kind {
            TokenKind::Keyword(KwKind::Static) => VariableDefKind::Static,
            TokenKind::Keyword(KwKind::Field) => VariableDefKind::Field,
            TokenKind::Keyword(KwKind::Var) => VariableDefKind::Var,
            _ => {
                return Err(self.unexpected_token(token));
            },
        };
        let _ = self.eat_token();
        Ok(kind)
    }

    /// Parses a type: `int`, `char`, `boolean`, `void` or the name of a class.
    pub fn parse_type(&mut self) -> (r: Result<Type, ParseError>)
        requires
            old(self).wf(),
        ensures
            final(self).stepped(
                old(self),
                p_type(old(self).items(), old(self).index(), old(self).span()),
            ),
            view_result(r) == p_type(old(self).items(), old(self).index(), old(self).span()).res,
            r is Ok ==> old(self).index() < old(self).items().len(),
    {
        let token = match self.peek_token() {
            Ok(token) => token,
            Err(e) => {
                return Err(e);
            },
        };
        let ty = match &token.kind {
            TokenKind::Keyword(KwKind::Int) => Type::Int,
            TokenKind::Keyword(KwKind::Char) => Type::Char,
            TokenKind::Keyword(KwKind::Boolean) => Type::Boolean,
            TokenKind::Keyword(KwKind::Void) => Type::Void,
            TokenKind::Ident(class_name) => Type::Class(copy_ident(class_name)),
            _ => {
                return Err(self.unexpected_token(token));
            },
        };
        let _ = self.eat_token();
        Ok(ty)
    }

    /// Parses the type of a variable or of a parameter: `int`, `char`,
    /// `boolean` or the name of a class.
    pub fn parse_value_type(&mut self) -> (r: Result<Type, ParseError>)
        requires
            old(self).wf(),
        ensures
            final(self).stepped(
                old(self),
                p_value_type(old(self).items(), old(self).index(), old(self).span()),
            ),
            view_result(r) == p_value_type(
                old(self).items(),
                old(self).index(),
                old(self).span(),
            ).res,
            r is Ok ==> old(self).index() < old(self).items().len(),
            r matches Ok(t) ==> !(t is Void),
    {
        let token = match self.peek_token() {
            Ok(token) => token,
            Err(e) => {
                return Err(e);
            },
        };
        let ty = match &token.kind {
            TokenKind::Keyword(KwKind::Int) => Type::Int,
            TokenKind::Keyword(KwKind::Char) => Type::Char,
            TokenKind::Keyword(KwKind::Boolean) => Type::Boolean,
            TokenKind::Ident(class_name) => Type::Class(copy_ident(class_name)),
            _ => {
                return Err(self.unexpected_token(token));
            },
        };
        let _ = self.eat_token();
        Ok(ty)
    }

    /// Parses `constructor`, `function` or `method`.
    pub fn parse_fn_kind(&mut self) -> (r: Result<FnKind, ParseError>)
        requires
            old(self).wf(),
        ensures
            final(self).stepped(
                old(self),
                p_fn_kind(old(self).items(), old(self).index(), old(self).span()),
            ),
            plain_result(r) == p_fn_kind(
                old(self).items(),
                old(self).index(),
                old(self).span(),
            ).res,
            r is Ok ==> old(self).index() < old(self).items().len(),
    {
        let token = match self.peek_token() {
            Ok(token) => token,
            Err(e) => {
                return Err(e);
            },
        };
        let kind = match &token.kind {
            TokenKind::Keyword(KwKind::Ctor) => FnKind::Ctor,
            TokenKind::Keyword(KwKind::Function) => FnKind::Function,
            TokenKind::Keyword(KwKind::Method) => FnKind::Method,
            _ => {
                return Err(self.unexpected_token(token));
            },
        };
        let _ = self.eat_token();
        Ok(kind)
    }

    /// Parses a binary operator.
    pub fn parse_bin_op(&mut self) -> (r: Result<BinOp, ParseError>)
        requires
            old(self).wf(),
        ensures
            final(self).stepped(
                old(self),
                p_bin_op(old(self).items(), old(self).index(), old(self).span()),
            ),
            plain_result(r) == p_bin_op(old(self).items(), old(self).index(), old(self).span()).res,
            r is Ok ==> old(self).index() < old(self).items().len(),
    {
        let token = match self.peek_token() {
            Ok(token) => token,
            Err(e) => {
                return Err(e);
            },
        };
        let op = match &token.kind {
            TokenKind::Plus => BinOp::Plus,
            TokenKind::Minus => BinOp::Minus,
            TokenKind::Mul => BinOp::Mul,
            TokenKind::Slash => BinOp::Div,
            TokenKind::And => BinOp::And,
            TokenKind::Or => BinOp::Or,
            TokenKind::Equal => BinOp::Equal,
            TokenKind::Lt => BinOp::Lt,
            TokenKind::Gt => BinOp::Gt,
            _ => {
                return Err(self.unexpected_token(token));
            },
        };
        let _ = self.eat_token();
        Ok(op)
    }

    /// Parses a unary operator.
    pub fn parse_unary_op(&mut self) -> (r: Result<UnaryOp, ParseError>)
        requires
            old(self).wf(),
        ensures
            final(self).stepped(
                old(self),
                p_unary_op(old(self).items(), old(self).index(), old(self).span()),
            ),
            plain_result(r) == p_unary_op(
                old(self).items(),
                old(self).index(),
                old(self).span(),
            ).res,
            r is Ok ==> old(self).index() < old(self).items().len(),
    {
        let token = match self.peek_token() {
            Ok(token) => token,
            Err(e) => {
                return Err(e);
            },
        };
        let op = match &token.kind {
            TokenKind::Minus => UnaryOp::Minus,
            TokenKind::Tilde => UnaryOp::Not,
            _ => {
                return Err(self.unexpected_token(token));
            },
        };
        let _ = self.eat_token();
        Ok(op)
    }

    /// Parses a constant: a number, a string, `true`, `false`, `null` or
    /// `this`.
    pub fn parse_constant(&mut self) -> (r: Result<Constant, ParseError>)
        requires
            old(self).wf(),
        ensures
            final(self).stepped(
                old(self),
                p_constant(old(self).items(), old(self).index(), old(self).span()),
            ),
            view_result(r) == p_constant(
                old(self).items(),
                old(self).index(),
                old(self).span(),
            ).res,
            r is Ok ==> old(self).index() < old(self).items().len(),
            r matches Ok(c) ==> constant_within(c),
    {
        let token = match self.peek_token() {
            Ok(token) => token,
            Err(e) => {
                return Err(e);
            },
        };
        let constant = match &token.kind {
            TokenKind::Integer(n) => {
                if *n > MAX_INTEGER {
                    return Err(
                        ParseError::from_lex(
                            LexError { span: token.span, kind: LexErrorKind::InvalidNumberFormat },
                        ),
                    );
                }
                Constant::Integer(*n)
            },
            TokenKind::Str(s) => Constant::Str(copy_ident(s)),
            TokenKind::Keyword(KwKind::True) => Constant::True,
            TokenKind::Keyword(KwKind::False) => Constant::False,
            TokenKind::Keyword(KwKind::Null) => Constant::Null,
            TokenKind::Keyword(KwKind::This) => Constant::This,
            _ => {
                return Err(self.unexpected_token(token));
            },
        };
        let _ = self.eat_token();
        Ok(constant)
    }
}

} // verus!
