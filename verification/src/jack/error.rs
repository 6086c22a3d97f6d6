//! The errors and warnings of the Jack compiler. Each carries the range of
//! the source that it is about.
use vstd::prelude::*;

use crate::ast::{Ident, Span, Type, TypeView};
use crate::jack::token::{KwKind, Token, TokenView};

verus! {

/// Why a source is no sequence of tokens.
#[derive(Debug, Clone, Copy, PartialEq, Eq, Structural)]
pub enum LexErrorKind {
    /// A byte that starts no token.
    UnexpectedCharacter(u8),
    /// A number that 32 bits cannot hold.
    InvalidNumberFormat,
    UndefinedKeyword,
    /// A string literal without its closing quote.
    UnterminatedQuote,
    /// A block comment without its end.
    UnterminatedComment,
}

/// A lexical error: what is wrong, and where.
#[derive(Debug, Clone, Copy, PartialEq, Eq, Structural)]
pub struct LexError {
    pub span: Span,
    pub kind: LexErrorKind,
}

/// Why a sequence of tokens is no class.
#[derive(Debug, PartialEq)]
pub enum ParseErrorKind {
    LexError(LexError),
    ReservedKeyword(KwKind),
    UnexpectedIdent(Vec<u8>),
    UnexpectedToken(Token),
    UnexpectedEOF,
    InternalCompilerError(Vec<u8>),
}

/// `ParseErrorKind` as contracts see it: its text is a sequence of bytes.
pub enum ParseErrorKindView {
    LexError(LexError),
    ReservedKeyword(KwKind),
    UnexpectedIdent(Seq<u8>),
    UnexpectedToken(TokenView),
    UnexpectedEOF,
    InternalCompilerError(Seq<u8>),
}

impl View for ParseErrorKind {
    type V = ParseErrorKindView;

    open spec fn view(&self) -> ParseErrorKindView {
        match *self {
            ParseErrorKind::LexError(e) => ParseErrorKindView::LexError(e),
            ParseErrorKind::ReservedKeyword(k) => ParseErrorKindView::ReservedKeyword(k),
            ParseErrorKind::UnexpectedIdent(s) => ParseErrorKindView::UnexpectedIdent(s@),
            ParseErrorKind::UnexpectedToken(t) => ParseErrorKindView::UnexpectedToken(t@),
            ParseErrorKind::UnexpectedEOF => ParseErrorKindView::UnexpectedEOF,
            ParseErrorKind::InternalCompilerError(s) => ParseErrorKindView::InternalCompilerError(
                s@,
            ),
        }
    }
}

/// A syntax error: what is wrong, where, and a hint where there is one.
#[derive(Debug, PartialEq)]
pub struct ParseError {
    pub kind: ParseErrorKind,
    pub span: Span,
    /// A hint for the reader of the diagnostic.
    pub help: Option<Vec<u8>>,
}

/// `ParseError` as contracts see it: its text is a sequence of bytes.
pub struct ParseErrorView {
    pub kind: ParseErrorKindView,
    pub span: Span,
    pub help: Option<Seq<u8>>,
}

impl View for ParseError {
    type V = ParseErrorView;

    open spec fn view(&self) -> ParseErrorView {
        ParseErrorView {
            kind: self.kind@,
            span: self.span,
            help: match self.help {
                Some(h) => Some(h@),
                None => None,
            },
        }
    }
}

impl ParseError {
    /// An error of the given kind at `span`, without a hint.
    pub fn new(kind: ParseErrorKind, span: Span) -> (e: ParseError)
        ensures
            e@ == (ParseErrorView { kind: kind@, span, help: None }),
            e.kind == kind,
    {
        ParseError { kind, span, help: None }
    }

    /// The same error with the hint `help`.
    pub fn with_help(self, help: Vec<u8>) -> (e: ParseError)
        ensures
            e@ == (ParseErrorView { kind: self@.kind, span: self.span, help: Some(help@) }),
    {
        ParseError { kind: self.kind, span: self.span, help: Some(help) }
    }

    /// The parse error that reports a lexical error.
    pub fn from_lex(e: LexError) -> (r: ParseError)
        ensures
            r@ == lex_failure(e),
    {
        ParseError { span: e.span, kind: ParseErrorKind::LexError(e), help: None }
    }
}

/// The parse error that reports the lexical error `e`.
pub open spec fn lex_failure(e: LexError) -> ParseErrorView {
    ParseErrorView { kind: ParseErrorKindView::LexError(e), span: e.span, help: None }
}

/// What a class that was parsed is wrong in, or is warned of.
#[derive(Debug, PartialEq)]
pub enum SemanticErrorKind {
    UndefinedVariable(Ident),
    InvalidSyntax(Vec<u8>),
    /// A warning: the compilation goes on.
    TypeMismatch { expected: Type, actual: Type },
    /// A warning: the compilation goes on.
    UnusedVariable(Ident),
    AlreadyDefinedIdent { name: Ident, original: Span },
}

/// `SemanticErrorKind` as contracts see it: its text is a sequence of bytes.
pub enum SemanticErrorKindView {
    UndefinedVariable(Seq<u8>),
    InvalidSyntax(Seq<u8>),
    TypeMismatch { expected: TypeView, actual: TypeView },
    UnusedVariable(Seq<u8>),
    AlreadyDefinedIdent { name: Seq<u8>, original: Span },
}

impl View for SemanticErrorKind {
    type V = SemanticErrorKindView;

    open spec fn view(&self) -> SemanticErrorKindView {
        match *self {
            SemanticErrorKind::UndefinedVariable(n) => SemanticErrorKindView::UndefinedVariable(
                n@,
            ),
            SemanticErrorKind::InvalidSyntax(m) => SemanticErrorKindView::InvalidSyntax(m@),
            SemanticErrorKind::TypeMismatch { expected, actual } => {
                SemanticErrorKindView::TypeMismatch { expected: expected@, actual: actual@ }
            },
            SemanticErrorKind::UnusedVariable(n) => SemanticErrorKindView::UnusedVariable(n@),
            SemanticErrorKind::AlreadyDefinedIdent { name, original } => {
                SemanticErrorKindView::AlreadyDefinedIdent { name: name@, original }
            },
        }
    }
}

/// A semantic error or warning: what it is about, and where.
#[derive(Debug, PartialEq)]
pub struct SemanticError {
    pub kind: SemanticErrorKind,
    pub span: Span,
}

/// `SemanticError` as contracts see it: its text is a sequence of bytes.
pub struct SemanticErrorView {
    pub kind: SemanticErrorKindView,
    pub span: Span,
}

impl View for SemanticError {
    type V = SemanticErrorView;

    open spec fn view(&self) -> SemanticErrorView {
        SemanticErrorView { kind: self.kind@, span: self.span }
    }
}

impl SemanticError {
    /// Whether the diagnostic is a warning, after which the compilation goes
    /// on.
    pub fn is_warning(&self) -> (r: bool)
        ensures
            r == (self.kind is TypeMismatch || self.kind is UnusedVariable),
    {
        match &self.kind {
            SemanticErrorKind::TypeMismatch { .. } => true,
            SemanticErrorKind::UnusedVariable(_) => true,
            _ => false,
        }
    }
}

/// An error of the compiler.
#[derive(Debug, PartialEq)]
pub enum JackError {
    InternalCompilerError(Vec<u8>),
    SemanticError(SemanticError),
    ParseError(Box<ParseError>),
    LexError(LexError),
}

/// `JackError` as contracts see it: its text is a sequence of bytes.
pub enum JackErrorView {
    InternalCompilerError(Seq<u8>),
    SemanticError(SemanticErrorView),
    ParseError(ParseErrorView),
    LexError(LexError),
}

impl View for JackError {
    type V = JackErrorView;

    open spec fn view(&self) -> JackErrorView {
        match *self {
            JackError::InternalCompilerError(m) => JackErrorView::InternalCompilerError(m@),
            JackError::SemanticError(e) => JackErrorView::SemanticError(e@),
            JackError::ParseError(e) => JackErrorView::ParseError(e@),
            JackError::LexError(e) => JackErrorView::LexError(e),
        }
    }
}

/// The error of the compiler that reports the parse error `e`: a lexical
/// error is reported as such.
pub open spec fn parse_failure(e: ParseErrorView) -> JackErrorView {
    match e.kind {
        ParseErrorKindView::LexError(l) => JackErrorView::LexError(l),
        _ => JackErrorView::ParseError(e),
    }
}

impl JackError {
    /// The error of the compiler that reports a parse error.
    pub fn from_parse(e: ParseError) -> (r: JackError)
        ensures
            r@ == parse_failure(e@),
    {
        match e.kind {
            ParseErrorKind::LexError(l) => JackError::LexError(l),
            _ => JackError::ParseError(Box::new(e)),
        }
    }

    /// The error of the compiler that reports a lexical error.
    pub fn from_lex(e: LexError) -> (r: JackError)
        ensures
            r@ == JackErrorView::LexError(e),
    {
        JackError::LexError(e)
    }
}

} // verus!
