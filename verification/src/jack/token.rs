//! The tokens of the Jack language.
use vstd::prelude::*;

use crate::ast::{copy_ident, Span};
use crate::text::{bytes_eq, dec, is_lit, lit, lit_vec, push_all, push_dec, push_lit};

verus! {

/// The keywords of Jack.
#[derive(Debug, Clone, Copy, Eq, PartialEq, Structural)]
pub enum KwKind {
    Class,
    Ctor,
    Method,
    Function,
    Int,
    Boolean,
    Char,
    Void,
    Var,
    Static,
    Field,
    Let,
    Do,
    If,
    Else,
    While,
    Return,
    True,
    False,
    Null,
    This,
}

/// The spelling of a keyword.
pub open spec fn kw_text(kind: KwKind) -> Seq<u8> {
    match kind {
        KwKind::Class => lit("class"),
        KwKind::Ctor => lit("constructor"),
        KwKind::Method => lit("method"),
        KwKind::Function => lit("function"),
        KwKind::Int => lit("int"),
        KwKind::Boolean => lit("boolean"),
        KwKind::Char => lit("char"),
        KwKind::Void => lit("void"),
        KwKind::Var => lit("var"),
        KwKind::Static => lit("static"),
        KwKind::Field => lit("field"),
        KwKind::Let => lit("let"),
        KwKind::Do => lit("do"),
        KwKind::If => lit("if"),
        KwKind::Else => lit("else"),
        KwKind::While => lit("while"),
        KwKind::Return => lit("return"),
        KwKind::True => lit("true"),
        KwKind::False => lit("false"),
        KwKind::Null => lit("null"),
        KwKind::This => lit("this"),
    }
}

/// The keyword that `s` spells, if it spells one.
pub open spec fn keyword_of(s: Seq<u8>) -> Option<KwKind> {
    if s == lit("class") {
        Some(KwKind::Class)
    } else if s == lit("constructor") {
        Some(KwKind::Ctor)
    } else if s == lit("method") {
        Some(KwKind::Method)
    } else if s == lit("function") {
        Some(KwKind::Function)
    } else if s == lit("int") {
        Some(KwKind::Int)
    } else if s == lit("boolean") {
        Some(KwKind::Boolean)
    } else if s == lit("char") {
        Some(KwKind::Char)
    } else if s == lit("void") {
        Some(KwKind::Void)
    } else if s == lit("var") {
        Some(KwKind::Var)
    } else if s == lit("static") {
        Some(KwKind::Static)
    } else if s == lit("field") {
        Some(KwKind::Field)
    } else if s == lit("let") {
        Some(KwKind::Let)
    } else if s == lit("do") {
        Some(KwKind::Do)
    } else if s == lit("if") {
        Some(KwKind::If)
    } else if s == lit("else") {
        Some(KwKind::Else)
    } else if s == lit("while") {
        Some(KwKind::While)
    } else if s == lit("return") {
        Some(KwKind::Return)
    } else if s == lit("true") {
        Some(KwKind::True)
    } else if s == lit("false") {
        Some(KwKind::False)
    } else if s == lit("null") {
        Some(KwKind::Null)
    } else if s == lit("this") {
        Some(KwKind::This)
    } else {
        None
    }
}

impl KwKind {
    /// The spelling of the keyword.
    pub fn name(&self) -> (r: &'static str)
        ensures
            lit(r) == kw_text(*self),
    {
        match self {
            KwKind::Class => "class",
            KwKind::Ctor => "constructor",
            KwKind::Method => "method",
            KwKind::Function => "function",
            KwKind::Int => "int",
            KwKind::Boolean => "boolean",
            KwKind::Char => "char",
            KwKind::Void => "void",
            KwKind::Var => "var",
            KwKind::Static => "static",
            KwKind::Field => "field",
            KwKind::Let => "let",
            KwKind::Do => "do",
            KwKind::If => "if",
            KwKind::Else => "else",
            KwKind::While => "while",
            KwKind::Return => "return",
            KwKind::True => "true",
            KwKind::False => "false",
            KwKind::Null => "null",
            KwKind::This => "this",
        }
    }

    /// Looks `s` up in the table of keywords.
    pub fn lookup(s: &[u8]) -> (r: Option<KwKind>)
        ensures
            r == keyword_of(s@),
    {
        if is_lit(s, "class") {
            Some(KwKind::Class)
        } else if is_lit(s, "constructor") {
            Some(KwKind::Ctor)
        } else if is_lit(s, "method") {
            Some(KwKind::Method)
        } else if is_lit(s, "function") {
            Some(KwKind::Function)
        } else if is_lit(s, "int") {
            Some(KwKind::Int)
        } else if is_lit(s, "boolean") {
            Some(KwKind::Boolean)
        } else if is_lit(s, "char") {
            Some(KwKind::Char)
        } else if is_lit(s, "void") {
            Some(KwKind::Void)
        } else if is_lit(s, "var") {
            Some(KwKind::Var)
        } else if is_lit(s, "static") {
            Some(KwKind::Static)
        } else if is_lit(s, "field") {
            Some(KwKind::Field)
        } else if is_lit(s, "let") {
            Some(KwKind::Let)
        } else if is_lit(s, "do") {
            Some(KwKind::Do)
        } else if is_lit(s, "if") {
            Some(KwKind::If)
        } else if is_lit(s, "else") {
            Some(KwKind::Else)
        } else if is_lit(s, "while") {
            Some(KwKind::While)
        } else if is_lit(s, "return") {
            Some(KwKind::Return)
        } else if is_lit(s, "true") {
            Some(KwKind::True)
        } else if is_lit(s, "false") {
            Some(KwKind::False)
        } else if is_lit(s, "null") {
            Some(KwKind::Null)
        } else if is_lit(s, "this") {
            Some(KwKind::This)
        } else {
            None
        }
    }
}

/// What a token is, and what it holds.
#[derive(Debug, Clone, Eq, PartialEq)]
pub enum TokenKind {
    Keyword(KwKind),
    Integer(u32),
    /// A string literal, without its quotes.
    Str(Vec<u8>),
    Ident(Vec<u8>),
    /// `(`
    LParen,
    /// `)`
    RParen,
    /// `{`
    LBrace,
    /// `}`
    RBrace,
    /// `[`
    LBracket,
    /// `]`
    RBracket,
    /// `,`
    Comma,
    /// `;`
    Semicolon,
    /// `=`
    Equal,
    /// `+`
    Plus,
    /// `-`
    Minus,
    /// `.`
    Dot,
    /// `&`
    And,
    /// `*`
    Mul,
    /// `|`
    Or,
    /// `/`
    Slash,
    /// `~`
    Tilde,
    /// `<`
    Lt,
    /// `>`
    Gt,
}

/// `TokenKind` as contracts see it: its text is a sequence of bytes.
pub enum TokenKindView {
    Keyword(KwKind),
    Integer(u32),
    Str(Seq<u8>),
    Ident(Seq<u8>),
    LParen,
    RParen,
    LBrace,
    RBrace,
    LBracket,
    RBracket,
    Comma,
    Semicolon,
    Equal,
    Plus,
    Minus,
    Dot,
    And,
    Mul,
    Or,
    Slash,
    Tilde,
    Lt,
    Gt,
}

impl View for TokenKind {
    type V = TokenKindView;

    open spec fn view(&self) -> TokenKindView {
        match *self {
            TokenKind::Keyword(k) => TokenKindView::Keyword(k),
            TokenKind::Integer(n) => TokenKindView::Integer(n),
            TokenKind::Str(s) => TokenKindView::Str(s@),
            TokenKind::Ident(s) => TokenKindView::Ident(s@),
            TokenKind::LParen => TokenKindView::LParen,
            TokenKind::RParen => TokenKindView::RParen,
            TokenKind::LBrace => TokenKindView::LBrace,
            TokenKind::RBrace => TokenKindView::RBrace,
            TokenKind::LBracket => TokenKindView::LBracket,
            TokenKind::RBracket => TokenKindView::RBracket,
            TokenKind::Comma => TokenKindView::Comma,
            TokenKind::Semicolon => TokenKindView::Semicolon,
            TokenKind::Equal => TokenKindView::Equal,
            TokenKind::Plus => TokenKindView::Plus,
            TokenKind::Minus => TokenKindView::Minus,
            TokenKind::Dot => TokenKindView::Dot,
            TokenKind::And => TokenKindView::And,
            TokenKind::Mul => TokenKindView::Mul,
            TokenKind::Or => TokenKindView::Or,
            TokenKind::Slash => TokenKindView::Slash,
            TokenKind::Tilde => TokenKindView::Tilde,
            TokenKind::Lt => TokenKindView::Lt,
            TokenKind::Gt => TokenKindView::Gt,
        }
    }
}

/// The punctuation token that the byte `b` is, if it is one.
pub open spec fn symbol_of(b: u8) -> Option<TokenKindView> {
    if b == 40 {
        // `(`
        Some(TokenKindView::LParen)
    } else if b == 41 {
        // `)`
        Some(TokenKindView::RParen)
    } else if b == 123 {
        // `{`
        Some(TokenKindView::LBrace)
    } else if b == 125 {
        // `}`
        Some(TokenKindView::RBrace)
    } else if b == 91 {
        // `[`
        Some(TokenKindView::LBracket)
    } else if b == 93 {
        // `]`
        Some(TokenKindView::RBracket)
    } else if b == 44 {
        // `,`
        Some(TokenKindView::Comma)
    } else if b == 59 {
        // `;`
        Some(TokenKindView::Semicolon)
    } else if b == 61 {
        // `=`
        Some(TokenKindView::Equal)
    } else if b == 43 {
        // `+`
        Some(TokenKindView::Plus)
    } else if b == 45 {
        // `-`
        Some(TokenKindView::Minus)
    } else if b == 46 {
        // `.`
        Some(TokenKindView::Dot)
    } else if b == 38 {
        // `&`
        Some(TokenKindView::And)
    } else if b == 42 {
        // `*`
        Some(TokenKindView::Mul)
    } else if b == 124 {
        // `|`
        Some(TokenKindView::Or)
    } else if b == 47 {
        // `/`
        Some(TokenKindView::Slash)
    } else if b == 126 {
        // `~`
        Some(TokenKindView::Tilde)
    } else if b == 60 {
        // `<`
        Some(TokenKindView::Lt)
    } else if b == 62 {
        // `>`
        Some(TokenKindView::Gt)
    } else {
        None
    }
}

/// The text of a token: a keyword's or a symbol's spelling, a number in
/// decimal, the content of a string, the name of an identifier.
pub open spec fn kind_text(kind: TokenKindView) -> Seq<u8> {
    match kind {
        TokenKindView::Keyword(k) => kw_text(k),
        TokenKindView::Integer(n) => dec(n as nat),
        TokenKindView::Str(s) => s,
        TokenKindView::Ident(s) => s,
        TokenKindView::LParen => lit("("),
        TokenKindView::RParen => lit(")"),
        TokenKindView::LBrace => lit("{"),
        TokenKindView::RBrace => lit("}"),
        TokenKindView::LBracket => lit("["),
        TokenKindView::RBracket => lit("]"),
        TokenKindView::Comma => lit(","),
        TokenKindView::Semicolon => lit(";"),
        TokenKindView::Equal => lit("="),
        TokenKindView::Plus => lit("+"),
        TokenKindView::Minus => lit("-"),
        TokenKindView::Dot => lit("."),
        TokenKindView::And => lit("&"),
        TokenKindView::Mul => lit("*"),
        TokenKindView::Or => lit("|"),
        TokenKindView::Slash => lit("/"),
        TokenKindView::Tilde => lit("~"),
        TokenKindView::Lt => lit("<"),
        TokenKindView::Gt => lit(">"),
    }
}

/// A token as a diagnostic shows it: its kind, and what it holds or how it is
/// written.
pub open spec fn kind_display(kind: TokenKindView) -> Seq<u8> {
    match kind {
        TokenKindView::Keyword(k) => lit("Keyword(") + kw_text(k) + lit(")"),
        TokenKindView::Integer(n) => lit("Integer(") + dec(n as nat) + lit(")"),
        TokenKindView::Str(s) => lit("Str(") + s + lit(")"),
        TokenKindView::Ident(s) => lit("Ident(") + s + lit(")"),
        TokenKindView::LParen => lit("Lparen ("),
        TokenKindView::RParen => lit("RParen )"),
        TokenKindView::LBrace => lit("LBrace {"),
        TokenKindView::RBrace => lit("RBrace }"),
        TokenKindView::LBracket => lit("LBracket ["),
        TokenKindView::RBracket => lit("RBracket ]"),
        TokenKindView::Comma => lit("Comma ,"),
        TokenKindView::Semicolon => lit("Semicolon ;"),
        TokenKindView::Equal => lit("Equal ="),
        TokenKindView::Plus => lit("Plus +"),
        TokenKindView::Minus => lit("Minus -"),
        TokenKindView::Dot => lit("Dot ."),
        TokenKindView::And => lit("And &"),
        TokenKindView::Mul => lit("Mul *"),
        TokenKindView::Or => lit("Or |"),
        TokenKindView::Slash => lit("Slash /"),
        TokenKindView::Tilde => lit("Tilde ~"),
        TokenKindView::Lt => lit("Lt <"),
        TokenKindView::Gt => lit("Gt >"),
    }
}

impl TokenKind {
    /// The punctuation token that the byte `b` is, if it is one.
    pub fn symbol(b: u8) -> (r: Option<TokenKind>)
        ensures
            match r {
                Some(k) => symbol_of(b) == Some(k@),
                None => symbol_of(b).is_none(),
            },
    {
        if b == 40 {
            // `(`
            Some(TokenKind::LParen)
        } else if b == 41 {
            // `)`
            Some(TokenKind::RParen)
        } else if b == 123 {
            // `{`
            Some(TokenKind::LBrace)
        } else if b == 125 {
            // `}`
            Some(TokenKind::RBrace)
        } else if b == 91 {
            // `[`
            Some(TokenKind::LBracket)
        } else if b == 93 {
            // `]`
            Some(TokenKind::RBracket)
        } else if b == 44 {
            // `,`
            Some(TokenKind::Comma)
        } else if b == 59 {
            // `;`
            Some(TokenKind::Semicolon)
        } else if b == 61 {
            // `=`
            Some(TokenKind::Equal)
        } else if b == 43 {
            // `+`
            Some(TokenKind::Plus)
        } else if b == 45 {
            // `-`
            Some(TokenKind::Minus)
        } else if b == 46 {
            // `.`
            Some(TokenKind::Dot)
        } else if b == 38 {
            // `&`
            Some(TokenKind::And)
        } else if b == 42 {
            // `*`
            Some(TokenKind::Mul)
        } else if b == 124 {
            // `|`
            Some(TokenKind::Or)
        } else if b == 47 {
            // `/`
            Some(TokenKind::Slash)
        } else if b == 126 {
            // `~`
            Some(TokenKind::Tilde)
        } else if b == 60 {
            // `<`
            Some(TokenKind::Lt)
        } else if b == 62 {
            // `>`
            Some(TokenKind::Gt)
        } else {
            None
        }
    }

    /// A copy of this kind.
    pub fn duplicate(&self) -> (r: TokenKind)
        ensures
            r@ == self@,
    {
        match self {
            TokenKind::Keyword(k) => TokenKind::Keyword(*k),
            TokenKind::Integer(n) => TokenKind::Integer(*n),
            TokenKind::Str(s) => TokenKind::Str(copy_ident(s)),
            TokenKind::Ident(s) => TokenKind::Ident(copy_ident(s)),
            TokenKind::LParen => TokenKind::LParen,
            TokenKind::RParen => TokenKind::RParen,
            TokenKind::LBrace => TokenKind::LBrace,
            TokenKind::RBrace => TokenKind::RBrace,
            TokenKind::LBracket => TokenKind::LBracket,
            TokenKind::RBracket => TokenKind::RBracket,
            TokenKind::Comma => TokenKind::Comma,
            TokenKind::Semicolon => TokenKind::Semicolon,
            TokenKind::Equal => TokenKind::Equal,
            TokenKind::Plus => TokenKind::Plus,
            TokenKind::Minus => TokenKind::Minus,
            TokenKind::Dot => TokenKind::Dot,
            TokenKind::And => TokenKind::And,
            TokenKind::Mul => TokenKind::Mul,
            TokenKind::Or => TokenKind::Or,
            TokenKind::Slash => TokenKind::Slash,
            TokenKind::Tilde => TokenKind::Tilde,
            TokenKind::Lt => TokenKind::Lt,
            TokenKind::Gt => TokenKind::Gt,
        }
    }

    /// Whether two kinds are the same kind with the same content.
    pub fn same(&self, other: &TokenKind) -> (r: bool)
        ensures
            r == (self@ == other@),
    {
        match (self, other) {
            (TokenKind::Keyword(a), TokenKind::Keyword(b)) => *a == *b,
            (TokenKind::Integer(a), TokenKind::Integer(b)) => *a == *b,
            (TokenKind::Str(a), TokenKind::Str(b)) => bytes_eq(a.as_slice(), b.as_slice()),
            (TokenKind::Ident(a), TokenKind::Ident(b)) => bytes_eq(a.as_slice(), b.as_slice()),
            (TokenKind::LParen, TokenKind::LParen) => true,
            (TokenKind::RParen, TokenKind::RParen) => true,
            (TokenKind::LBrace, TokenKind::LBrace) => true,
            (TokenKind::RBrace, TokenKind::RBrace) => true,
            (TokenKind::LBracket, TokenKind::LBracket) => true,
            (TokenKind::RBracket, TokenKind::RBracket) => true,
            (TokenKind::Comma, TokenKind::Comma) => true,
            (TokenKind::Semicolon, TokenKind::Semicolon) => true,
            (TokenKind::Equal, TokenKind::Equal) => true,
            (TokenKind::Plus, TokenKind::Plus) => true,
            (TokenKind::Minus, TokenKind::Minus) => true,
            (TokenKind::Dot, TokenKind::Dot) => true,
            (TokenKind::And, TokenKind::And) => true,
            (TokenKind::Mul, TokenKind::Mul) => true,
            (TokenKind::Or, TokenKind::Or) => true,
            (TokenKind::Slash, TokenKind::Slash) => true,
            (TokenKind::Tilde, TokenKind::Tilde) => true,
            (TokenKind::Lt, TokenKind::Lt) => true,
            (TokenKind::Gt, TokenKind::Gt) => true,
            _ => false,
        }
    }

    /// The text of a token of this kind.
    pub fn name(&self) -> (r: Vec<u8>)
        ensures
            r@ == kind_text(self@),
    {
        match self {
            TokenKind::Keyword(k) => lit_vec(k.name()),
            TokenKind::Integer(n) => {
                let mut out: Vec<u8> = Vec::new();
                push_dec(&mut out, *n as u64);
                assert(out@ =~= dec(*n as nat));
                out
            },
            TokenKind::Str(s) => copy_ident(s),
            TokenKind::Ident(s) => copy_ident(s),
            TokenKind::LParen => lit_vec("("),
            TokenKind::RParen => lit_vec(")"),
            TokenKind::LBrace => lit_vec("{"),
            TokenKind::RBrace => lit_vec("}"),
            TokenKind::LBracket => lit_vec("["),
            TokenKind::RBracket => lit_vec("]"),
            TokenKind::Comma => lit_vec(","),
            TokenKind::Semicolon => lit_vec(";"),
            TokenKind::Equal => lit_vec("="),
            TokenKind::Plus => lit_vec("+"),
            TokenKind::Minus => lit_vec("-"),
            TokenKind::Dot => lit_vec("."),
            TokenKind::And => lit_vec("&"),
            TokenKind::Mul => lit_vec("*"),
            TokenKind::Or => lit_vec("|"),
            TokenKind::Slash => lit_vec("/"),
            TokenKind::Tilde => lit_vec("~"),
            TokenKind::Lt => lit_vec("<"),
            TokenKind::Gt => lit_vec(">"),
        }
    }
}

/// A token and the range of the source that it was read from.
#[derive(Debug, Clone, Eq, PartialEq)]
pub struct Token {
    pub kind: TokenKind,
    pub span: Span,
}

/// `Token` as contracts see it: its text is a sequence of bytes.
pub struct TokenView {
    pub kind: TokenKindView,
    pub span: Span,
}

impl View for Token {
    type V = TokenView;

    open spec fn view(&self) -> TokenView {
        TokenView { kind: self.kind@, span: self.span }
    }
}

impl Token {
    /// The text of the token.
    pub fn name(&self) -> (r: Vec<u8>)
        ensures
            r@ == kind_text(self@.kind),
    {
        self.kind.name()
    }

    /// The token as a diagnostic shows it.
    pub fn to_text(&self) -> (r: Vec<u8>)
        ensures
            r@ == kind_display(self@.kind),
    {
        match &self.kind {
            TokenKind::Keyword(k) => {
                let mut out = lit_vec("Keyword(");
                push_lit(&mut out, k.name());
                push_lit(&mut out, ")");
                out
            },
            TokenKind::Integer(n) => {
                let mut out = lit_vec("Integer(");
                push_dec(&mut out, *n as u64);
                push_lit(&mut out, ")");
                out
            },
            TokenKind::Str(s) => {
                let mut out = lit_vec("Str(");
                push_all(&mut out, s.as_slice());
                push_lit(&mut out, ")");
                out
            },
            TokenKind::Ident(s) => {
                let mut out = lit_vec("Ident(");
                push_all(&mut out, s.as_slice());
                push_lit(&mut out, ")");
                out
            },
            TokenKind::LParen => lit_vec("Lparen ("),
            TokenKind::RParen => lit_vec("RParen )"),
            TokenKind::LBrace => lit_vec("LBrace {"),
            TokenKind::RBrace => lit_vec("RBrace }"),
            TokenKind::LBracket => lit_vec("LBracket ["),
            TokenKind::RBracket => lit_vec("RBracket ]"),
            TokenKind::Comma => lit_vec("Comma ,"),
            TokenKind::Semicolon => lit_vec("Semicolon ;"),
            TokenKind::Equal => lit_vec("Equal ="),
            TokenKind::Plus => lit_vec("Plus +"),
            TokenKind::Minus => lit_vec("Minus -"),
            TokenKind::Dot => lit_vec("Dot ."),
            TokenKind::And => lit_vec("And &"),
            TokenKind::Mul => lit_vec("Mul *"),
            TokenKind::Or => lit_vec("Or |"),
            TokenKind::Slash => lit_vec("Slash /"),
            TokenKind::Tilde => lit_vec("Tilde ~"),
            TokenKind::Lt => lit_vec("Lt <"),
            TokenKind::Gt => lit_vec("Gt >"),
        }
    }

    /// A copy of this token.
    pub fn duplicate(&self) -> (r: Token)
        ensures
            r@ == self@,
    {
        Token { kind: self.kind.duplicate(), span: self.span }
    }
}

} // verus!
