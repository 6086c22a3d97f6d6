//! The lexical analyser of Jack: from the bytes of a source text to tokens.
//!
//! Whitespace, `// line comments` and `/* block comments */` separate tokens
//! and are skipped. A token is a punctuation mark, a string literal in double
//! quotes, a decimal number, a keyword or an identifier.
use vstd::prelude::*;

use crate::ast::Span;
use crate::jack::error::{LexError, LexErrorKind};
use crate::jack::token::{keyword_of, symbol_of, KwKind, Token, TokenKind, TokenKindView, TokenView};
use crate::text::{
    all_digits, dec_value, find_pair, is_alpha, is_digit, is_space, lemma_run_end, lit,
    parse_digits, run_end, scan, search_pair, sub_vec, ByteClass, QUOTE, SLASH, STAR, UNDERSCORE,
};

verus! {

/// Whether the bytes `a`, `b` stand at `pos`.
pub open spec fn pair_at(src: Seq<u8>, pos: nat, a: u8, b: u8) -> bool {
    pos + 1 < src.len() && src[pos as int] == a && src[(pos + 1) as int] == b
}

/// Where the line comment that starts at `pos` ends: behind the next line
/// feed, or at the end of the source.
pub open spec fn line_comment_end(src: Seq<u8>, pos: nat) -> nat {
    let e = run_end(src, pos + 2, ByteClass::NotNewline);
    if e < src.len() {
        e + 1
    } else {
        e
    }
}

/// The error for a construct that opens at `pos` and is never closed: its
/// range runs from where it opens to the end of the source.
pub open spec fn unterminated(src: Seq<u8>, pos: nat, kind: LexErrorKind) -> LexError {
    LexError { span: Span { base: pos as usize, len: (src.len() - pos) as usize }, kind }
}

/// One piece of what separates tokens.
pub enum Trivia {
    /// No whitespace and no comment starts here.
    Nothing,
    /// Whitespace or a comment ends at the given position.
    Until(nat),
    /// A block comment opens here and never ends.
    Open(LexError),
}

/// The whitespace byte or the comment that starts at `pos`.
pub open spec fn trivia_at(src: Seq<u8>, pos: nat) -> Trivia {
    if pos < src.len() && is_space(src[pos as int]) {
        Trivia::Until(pos + 1)
    } else if pair_at(src, pos, SLASH, SLASH) {
        Trivia::Until(line_comment_end(src, pos))
    } else if pair_at(src, pos, SLASH, STAR) {
        match find_pair(src, pos + 2, STAR, SLASH) {
            Some(p) => Trivia::Until(p + 2),
            None => Trivia::Open(unterminated(src, pos, LexErrorKind::UnterminatedComment)),
        }
    } else {
        Trivia::Nothing
    }
}

/// Where `find_pair` finds the two bytes, they stand there, at or after
/// `pos`.
pub proof fn lemma_find_pair(src: Seq<u8>, pos: nat, a: u8, b: u8)
    ensures
        find_pair(src, pos, a, b) matches Some(p) ==> pos <= p && p + 1 < src.len() && src[p as int]
            == a && src[(p + 1) as int] == b,
    decreases src.len() - pos,
{
    if pos + 1 < src.len() && !(src[pos as int] == a && src[(pos + 1) as int] == b) {
        lemma_find_pair(src, pos + 1, a, b);
    }
}

/// Whitespace and comments are not empty, and end within the source.
pub proof fn lemma_trivia_at(src: Seq<u8>, pos: nat)
    ensures
        trivia_at(src, pos) matches Trivia::Until(n) ==> pos < n <= src.len(),
        !(trivia_at(src, pos) is Nothing) ==> pos < src.len(),
{
    if pos < src.len() && is_space(src[pos as int]) {
    } else if pair_at(src, pos, SLASH, SLASH) {
        lemma_run_end(src, pos + 2, ByteClass::NotNewline);
    } else if pair_at(src, pos, SLASH, STAR) {
        lemma_find_pair(src, pos + 2, STAR, SLASH);
    }
}

/// Where the next token starts, from `pos` on: behind all whitespace and
/// comments. An unterminated block comment is an error.
pub open spec fn skip_trivia(src: Seq<u8>, pos: nat) -> Result<nat, LexError>
    decreases src.len() - pos,
{
    match trivia_at(src, pos) {
        Trivia::Nothing => Ok(pos),
        Trivia::Open(e) => Err(e),
        Trivia::Until(n) => {
            proof {
                lemma_trivia_at(src, pos);
            }
            skip_trivia(src, n)
        },
    }
}

/// What the lexer finds at one place, and where it goes on.
pub struct LexStep {
    /// `None` at the end of the source.
    pub item: Option<Result<TokenView, LexError>>,
    pub next: nat,
}

/// The token that starts at `pos`, where no whitespace and no comment starts.
pub open spec fn token_at(src: Seq<u8>, pos: nat) -> LexStep {
    if pos >= src.len() {
        LexStep { item: None, next: pos }
    } else {
        let b = src[pos as int];
        if symbol_of(b) is Some {
            LexStep {
                item: Some(
                    Ok(TokenView { kind: symbol_of(b)->0, span: Span { base: pos as usize, len: 1 } }),
                ),
                next: pos + 1,
            }
        } else if b == QUOTE {
            let e = run_end(src, pos + 1, ByteClass::NotQuote);
            if e < src.len() {
                LexStep {
                    item: Some(
                        Ok(
                            TokenView {
                                kind: TokenKindView::Str(src.subrange((pos + 1) as int, e as int)),
                                span: Span::between(pos as int, (e + 1) as int),
                            },
                        ),
                    ),
                    next: e + 1,
                }
            } else {
                LexStep {
                    item: Some(Err(unterminated(src, pos, LexErrorKind::UnterminatedQuote))),
                    next: src.len(),
                }
            }
        } else if is_digit(b) {
            let e = run_end(src, pos, ByteClass::Digit);
            let span = Span { base: pos as usize, len: (e - pos) as usize };
            let v = dec_value(src.subrange(pos as int, e as int));
            LexStep {
                item: Some(
                    if v <= u32::MAX {
                        Ok(TokenView { kind: TokenKindView::Integer(v as u32), span })
                    } else {
                        Err(LexError { span, kind: LexErrorKind::InvalidNumberFormat })
                    },
                ),
                next: e,
            }
        } else if is_alpha(b) || b == UNDERSCORE {
            let e = run_end(src, pos + 1, ByteClass::Word);
            let text = src.subrange(pos as int, e as int);
            LexStep {
                item: Some(
                    Ok(
                        TokenView {
                            kind: match keyword_of(text) {
                                Some(k) => TokenKindView::Keyword(k),
                                None => TokenKindView::Ident(text),
                            },
                            span: Span { base: pos as usize, len: (e - pos) as usize },
                        },
                    ),
                ),
                next: e,
            }
        } else {
            LexStep {
                item: Some(
                    Err(
                        LexError {
                            span: Span { base: pos as usize, len: 1 },
                            kind: LexErrorKind::UnexpectedCharacter(b),
                        },
                    ),
                ),
                next: pos + 1,
            }
        }
    }
}

/// What one call of the lexer at `pos` gives: whitespace and comments are
/// skipped, then one token is read. After an unterminated comment nothing is
/// left of the source.
pub open spec fn lex_step(src: Seq<u8>, pos: nat) -> LexStep {
    match skip_trivia(src, pos) {
        Ok(p) => token_at(src, p),
        Err(e) => LexStep { item: Some(Err(e)), next: src.len() },
    }
}

/// Behind the whitespace and comments at `pos` nothing of the kind starts,
/// and an error means that something was left of the source.
pub proof fn lemma_skip_trivia(src: Seq<u8>, pos: nat)
    requires
        pos <= src.len(),
    ensures
        skip_trivia(src, pos) matches Ok(p) ==> pos <= p <= src.len() && trivia_at(src, p)
            is Nothing,
        skip_trivia(src, pos) is Err ==> pos < src.len(),
    decreases src.len() - pos,
{
    lemma_trivia_at(src, pos);
    match trivia_at(src, pos) {
        Trivia::Until(n) => {
            lemma_skip_trivia(src, n);
        },
        _ => {},
    }
}

/// Every step that gives an item moves forward.
pub proof fn lemma_lex_progress(src: Seq<u8>, pos: nat)
    requires
        pos <= src.len(),
    ensures
        pos <= lex_step(src, pos).next <= src.len(),
        lex_step(src, pos).item is Some ==> pos < lex_step(src, pos).next,
{
    lemma_skip_trivia(src, pos);
    match skip_trivia(src, pos) {
        Ok(p) => {
            if p < src.len() {
                lemma_run_end(src, p + 1, ByteClass::NotQuote);
                lemma_run_end(src, p + 1, ByteClass::Word);
                lemma_run_end(src, p, ByteClass::Digit);
                if is_digit(src[p as int]) {
                    lemma_run_end(src, p + 1, ByteClass::Digit);
                }
            }
        },
        Err(e) => {},
    }
}

/// A token lies between the place where its step started and the place where
/// the next one starts, behind the whitespace and comments before it.
pub proof fn lemma_lex_step(src: Seq<u8>, pos: nat)
    requires
        pos <= src.len() <= usize::MAX,
    ensures
        lex_step(src, pos).item matches Some(Ok(t)) ==> pos <= t.span.low() && t.span.low()
            < t.span.high() && t.span.high() == lex_step(src, pos).next && skip_trivia(src, pos)
            == Ok::<nat, LexError>(t.span.low() as nat),
{
    lemma_skip_trivia(src, pos);
    match skip_trivia(src, pos) {
        Ok(p) => {
            if p < src.len() {
                lemma_run_end(src, p + 1, ByteClass::NotQuote);
                lemma_run_end(src, p + 1, ByteClass::Word);
                lemma_run_end(src, p, ByteClass::Digit);
                if is_digit(src[p as int]) {
                    lemma_run_end(src, p + 1, ByteClass::Digit);
                }
            }
        },
        Err(e) => {},
    }
}

/// All that the lexer gives from `pos` on, one item per call, up to the end
/// of the source.
pub open spec fn lex_all(src: Seq<u8>, pos: nat) -> Seq<Result<TokenView, LexError>>
    decreases src.len() - pos,
{
    if pos > src.len() {
        Seq::empty()
    } else {
        let step = lex_step(src, pos);
        match step.item {
            None => Seq::empty(),
            Some(item) => {
                proof {
                    lemma_lex_progress(src, pos);
                }
                seq![item] + lex_all(src, step.next)
            },
        }
    }
}

/// Whether the tokens among `items` lie one behind the other, between `from`
/// and `limit`.
pub open spec fn in_order(items: Seq<Result<TokenView, LexError>>, from: nat, limit: nat) -> bool {
    &&& forall|k: int|
        0 <= k < items.len() && (#[trigger] items[k]) is Ok ==> from <= items[k]->Ok_0.span.low()
            <= items[k]->Ok_0.span.high() <= limit
    &&& forall|j: int, k: int|
        0 <= j < k < items.len() && (#[trigger] items[j]) is Ok && (#[trigger] items[k]) is Ok
            ==> items[j]->Ok_0.span.high() <= items[k]->Ok_0.span.low()
}

/// The tokens of a source lie one behind the other, within the source.
pub proof fn lemma_lex_all_in_order(src: Seq<u8>, pos: nat)
    requires
        pos <= src.len() <= usize::MAX,
    ensures
        in_order(lex_all(src, pos), pos, src.len()),
    decreases src.len() - pos,
{
    let step = lex_step(src, pos);
    lemma_lex_progress(src, pos);
    lemma_lex_step(src, pos);
    match step.item {
        None => {},
        Some(item) => {
            lemma_lex_all_in_order(src, step.next);
            let rest = lex_all(src, step.next);
            let all = lex_all(src, pos);
            assert(all =~= seq![item] + rest);
            assert forall|k: int| 0 <= k < all.len() && (#[trigger] all[k]) is Ok implies pos
                <= all[k]->Ok_0.span.low() <= all[k]->Ok_0.span.high() <= src.len() by {
                if k > 0 {
                    assert(all[k] == rest[k - 1]);
                }
            }
            assert forall|j: int, k: int|
                0 <= j < k < all.len() && (#[trigger] all[j]) is Ok && (#[trigger] all[k])
                    is Ok implies all[j]->Ok_0.span.high() <= all[k]->Ok_0.span.low() by {
                assert(all[k] == rest[k - 1]);
                if j > 0 {
                    assert(all[j] == rest[j - 1]);
                }
            }
        },
    }
}

/// An item of a source: a token, or a lexical error.
pub type LexItem = Result<Token, LexError>;

/// An item as contracts see it.
pub open spec fn item_view(item: LexItem) -> Result<TokenView, LexError> {
    match item {
        Ok(t) => Ok(t@),
        Err(e) => Err(e),
    }
}

/// The elements of `items` as contracts see them.
pub open spec fn items_view(items: Seq<LexItem>) -> Seq<Result<TokenView, LexError>> {
    Seq::new(items.len(), |i: int| item_view(items[i]))
}

/// What a call of `lex` returned, as an item of the token stream.
pub open spec fn lexed_view(r: Result<Option<Token>, LexError>) -> Option<
    Result<TokenView, LexError>,
> {
    match r {
        Ok(Some(t)) => Some(Ok(t@)),
        Ok(None) => None,
        Err(e) => Some(Err(e)),
    }
}

/// The lexer: a source, and how far it has been read.
pub struct Lexer<'s> {
    input: &'s [u8],
    bytepos: usize,
}

impl<'s> Lexer<'s> {
    #[verifier::type_invariant]
    spec fn inv(self) -> bool {
        self.bytepos <= self.input@.len()
    }

    /// The source that is read.
    pub closed spec fn source(&self) -> Seq<u8> {
        self.input@
    }

    /// How many bytes of the source have been read.
    pub closed spec fn offset(&self) -> nat {
        self.bytepos as nat
    }

    /// A lexer at the start of `input`.
    pub fn new(input: &'s str) -> (lexer: Lexer<'s>)
        ensures
            lexer.source() == lit(input),
            lexer.offset() == 0,
    {
        Lexer { input: input.as_bytes(), bytepos: 0 }
    }

    /// A lexer at the start of the bytes `input`.
    pub fn from_bytes(input: &'s [u8]) -> (lexer: Lexer<'s>)
        ensures
            lexer.source() == input@,
            lexer.offset() == 0,
    {
        Lexer { input, bytepos: 0 }
    }

    /// The length of the source.
    pub fn length(&self) -> (n: usize)
        ensures
            n == self.source().len(),
            self.offset() <= n,
    {
        proof {
            use_type_invariant(self);
        }
        self.input.len()
    }

    /// Reads one byte: its offset and the byte, or `None` at the end.
    pub fn next(&mut self) -> (r: Option<(usize, u8)>)
        ensures
            final(self).source() == old(self).source(),
            old(self).offset() <= old(self).source().len(),
            r == if old(self).offset() < old(self).source().len() {
                Some((old(self).offset() as usize, old(self).source()[old(self).offset() as int]))
            } else {
                None
            },
            final(self).offset() == if r is Some {
                old(self).offset() + 1
            } else {
                old(self).offset()
            },
    {
        proof {
            use_type_invariant(&*self);
        }
        if self.bytepos < self.input.len() {
            let r = (self.bytepos, self.input[self.bytepos]);
            self.bytepos = self.bytepos + 1;
            Some(r)
        } else {
            None
        }
    }

    /// The next byte and its offset, without reading it.
    pub fn peek(&self) -> (r: Option<(usize, u8)>)
        ensures
            self.offset() <= self.source().len(),
            r == if self.offset() < self.source().len() {
                Some((self.offset() as usize, self.source()[self.offset() as int]))
            } else {
                None
            },
    {
        proof {
            use_type_invariant(self);
        }
        if self.bytepos < self.input.len() {
            Some((self.bytepos, self.input[self.bytepos]))
        } else {
            None
        }
    }

    /// The error of the given kind for the `len` bytes from `base` on.
    pub fn error(&self, kind: LexErrorKind, base: usize, len: usize) -> (e: LexError)
        ensures
            e == (LexError { span: Span { base, len }, kind }),
    {
        LexError { kind, span: Span::from_len(base, len) }
    }

    /// Reads the next byte if it is `want`, and returns its offset.
    pub fn eat_char(&mut self, want: u8) -> (r: Option<usize>)
        ensures
            final(self).source() == old(self).source(),
            old(self).offset() <= old(self).source().len(),
            r == if old(self).offset() < old(self).source().len() && old(self).source()[old(self).offset() as int] == want {
                Some(old(self).offset() as usize)
            } else {
                None
            },
            final(self).offset() == if r is Some {
                old(self).offset() + 1
            } else {
                old(self).offset()
            },
    {
        match self.peek() {
            Some((offset, c)) => {
                if c == want {
                    self.next();
                    Some(offset)
                } else {
                    None
                }
            },
            None => None,
        }
    }

    /// Reads the next byte if it is in `class`, and returns its offset.
    pub fn eat_char_matches(&mut self, class: ByteClass) -> (r: Option<usize>)
        ensures
            final(self).source() == old(self).source(),
            old(self).offset() <= old(self).source().len(),
            r == if old(self).offset() < old(self).source().len() && class.has(
                old(self).source()[old(self).offset() as int],
            ) {
                Some(old(self).offset() as usize)
            } else {
                None
            },
            final(self).offset() == if r is Some {
                old(self).offset() + 1
            } else {
                old(self).offset()
            },
    {
        match self.peek() {
            Some((offset, c)) => {
                if class.contains(c) {
                    self.next();
                    Some(offset)
                } else {
                    None
                }
            },
            None => None,
        }
    }

    /// Reads bytes as long as they are in `class`. Returns the offset at
    /// which the run ended, or `None` if it ran to the end of the source.
    pub fn eat_while(&mut self, class: ByteClass) -> (r: Option<usize>)
        ensures
            final(self).source() == old(self).source(),
            old(self).offset() <= old(self).source().len(),
            final(self).offset() == run_end(old(self).source(), old(self).offset(), class),
            old(self).offset() <= final(self).offset() <= old(self).source().len(),
            r == if final(self).offset() < old(self).source().len() {
                Some(final(self).offset() as usize)
            } else {
                None
            },
    {
        proof {
            use_type_invariant(&*self);
        }
        let end = scan(self.input, self.bytepos, class);
        self.bytepos = end;
        if end < self.input.len() {
            Some(end)
        } else {
            None
        }
    }

    /// Reads the two bytes `a`, `b` if they come next, and returns the
    /// offset of the first.
    pub fn eat_str(&mut self, a: u8, b: u8) -> (r: Option<usize>)
        ensures
            final(self).source() == old(self).source(),
            old(self).offset() <= old(self).source().len(),
            r == if pair_at(old(self).source(), old(self).offset(), a, b) {
                Some(old(self).offset() as usize)
            } else {
                None
            },
            final(self).offset() == if r is Some {
                old(self).offset() + 2
            } else {
                old(self).offset()
            },
    {
        proof {
            use_type_invariant(&*self);
        }
        let offset = self.bytepos;
        if offset < self.input.len() && self.input.len() - offset >= 2 && self.input[offset] == a
            && self.input[offset + 1] == b {
            self.bytepos = offset + 2;
            Some(offset)
        } else {
            None
        }
    }

    /// Reads a line comment, if one starts here.
    pub fn eat_line_comment(&mut self) -> (r: bool)
        ensures
            final(self).source() == old(self).source(),
            old(self).offset() <= old(self).source().len(),
            r == pair_at(old(self).source(), old(self).offset(), SLASH, SLASH),
            final(self).offset() == if r {
                line_comment_end(old(self).source(), old(self).offset())
            } else {
                old(self).offset()
            },
    {
        if self.eat_str(SLASH, SLASH).is_none() {
            return false;
        }
        self.eat_while(ByteClass::NotNewline);
        self.next();
        true
    }

    /// Reads a block comment, if one starts here. One that does not end is an
    /// error, and nothing is left of the source.
    pub fn eat_block_comment(&mut self) -> (r: Result<bool, LexError>)
        ensures
            final(self).source() == old(self).source(),
            old(self).offset() <= old(self).source().len(),
            !pair_at(old(self).source(), old(self).offset(), SLASH, STAR) ==> r == Ok::<bool, LexError>(
                false,
            ) && final(self).offset() == old(self).offset(),
            pair_at(old(self).source(), old(self).offset(), SLASH, STAR) ==> match trivia_at(
                old(self).source(),
                old(self).offset(),
            ) {
                Trivia::Until(n) => r == Ok::<bool, LexError>(true) && final(self).offset() == n,
                Trivia::Open(e) => r == Err::<bool, LexError>(e) && final(self).offset() == old(self).source().len(),
                Trivia::Nothing => false,
            },
    {
        proof {
            use_type_invariant(&*self);
        }
        let base = match self.eat_str(SLASH, STAR) {
            Some(base) => base,
            None => {
                return Ok(false);
            },
        };
        proof {
            use_type_invariant(&*self);
            assert(self.input.len() <= usize::MAX);
        }
        match search_pair(self.input, self.bytepos, STAR, SLASH) {
            Some(p) => {
                self.bytepos = p + 2;
                Ok(true)
            },
            None => {
                self.bytepos = self.input.len();
                Err(self.error(LexErrorKind::UnterminatedComment, base, self.bytepos - base))
            },
        }
    }

    /// Reads one whitespace byte or one comment, if there is one here.
    pub fn eat_ws(&mut self) -> (r: Result<bool, LexError>)
        ensures
            final(self).source() == old(self).source(),
            old(self).offset() <= old(self).source().len(),
            match trivia_at(old(self).source(), old(self).offset()) {
                Trivia::Nothing => r == Ok::<bool, LexError>(false) && final(self).offset() == old(self).offset(),
                Trivia::Until(n) => r == Ok::<bool, LexError>(true) && final(self).offset() == n,
                Trivia::Open(e) => r == Err::<bool, LexError>(e) && final(self).offset() == old(self).source().len(),
            },
    {
        if self.eat_char_matches(ByteClass::Space).is_some() {
            return Ok(true);
        }
        if self.eat_line_comment() {
            return Ok(true);
        }
        self.eat_block_comment()
    }

    /// Reads a punctuation mark, if one comes next.
    pub fn lex_symbol(&mut self) -> (r: Option<Token>)
        ensures
            final(self).source() == old(self).source(),
            old(self).offset() <= old(self).source().len(),
            match r {
                Some(t) => old(self).offset() < old(self).source().len() && symbol_of(
                    old(self).source()[old(self).offset() as int],
                ) is Some && lexed_view(Ok(Some(t))) == token_at(
                    old(self).source(),
                    old(self).offset(),
                ).item && final(self).offset() == old(self).offset() + 1,
                None => final(self).offset() == old(self).offset() && (old(self).offset() < old(self).source().len() ==> symbol_of(old(self).source()[old(self).offset() as int])
                    is None),
            },
    {
        let pos = self.bytepos;
        let c = match self.peek() {
            Some((_, c)) => c,
            None => {
                return None;
            },
        };
        match TokenKind::symbol(c) {
            Some(kind) => {
                self.next();
                Some(Token { kind, span: Span::from_len(pos, 1) })
            },
            None => None,
        }
    }

    /// Reads a string literal, if one starts here. The token holds what
    /// stands between the quotes; its range includes them.
    pub fn lex_str(&mut self) -> (r: Result<Option<Token>, LexError>)
        ensures
            final(self).source() == old(self).source(),
            old(self).offset() <= old(self).source().len(),
            old(self).offset() < old(self).source().len() && old(self).source()[old(self).offset() as int] == QUOTE ==> lexed_view(r) == token_at(
                old(self).source(),
                old(self).offset(),
            ).item && final(self).offset() == token_at(
                old(self).source(),
                old(self).offset(),
            ).next,
            !(old(self).offset() < old(self).source().len() && old(self).source()[old(self).offset() as int] == QUOTE) ==> r == Ok::<Option<Token>, LexError>(None) && final(self).offset() == old(self).offset(),
    {
        let from = match self.eat_char(QUOTE) {
            Some(from) => from,
            None => {
                return Ok(None);
            },
        };
        let until = match self.eat_while(ByteClass::NotQuote) {
            Some(until) => until,
            None => {
                proof {
                    use_type_invariant(&*self);
                }
                return Err(self.error(LexErrorKind::UnterminatedQuote, from, self.bytepos - from));
            },
        };
        self.next();
        proof {
            use_type_invariant(&*self);
        }
        let kind = TokenKind::Str(sub_vec(self.input, from + 1, until));
        Ok(Some(Token { kind, span: Span::new(from, until + 1) }))
    }

    /// Reads a decimal number, if one starts here. A number that 32 bits
    /// cannot hold is an error.
    pub fn lex_integer(&mut self) -> (r: Result<Option<Token>, LexError>)
        ensures
            final(self).source() == old(self).source(),
            old(self).offset() <= old(self).source().len(),
            old(self).offset() < old(self).source().len() && is_digit(
                old(self).source()[old(self).offset() as int],
            ) ==> lexed_view(r) == token_at(old(self).source(), old(self).offset()).item && final(self).offset() == token_at(old(self).source(), old(self).offset()).next,
            !(old(self).offset() < old(self).source().len() && is_digit(
                old(self).source()[old(self).offset() as int],
            )) ==> r == Ok::<Option<Token>, LexError>(None) && final(self).offset() == old(self).offset(),
    {
        let from = match self.eat_char_matches(ByteClass::Digit) {
            Some(from) => from,
            None => {
                return Ok(None);
            },
        };
        self.eat_while(ByteClass::Digit);
        proof {
            use_type_invariant(&*self);
            lemma_run_end(self.input@, (from + 1) as nat, ByteClass::Digit);
            lemma_run_end(self.input@, from as nat, ByteClass::Digit);
            assert(all_digits(self.input@.subrange(from as int, self.bytepos as int)));
        }
        let until = self.bytepos;
        let span = Span::from_len(from, until - from);
        match parse_digits(vstd::slice::slice_subrange(self.input, from, until), 0xffff_ffff) {
            Some(v) => Ok(Some(Token { kind: TokenKind::Integer(v as u32), span })),
            None => Err(LexError { span, kind: LexErrorKind::InvalidNumberFormat }),
        }
    }

    /// Reads a keyword or an identifier, if one starts here.
    pub fn lex_ident(&mut self) -> (r: Result<Option<Token>, LexError>)
        ensures
            final(self).source() == old(self).source(),
            old(self).offset() <= old(self).source().len(),
            r is Ok,
            old(self).offset() < old(self).source().len() && (is_alpha(
                old(self).source()[old(self).offset() as int],
            ) || old(self).source()[old(self).offset() as int] == UNDERSCORE) ==> lexed_view(r)
                == token_at(old(self).source(), old(self).offset()).item && final(self).offset()
                == token_at(old(self).source(), old(self).offset()).next,
            !(old(self).offset() < old(self).source().len() && (is_alpha(
                old(self).source()[old(self).offset() as int],
            ) || old(self).source()[old(self).offset() as int] == UNDERSCORE)) ==> r == Ok::<
                Option<Token>,
                LexError,
            >(None) && final(self).offset() == old(self).offset(),
    {
        let from = match self.peek() {
            Some((from, c)) => {
                if (65 <= c && c <= 90) || (97 <= c && c <= 122) || c == UNDERSCORE {
                    from
                } else {
                    return Ok(None);
                }
            },
            None => {
                return Ok(None);
            },
        };
        self.next();
        self.eat_while(ByteClass::Word);
        proof {
            use_type_invariant(&*self);
        }
        let until = self.bytepos;
        let text = vstd::slice::slice_subrange(self.input, from, until);
        let kind = match KwKind::lookup(text) {
            Some(kw) => TokenKind::Keyword(kw),
            None => TokenKind::Ident(vstd::slice::slice_to_vec(text)),
        };
        Ok(Some(Token { kind, span: Span::from_len(from, until - from) }))
    }

    /// Reads the next token: `Ok(None)` at the end of the source.
    pub fn lex(&mut self) -> (r: Result<Option<Token>, LexError>)
        ensures
            final(self).source() == old(self).source(),
            old(self).offset() <= old(self).source().len(),
            lexed_view(r) == lex_step(old(self).source(), old(self).offset()).item,
            final(self).offset() == lex_step(old(self).source(), old(self).offset()).next,
    {
        proof {
            use_type_invariant(&*self);
        }
        loop
            invariant
                self.source() == old(self).source(),
                old(self).offset() <= self.offset() <= self.source().len(),
                skip_trivia(self.source(), self.offset()) == skip_trivia(
                    old(self).source(),
                    old(self).offset(),
                ),
            ensures
                self.source() == old(self).source(),
                self.offset() <= self.source().len(),
                skip_trivia(old(self).source(), old(self).offset()) == Ok::<nat, LexError>(
                    self.offset(),
                ),
            decreases self.source().len() - self.offset(),
        {
            proof {
                lemma_trivia_at(self.source(), self.offset());
            }
            match self.eat_ws() {
                Ok(true) => {},
                Ok(false) => {
                    break ;
                },
                Err(e) => {
                    return Err(e);
                },
            }
        }
        if let Some(lexed) = self.lex_symbol() {
            return Ok(Some(lexed));
        }
        match self.lex_str() {
            Ok(Some(lexed)) => {
                return Ok(Some(lexed));
            },
            Ok(None) => {},
            Err(e) => {
                return Err(e);
            },
        }
        match self.lex_integer() {
            Ok(Some(lexed)) => {
                return Ok(Some(lexed));
            },
            Ok(None) => {},
            Err(e) => {
                return Err(e);
            },
        }
        match self.lex_ident() {
            Ok(Some(lexed)) => {
                return Ok(Some(lexed));
            },
            Ok(None) => {},
            Err(e) => {
                return Err(e);
            },
        }
        if let Some((base, unknown)) = self.next() {
            return Err(self.error(LexErrorKind::UnexpectedCharacter(unknown), base, 1));
        }
        Ok(None)
    }

    /// Reads the rest of the source: every token and every error up to its
    /// end, in the order of the text.
    pub fn items(&mut self) -> (r: Vec<LexItem>)
        ensures
            final(self).source() == old(self).source(),
            items_view(r@) == lex_all(old(self).source(), old(self).offset()),
    {
        proof {
            use_type_invariant(&*self);
        }
        let mut out: Vec<LexItem> = Vec::new();
        loop
            invariant
                self.source() == old(self).source(),
                self.offset() <= self.source().len(),
                items_view(out@) + lex_all(self.source(), self.offset()) == lex_all(
                    old(self).source(),
                    old(self).offset(),
                ),
            ensures
                items_view(out@) == lex_all(old(self).source(), old(self).offset()),
                self.source() == old(self).source(),
            decreases self.source().len() - self.offset(),
        {
            let ghost before = self.offset();
            let ghost prev = out@;
            proof {
                assert(self.input.len() <= usize::MAX);
                lemma_lex_progress(self.source(), before);
            }
            let item = match self.lex() {
                Ok(Some(t)) => Ok(t),
                Ok(None) => {
                    assert(items_view(out@) + Seq::<Result<TokenView, LexError>>::empty()
                        =~= items_view(out@));
                    break ;
                },
                Err(e) => Err(e),
            };
            out.push(item);
            proof {
                assert(items_view(out@) =~= items_view(prev) + seq![item_view(item)]);
                assert(items_view(prev) + (seq![item_view(item)] + lex_all(
                    self.source(),
                    self.offset(),
                )) =~= items_view(out@) + lex_all(self.source(), self.offset()));
            }
        }
        out
    }

    /// Reads the rest of the source and returns its tokens, or the first
    /// error.
    pub fn tokens(&mut self) -> (r: Result<Vec<Token>, LexError>)
        ensures
            final(self).source() == old(self).source(),
            match r {
                Ok(v) => all_tokens(lex_all(old(self).source(), old(self).offset())) == Some(
                    tokens_view(v@),
                ),
                Err(e) => first_error(lex_all(old(self).source(), old(self).offset())) == Some(e),
            },
    {
        let items = self.items();
        let mut out: Vec<Token> = Vec::new();
        let mut i: usize = 0;
        let ghost all = lex_all(old(self).source(), old(self).offset());
        while i < items.len()
            invariant
                self.source() == old(self).source(),
                i <= items@.len(),
                all == lex_all(old(self).source(), old(self).offset()),
                items_view(items@) == all,
                out@.len() == i,
                forall|k: int| 0 <= k < i ==> all[k] == Ok::<TokenView, LexError>(#[trigger] out@[k]@),
            decreases items@.len() - i,
        {
            match &items[i] {
                Ok(t) => {
                    assert(all[i as int] == item_view(items@[i as int]));
                    out.push(t.duplicate());
                },
                Err(e) => {
                    proof {
                        assert forall|j: int| 0 <= j < i implies (#[trigger] all[j]) is Ok by {
                            assert(all[j] == Ok::<TokenView, LexError>(out@[j]@));
                        }
                        assert(all[i as int] == item_view(items@[i as int]));
                        lemma_first_error(all, i as int);
                    }
                    return Err(*e);
                },
            }
            i = i + 1;
        }
        proof {
            lemma_all_tokens(all, tokens_view(out@));
        }
        Ok(out)
    }
}

/// The elements of `v` as contracts see them.
pub open spec fn tokens_view(v: Seq<Token>) -> Seq<TokenView> {
    Seq::new(v.len(), |i: int| v[i]@)
}

/// The first error among `items`, if there is one.
pub open spec fn first_error(items: Seq<Result<TokenView, LexError>>) -> Option<LexError>
    decreases items.len(),
{
    if items.len() == 0 {
        None
    } else {
        match items[0] {
            Err(e) => Some(e),
            Ok(_) => first_error(items.drop_first()),
        }
    }
}

/// The tokens of `items`, if no item is an error.
pub open spec fn all_tokens(items: Seq<Result<TokenView, LexError>>) -> Option<Seq<TokenView>> {
    if first_error(items) is None {
        Some(Seq::new(items.len(), |i: int| items[i]->Ok_0))
    } else {
        None
    }
}

/// The first error among `items` is the error before which only tokens
/// stand.
pub proof fn lemma_first_error(items: Seq<Result<TokenView, LexError>>, k: int)
    requires
        0 <= k < items.len(),
        items[k] is Err,
        forall|j: int| 0 <= j < k ==> (#[trigger] items[j]) is Ok,
    ensures
        first_error(items) == Some(items[k]->Err_0),
    decreases k,
{
    if k > 0 {
        assert(items[0] is Ok);
        lemma_first_error(items.drop_first(), k - 1);
    }
}

/// Where every item is a token, there is no first error.
pub proof fn lemma_no_error(items: Seq<Result<TokenView, LexError>>)
    requires
        forall|j: int| 0 <= j < items.len() ==> (#[trigger] items[j]) is Ok,
    ensures
        first_error(items) is None,
    decreases items.len(),
{
    if items.len() > 0 {
        assert(items[0] is Ok);
        lemma_no_error(items.drop_first());
    }
}

/// Where every item is a token, the tokens of `items` are these tokens.
pub proof fn lemma_all_tokens(items: Seq<Result<TokenView, LexError>>, toks: Seq<TokenView>)
    requires
        toks.len() == items.len(),
        forall|k: int| 0 <= k < items.len() ==> items[k] == Ok::<TokenView, LexError>(toks[k]),
    ensures
        all_tokens(items) == Some(toks),
{
    lemma_no_error(items);
    assert(Seq::new(items.len(), |i: int| items[i]->Ok_0) =~= toks);
}

} // verus!
