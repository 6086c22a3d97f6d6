//! The stream of items that the parser reads: the tokens and lexical errors
//! of a source, with one item of lookahead.
use vstd::prelude::*;

use crate::ast::Span;
use crate::jack::grammar::{initial_span, Items};
use crate::jack::lexer::{
    in_order, item_view, items_view, lemma_lex_all_in_order, lex_all, LexItem, Lexer,
};

verus! {

/// The items of a source with one item of lookahead, and the range of the
/// token that was consumed last.
pub struct TokenStream {
    tokens: Vec<LexItem>,
    index: usize,
    current_span: Span,
    limit: usize,
}

impl TokenStream {
    /// All items of the stream, consumed or not.
    pub closed spec fn items(&self) -> Items {
        items_view(self.tokens@)
    }

    /// How many items have been consumed.
    pub closed spec fn index(&self) -> nat {
        self.index as nat
    }

    /// The range of the token consumed last; at the start, that of the first
    /// token.
    pub closed spec fn span(&self) -> Span {
        self.current_span
    }

    /// The length of the source.
    pub closed spec fn limit(&self) -> nat {
        self.limit as nat
    }

    /// The tokens lie one behind the other within the source, and none that
    /// is left ends before the one consumed last.
    pub closed spec fn wf(&self) -> bool {
        &&& self.index() <= self.items().len()
        &&& self.limit() <= usize::MAX
        &&& in_order(self.items(), 0, self.limit())
        &&& self.span().high() <= self.limit()
        &&& forall|k: int|
            self.index() <= k < self.items().len() && (#[trigger] self.items()[k]) is Ok
                ==> self.span().high() <= self.items()[k]->Ok_0.span.high()
    }

    /// What the stream keeps true of itself, as far as its users need it.
    pub proof fn lemma_bounds(&self)
        requires
            self.wf(),
        ensures
            self.index() <= self.items().len(),
            self.span().high() <= self.limit() <= usize::MAX,
    {
    }

    /// The range of the token consumed last.
    pub fn current_span(&self) -> (s: Span)
        ensures
            s == self.span(),
    {
        self.current_span
    }

    /// The stream of what `lexer` has left to read.
    pub fn new(lexer: Lexer) -> (s: TokenStream)
        ensures
            s.wf(),
            s.items() == lex_all(lexer.source(), lexer.offset()),
            s.index() == 0,
            s.span() == initial_span(s.items()),
            s.limit() == lexer.source().len(),
    {
        let mut lexer = lexer;
        let limit = lexer.length();
        let ghost src = lexer.source();
        let ghost pos = lexer.offset();
        let tokens = lexer.items();
        proof {
            lemma_lex_all_in_order(src, pos);
        }
        let current_span = if tokens.len() > 0 {
            match &tokens[0] {
                Ok(token) => token.span,
                Err(_) => Span::new(0, 0),
            }
        } else {
            Span::new(0, 0)
        };
        proof {
            let items = items_view(tokens@);
            if items.len() > 0 {
                assert(items[0] == item_view(tokens@[0]));
            }
            assert forall|k: int| 0 <= k < items.len() && (#[trigger] items[k]) is Ok implies
                current_span.high() <= items[k]->Ok_0.span.high() by {
                if k > 0 && items[0] is Ok {
                    assert(items[0]->Ok_0.span.high() <= items[k]->Ok_0.span.low());
                }
            }
        }
        TokenStream { tokens, index: 0, current_span, limit }
    }

    /// The next item, without consuming it.
    pub fn peek(&self) -> (r: Option<&LexItem>)
        requires
            self.wf(),
        ensures
            match r {
                Some(item) => self.index() < self.items().len() && item_view(*item)
                    == self.items()[self.index() as int],
                None => self.index() == self.items().len(),
            },
    {
        if self.index < self.tokens.len() {
            Some(&self.tokens[self.index])
        } else {
            None
        }
    }

    /// Consumes the next item. A token that is consumed becomes the one
    /// consumed last.
    pub fn next(&mut self) -> (r: Option<LexItem>)
        requires
            old(self).wf(),
        ensures
            final(self).wf(),
            final(self).items() == old(self).items(),
            final(self).limit() == old(self).limit(),
            final(self).span().high() >= old(self).span().high(),
            match r {
                Some(item) => old(self).index() < old(self).items().len() && item_view(item)
                    == old(self).items()[old(self).index() as int] && final(self).index() == old(
                    self,
                ).index() + 1 && final(self).span() == match item {
                    Ok(t) => t.span,
                    Err(_) => old(self).span(),
                },
                None => old(self).index() == old(self).items().len() && final(self).index()
                    == old(self).index() && final(self).span() == old(self).span(),
            },
    {
        if self.index < self.tokens.len() {
            let ghost items = self.items();
            let ghost at = self.index as int;
            assert(items[at] == item_view(self.tokens@[at]));
            let item = match &self.tokens[self.index] {
                Ok(t) => Ok(t.duplicate()),
                Err(e) => Err(*e),
            };
            match &item {
                Ok(t) => {
                    assert(items[at] is Ok);
                    assert forall|k: int| at + 1 <= k < items.len() && (#[trigger] items[k])
                        is Ok implies t.span.high() <= items[k]->Ok_0.span.high() by {
                        assert(items[at]->Ok_0.span.high() <= items[k]->Ok_0.span.low());
                    }
                    self.current_span = t.span;
                },
                Err(_) => {},
            }
            self.index = self.index + 1;
            Some(item)
        } else {
            None
        }
    }
}

} // verus!
