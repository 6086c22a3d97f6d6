//! The lexer loses nothing: the tokens of a source, one behind the other,
//! are the source without its whitespace and its comments.
use vstd::prelude::*;

use crate::jack::error::LexError;
use crate::jack::lexer::{
    first_error, lemma_lex_progress, lemma_lex_step, lemma_skip_trivia, lemma_trivia_at, lex_all,
    lex_step, skip_trivia, trivia_at, Trivia,
};
use crate::jack::token::{symbol_of, TokenView};
use crate::text::{is_digit, is_space, lemma_run_end, run_end, ByteClass, QUOTE, SLASH};

verus! {

/// The source from `pos` on without its whitespace and its comments. A
/// string literal is kept as it stands, with its quotes: what looks like
/// whitespace or a comment within it belongs to it. Behind a comment that
/// does not end there is nothing.
pub open spec fn significant(src: Seq<u8>, pos: nat) -> Seq<u8>
    decreases src.len() - pos,
{
    if pos >= src.len() {
        Seq::empty()
    } else {
        match trivia_at(src, pos) {
            Trivia::Until(n) => {
                proof {
                    lemma_trivia_at(src, pos);
                }
                significant(src, n)
            },
            Trivia::Open(_) => Seq::empty(),
            Trivia::Nothing => if src[pos as int] == QUOTE {
                let e = run_end(src, pos + 1, ByteClass::NotQuote);
                proof {
                    lemma_run_end(src, pos + 1, ByteClass::NotQuote);
                }
                if e < src.len() {
                    src.subrange(pos as int, (e + 1) as int) + significant(src, e + 1)
                } else {
                    src.subrange(pos as int, src.len() as int)
                }
            } else {
                seq![src[pos as int]] + significant(src, pos + 1)
            },
        }
    }
}

/// The text of the tokens among `items`, one behind the other: for each
/// token the bytes of the source in its range.
pub open spec fn tokens_text(src: Seq<u8>, items: Seq<Result<TokenView, LexError>>) -> Seq<u8>
    decreases items.len(),
{
    if items.len() == 0 {
        Seq::empty()
    } else {
        match items[0] {
            Ok(t) => src.subrange(t.span.low(), t.span.high()) + tokens_text(
                src,
                items.drop_first(),
            ),
            Err(_) => tokens_text(src, items.drop_first()),
        }
    }
}

/// A byte that is neither whitespace nor the start of a comment or of a
/// string.
pub open spec fn plain(b: u8) -> bool {
    !is_space(b) && b != SLASH && b != QUOTE
}

/// A run of plain bytes is kept as it stands.
pub proof fn lemma_plain_run(src: Seq<u8>, p: nat, e: nat)
    requires
        p <= e <= src.len(),
        forall|k: int| p <= k < e ==> plain(#[trigger] src[k]),
    ensures
        significant(src, p) == src.subrange(p as int, e as int) + significant(src, e),
    decreases e - p,
{
    if p < e {
        assert(plain(src[p as int]));
        lemma_plain_run(src, p + 1, e);
        assert(seq![src[p as int]] + (src.subrange((p + 1) as int, e as int) + significant(src, e))
            =~= src.subrange(p as int, e as int) + significant(src, e));
    } else {
        assert(src.subrange(p as int, e as int) + significant(src, e) =~= significant(src, e));
    }
}

/// Whitespace and comments before a token are left out.
pub proof fn lemma_skip_significant(src: Seq<u8>, pos: nat)
    requires
        pos <= src.len(),
        skip_trivia(src, pos) is Ok,
    ensures
        significant(src, pos) == significant(src, skip_trivia(src, pos)->Ok_0),
    decreases src.len() - pos,
{
    lemma_trivia_at(src, pos);
    match trivia_at(src, pos) {
        Trivia::Until(n) => {
            lemma_skip_significant(src, n);
        },
        _ => {},
    }
}

/// The round trip of the lexer: where a source is lexed without an error,
/// the texts of its tokens, one behind the other, are the source without its
/// whitespace and its comments.
pub proof fn lemma_lex_round_trip(src: Seq<u8>, pos: nat)
    requires
        pos <= src.len() <= usize::MAX,
        first_error(lex_all(src, pos)) is None,
    ensures
        tokens_text(src, lex_all(src, pos)) == significant(src, pos),
    decreases src.len() - pos,
{
    let step = lex_step(src, pos);
    lemma_lex_progress(src, pos);
    lemma_lex_step(src, pos);
    lemma_skip_trivia(src, pos);
    match step.item {
        None => {
            // the source ends behind whitespace and comments
            let p = skip_trivia(src, pos)->Ok_0;
            lemma_skip_significant(src, pos);
        },
        Some(item) => {
            let rest = lex_all(src, step.next);
            let all = lex_all(src, pos);
            assert(all =~= seq![item] + rest);
            assert(all.drop_first() =~= rest);
            assert(all[0] == item);
            assert(item is Ok);
            let t = item->Ok_0;
            let p = skip_trivia(src, pos)->Ok_0;
            lemma_skip_significant(src, pos);
            lemma_lex_round_trip(src, step.next);
            let b = src[p as int];
            assert(trivia_at(src, p) is Nothing);
            if symbol_of(b) is Some {
                assert(src.subrange(p as int, (p + 1) as int) =~= seq![b]);
            } else if b == QUOTE {
            } else if is_digit(b) {
                lemma_run_end(src, p, ByteClass::Digit);
                lemma_plain_run(src, p, step.next);
            } else {
                lemma_run_end(src, p + 1, ByteClass::Word);
                assert forall|k: int| p <= k < step.next implies plain(#[trigger] src[k]) by {
                    if k > p {
                        assert(ByteClass::Word.has(src[k]));
                    }
                }
                lemma_plain_run(src, p, step.next);
            }
        },
    }
}

} // verus!
