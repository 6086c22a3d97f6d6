//! The generator of stack-machine code: it lowers the syntax tree of a class
//! to text, one instruction to a line.
use vstd::prelude::*;

pub mod class;
pub mod stmt;
pub mod term;

use crate::ast::Span;
use crate::jack::emit::{sem_error, Emitted};
use crate::jack::error::{JackError, SemanticError, SemanticErrorKind, SemanticErrorView};
use crate::text::{dec, lit, push_all, push_dec, push_lit};
use crate::vm::segment::{segment_text, Segment};

verus! {

/// The elements of `v` as contracts see them.
pub open spec fn diags_view(v: Seq<SemanticError>) -> Seq<SemanticErrorView> {
    Seq::new(v.len(), |i: int| v[i]@)
}

/// The code and the warnings of one class.
pub struct Codegen {
    /// The code written so far.
    pub out: Vec<u8>,
    /// The warnings given so far.
    pub diagnostics: Vec<SemanticError>,
}

impl Codegen {
    /// The state of the lowering: what was written, what was warned of, and
    /// how many labels were handed out.
    pub open spec fn state(&self, labels: nat) -> Emitted {
        Emitted { text: self.out@, warnings: diags_view(self.diagnostics@), labels }
    }

    /// A generator that has written nothing.
    pub fn new() -> (g: Codegen)
        ensures
            g.out@ == Seq::<u8>::empty(),
            g.diagnostics@ == Seq::<SemanticError>::empty(),
    {
        Codegen { out: Vec::new(), diagnostics: Vec::new() }
    }

    /// Writes one line.
    pub fn write(&mut self, line: &[u8])
        ensures
            final(self).diagnostics == old(self).diagnostics,
            final(self).out@ == old(self).out@ + line@ + lit("\n"),
    {
        push_all(&mut self.out, line);
        push_lit(&mut self.out, "\n");
    }

    /// Writes one line of fixed text.
    pub fn write_lit(&mut self, line: &str)
        ensures
            final(self).diagnostics == old(self).diagnostics,
            final(self).out@ == old(self).out@ + lit(line) + lit("\n"),
    {
        push_lit(&mut self.out, line);
        push_lit(&mut self.out, "\n");
    }

    /// Writes `push <segment> <v>`.
    pub fn push(&mut self, segment: Segment, v: u64)
        ensures
            final(self).diagnostics == old(self).diagnostics,
            final(self).out@ == old(self).out@ + lit("push ") + segment_text(segment) + lit(" ")
                + dec(v as nat) + lit("\n"),
    {
        push_lit(&mut self.out, "push ");
        push_lit(&mut self.out, segment.name());
        push_lit(&mut self.out, " ");
        push_dec(&mut self.out, v);
        push_lit(&mut self.out, "\n");
    }

    /// Writes `pop <segment> <v>`.
    pub fn pop(&mut self, segment: Segment, v: u64)
        ensures
            final(self).diagnostics == old(self).diagnostics,
            final(self).out@ == old(self).out@ + lit("pop ") + segment_text(segment) + lit(" ")
                + dec(v as nat) + lit("\n"),
    {
        push_lit(&mut self.out, "pop ");
        push_lit(&mut self.out, segment.name());
        push_lit(&mut self.out, " ");
        push_dec(&mut self.out, v);
        push_lit(&mut self.out, "\n");
    }

    /// Writes `return`.
    pub fn ret(&mut self)
        ensures
            final(self).diagnostics == old(self).diagnostics,
            final(self).out@ == old(self).out@ + lit("return") + lit("\n"),
    {
        self.write_lit("return");
    }

    /// Writes a word and a name on one line.
    pub fn named(&mut self, word: &str, name: &[u8])
        ensures
            final(self).diagnostics == old(self).diagnostics,
            final(self).out@ == old(self).out@ + lit(word) + name@ + lit("\n"),
    {
        push_lit(&mut self.out, word);
        push_all(&mut self.out, name);
        push_lit(&mut self.out, "\n");
    }

    /// Writes `label <label>`.
    pub fn label(&mut self, label: &[u8])
        ensures
            final(self).diagnostics == old(self).diagnostics,
            final(self).out@ == old(self).out@ + lit("label ") + label@ + lit("\n"),
    {
        self.named("label ", label);
    }

    /// Writes `if-goto <label>`.
    pub fn if_goto(&mut self, label: &[u8])
        ensures
            final(self).diagnostics == old(self).diagnostics,
            final(self).out@ == old(self).out@ + lit("if-goto ") + label@ + lit("\n"),
    {
        self.named("if-goto ", label);
    }

    /// Writes `goto <label>`.
    pub fn goto(&mut self, label: &[u8])
        ensures
            final(self).diagnostics == old(self).diagnostics,
            final(self).out@ == old(self).out@ + lit("goto ") + label@ + lit("\n"),
    {
        self.named("goto ", label);
    }

    /// The error of the given kind at `span`.
    pub fn error(&self, kind: SemanticErrorKind, span: Span) -> (e: JackError)
        ensures
            e@ == sem_error(kind@, span),
    {
        JackError::SemanticError(SemanticError { kind, span })
    }

    /// Gives a warning of the given kind at `span`.
    pub fn warning(&mut self, kind: SemanticErrorKind, span: Span)
        ensures
            final(self).out == old(self).out,
            diags_view(final(self).diagnostics@) == diags_view(old(self).diagnostics@).push(
                SemanticErrorView { kind: kind@, span },
            ),
    {
        let ghost before = diags_view(self.diagnostics@);
        self.diagnostics.push(SemanticError { kind, span });
        assert(diags_view(self.diagnostics@) =~= before.push(
            SemanticErrorView { kind: kind@, span },
        ));
    }
}

} // verus!
